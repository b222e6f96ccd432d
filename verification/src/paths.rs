//! Path comparison by components, as path values compare: runs of `/` act
//! as one separator, a trailing `/` does not count, and `.` components are
//! dropped except at the start of a relative path.
use vstd::prelude::*;

verus! {

/// Where the last segment of `p` starts: `p.len()` when `p` is empty or
/// ends with `/`.
pub open spec fn seg_start(p: Seq<char>) -> nat
    decreases p.len(),
{
    if p.len() == 0 || p.last() == '/' {
        p.len()
    } else {
        seg_start(p.drop_last())
    }
}

/// The nonempty `/`-separated segments of `p`, in order.
pub open spec fn segments(p: Seq<char>) -> Seq<Seq<char>>
    decreases p.len(),
{
    if p.len() == 0 {
        seq![]
    } else if p.last() == '/' {
        segments(p.drop_last())
    } else {
        let k = seg_start(p);
        if k < p.len() {
            segments(p.subrange(0, k as int)).push(p.subrange(k as int, p.len() as int))
        } else {
            seq![]
        }
    }
}

/// The segments without any `.` segment.
pub open spec fn drop_dots(s: Seq<Seq<char>>) -> Seq<Seq<char>>
    decreases s.len(),
{
    if s.len() == 0 {
        seq![]
    } else if s.last() == seq!['.'] {
        drop_dots(s.drop_last())
    } else {
        drop_dots(s.drop_last()).push(s.last())
    }
}

/// Whether the path starts at the root.
pub open spec fn is_rooted(p: Seq<char>) -> bool {
    p.len() > 0 && p[0] == '/'
}

/// The components of a path after its root: its segments without `.`,
/// except that a relative path that starts with `.` keeps that first `.`.
pub open spec fn path_components(p: Seq<char>) -> Seq<Seq<char>> {
    let raw = segments(p);
    if !is_rooted(p) && raw.len() > 0 && raw[0] == seq!['.'] {
        seq![raw[0]] + drop_dots(raw.drop_first())
    } else {
        drop_dots(raw)
    }
}

/// Whether two paths are the same path: both rooted or both relative, with
/// equal components.
pub open spec fn same_path(a: Seq<char>, b: Seq<char>) -> bool {
    is_rooted(a) == is_rooted(b) && path_components(a) == path_components(b)
}

/// The texts of a list of character vectors.
pub open spec fn texts(v: Seq<Vec<char>>) -> Seq<Seq<char>> {
    Seq::new(v.len(), |i: int| v[i]@)
}

proof fn lemma_seg_start_bound(p: Seq<char>)
    ensures
        seg_start(p) <= p.len(),
        seg_start(p) < p.len() ==> p.last() != '/',
    decreases p.len(),
{
    if p.len() > 0 && p.last() != '/' {
        lemma_seg_start_bound(p.drop_last());
    }
}

/// Splits a path into its nonempty `/`-separated segments.
fn split_segments(p: &Vec<char>) -> (out: Vec<Vec<char>>)
    ensures
        texts(out@) == segments(p@),
{
    let n = p.len();
    let mut acc: Vec<Vec<char>> = Vec::new();
    let mut cur: Vec<char> = Vec::new();
    let mut i: usize = 0;
    proof {
        assert(p@.subrange(0, 0) =~= Seq::<char>::empty());
    }
    while i < n
        invariant
            n == p@.len(),
            i <= n,
            seg_start(p@.subrange(0, i as int)) <= i,
            texts(acc@) == segments(p@.subrange(0, seg_start(p@.subrange(0, i as int)) as int)),
            cur@ == p@.subrange(seg_start(p@.subrange(0, i as int)) as int, i as int),
        decreases n - i,
    {
        let c = p[i];
        let ghost before = p@.subrange(0, i as int);
        let ghost after = p@.subrange(0, i + 1);
        let ghost k = seg_start(before);
        assert(after.drop_last() =~= before);
        assert(after.last() == c);
        proof {
            lemma_seg_start_bound(before);
        }
        if c == '/' {
            assert(seg_start(after) == i + 1);
            assert(p@.subrange(0, (i + 1) as int) =~= after);
            assert(segments(after) == segments(before));
            if cur.len() > 0 {
                assert(k < i);
                assert(before.subrange(0, k as int) =~= p@.subrange(0, k as int));
                assert(before.subrange(k as int, i as int) =~= cur@);
                let ghost old_acc = acc@;
                acc.push(cur);
                assert(texts(acc@) =~= texts(old_acc).push(cur@));
                cur = Vec::new();
            } else {
                assert(k == i);
                assert(p@.subrange(0, k as int) =~= before);
            }
            assert(cur@ =~= p@.subrange((i + 1) as int, (i + 1) as int));
        } else {
            assert(seg_start(after) == k);
            cur.push(c);
            assert(cur@ =~= p@.subrange(k as int, (i + 1) as int));
        }
        i = i + 1;
    }
    let ghost whole = p@.subrange(0, n as int);
    assert(whole =~= p@);
    proof {
        lemma_seg_start_bound(p@);
    }
    if cur.len() > 0 {
        let ghost k = seg_start(p@);
        let ghost old_acc = acc@;
        acc.push(cur);
        assert(texts(acc@) =~= texts(old_acc).push(p@.subrange(k as int, n as int)));
    } else {
        assert(seg_start(p@) == n);
    }
    acc
}

/// Drops every `.` segment.
fn without_dots(s: &Vec<Vec<char>>, from: usize) -> (out: Vec<Vec<char>>)
    requires
        from <= s@.len(),
    ensures
        texts(out@) == drop_dots(texts(s@).subrange(from as int, s@.len() as int)),
{
    let mut out: Vec<Vec<char>> = Vec::new();
    let mut i: usize = from;
    assert(texts(s@).subrange(from as int, from as int) =~= Seq::<Seq<char>>::empty());
    while i < s.len()
        invariant
            from <= i <= s@.len(),
            texts(out@) == drop_dots(texts(s@).subrange(from as int, i as int)),
        decreases s@.len() - i,
    {
        let seg = &s[i];
        let ghost prev = texts(s@).subrange(from as int, i as int);
        let ghost next = texts(s@).subrange(from as int, i + 1);
        assert(next.drop_last() =~= prev);
        assert(next.last() == seg@);
        let is_dot = seg.len() == 1 && seg[0] == '.';
        if is_dot {
            assert(seg@ =~= seq!['.']);
        } else {
            assert(seg@ != seq!['.']) by {
                if seg@ == seq!['.'] {
                    assert(seg@.len() == 1 && seg@[0] == '.');
                }
            }
            let ghost old_out = out@;
            out.push(seg.clone());
            assert(texts(out@) =~= texts(old_out).push(seg@));
        }
        i = i + 1;
    }
    out
}

fn same_chars(a: &Vec<char>, b: &Vec<char>) -> (r: bool)
    ensures
        r == (a@ == b@),
{
    if a.len() != b.len() {
        return false;
    }
    let mut i: usize = 0;
    while i < a.len()
        invariant
            a@.len() == b@.len(),
            i <= a@.len(),
            forall|k: int| 0 <= k < i ==> a@[k] == b@[k],
        decreases a@.len() - i,
    {
        if a[i] != b[i] {
            return false;
        }
        i = i + 1;
    }
    assert(a@ =~= b@);
    true
}

/// The components of a path (see `path_components`).
fn components_of(p: &Vec<char>) -> (out: Vec<Vec<char>>)
    ensures
        texts(out@) == path_components(p@),
{
    let raw = split_segments(p);
    let rooted = p.len() > 0 && p[0] == '/';
    let leading_dot = raw.len() > 0 && raw[0].len() == 1 && raw[0][0] == '.';
    assert(texts(raw@).subrange(0, raw@.len() as int) =~= texts(raw@));
    if !rooted && leading_dot {
        assert(raw@[0]@ =~= seq!['.']);
        assert(texts(raw@)[0] == seq!['.']);
        let rest = without_dots(&raw, 1);
        assert(texts(raw@).subrange(1, raw@.len() as int) =~= texts(raw@).drop_first());
        let mut out: Vec<Vec<char>> = Vec::new();
        out.push(raw[0].clone());
        let mut i: usize = 0;
        while i < rest.len()
            invariant
                i <= rest@.len(),
                texts(out@) == seq![seq!['.']] + texts(rest@).subrange(0, i as int),
            decreases rest@.len() - i,
        {
            let ghost old_out = out@;
            out.push(rest[i].clone());
            assert(texts(out@) =~= texts(old_out).push(rest@[i as int]@));
            assert(texts(rest@).subrange(0, i + 1) =~= texts(rest@).subrange(0, i as int).push(
                rest@[i as int]@,
            ));
            i = i + 1;
        }
        assert(texts(rest@).subrange(0, rest@.len() as int) =~= texts(rest@));
        out
    } else {
        assert(!(!is_rooted(p@) && texts(raw@).len() > 0 && texts(raw@)[0] == seq!['.'])) by {
            if !is_rooted(p@) && texts(raw@).len() > 0 && texts(raw@)[0] == seq!['.'] {
                assert(raw@[0]@.len() == 1 && raw@[0]@[0] == '.');
            }
        }
        without_dots(&raw, 0)
    }
}

/// Whether two paths are the same path, compared by components.
pub fn paths_equal(a: &str, b: &str) -> (r: bool)
    ensures
        r == same_path(a@, b@),
{
    let ac = crate::text::chars_of(a);
    let bc = crate::text::chars_of(b);
    let a_rooted = ac.len() > 0 && ac[0] == '/';
    let b_rooted = bc.len() > 0 && bc[0] == '/';
    if a_rooted != b_rooted {
        return false;
    }
    let x = components_of(&ac);
    let y = components_of(&bc);
    if x.len() != y.len() {
        assert(texts(x@).len() != texts(y@).len());
        return false;
    }
    let mut i: usize = 0;
    while i < x.len()
        invariant
            x@.len() == y@.len(),
            texts(x@) == path_components(ac@),
            texts(y@) == path_components(bc@),
            ac@ == a@,
            bc@ == b@,
            is_rooted(a@) == is_rooted(b@),
            i <= x@.len(),
            forall|k: int| 0 <= k < i ==> x@[k]@ == y@[k]@,
        decreases x@.len() - i,
    {
        if !same_chars(&x[i], &y[i]) {
            assert(texts(x@)[i as int] != texts(y@)[i as int]);
            assert(path_components(ac@) != path_components(bc@));
            return false;
        }
        i = i + 1;
    }
    assert(texts(x@) =~= texts(y@));
    true
}

/// Every path is the same path as itself.
pub proof fn lemma_same_path_reflexive(p: Seq<char>)
    ensures
        same_path(p, p),
{
}

} // verus!
