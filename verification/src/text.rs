//! Character-level text helpers: ASCII case folding, substring and prefix
//! tests, and decimal rendering of numbers.
use vstd::prelude::*;

verus! {

/// ASCII lower-casing of one character; other characters are unchanged.
pub open spec fn ascii_lower(c: char) -> char {
    if 'A' <= c && c <= 'Z' {
        ((c as u32) + 32) as char
    } else {
        c
    }
}

/// ASCII lower-casing of a whole text.
pub open spec fn lower_text(s: Seq<char>) -> Seq<char> {
    s.map_values(|c: char| ascii_lower(c))
}

/// `needle` occurs in `hay` at position `i`.
pub open spec fn occurs_at(hay: Seq<char>, needle: Seq<char>, i: int) -> bool {
    0 <= i && i + needle.len() <= hay.len() && hay.subrange(i, i + needle.len()) == needle
}

/// `needle` occurs somewhere in `hay`.
pub open spec fn text_contains(hay: Seq<char>, needle: Seq<char>) -> bool {
    exists|i: int| occurs_at(hay, needle, i)
}

/// `s` begins with `prefix`.
pub open spec fn text_starts_with(s: Seq<char>, prefix: Seq<char>) -> bool {
    prefix.len() <= s.len() && s.subrange(0, prefix.len() as int) == prefix
}

/// The characters of a string slice, in order.
pub fn chars_of(s: &str) -> (v: Vec<char>)
    ensures
        v@ == s@,
{
    let n = s.unicode_len();
    let mut v: Vec<char> = Vec::new();
    let mut i: usize = 0;
    while i < n
        invariant
            n == s@.len(),
            i <= n,
            v@ == s@.subrange(0, i as int),
        decreases n - i,
    {
        let c = s.get_char(i);
        v.push(c);
        i = i + 1;
    }
    v
}

/// Whether `c`, lower-cased, equals `p`.
fn lower_char_is(c: char, p: char) -> (b: bool)
    ensures
        b == (ascii_lower(c) == p),
{
    if 'A' <= c && c <= 'Z' {
        let code: u32 = c as u32;
        (code + 32) == (p as u32)
    } else {
        c == p
    }
}

/// Whether `needle` occurs in the ASCII lower-cased form of `hay`.
pub fn contains_ignoring_ascii_case(hay: &Vec<char>, needle: &str) -> (b: bool)
    ensures
        b == text_contains(lower_text(hay@), needle@),
{
    let pat = chars_of(needle);
    let lh = Ghost(lower_text(hay@));
    if pat.len() > hay.len() {
        assert forall|i: int| !occurs_at(lh@, pat@, i) by {}
        return false;
    }
    if pat.len() == 0 {
        assert(lh@.subrange(0, 0) =~= pat@);
        assert(occurs_at(lh@, pat@, 0));
        return true;
    }
    let n = hay.len();
    let last = n - pat.len();
    let mut i: usize = 0;
    while i <= last
        invariant
            pat@ == needle@,
            lh@ == lower_text(hay@),
            last == hay@.len() - pat@.len(),
            0 < pat@.len() <= hay@.len(),
            n == hay@.len(),
            i <= last + 1,
            forall|k: int| 0 <= k < i ==> !occurs_at(lh@, pat@, k),
        decreases last + 1 - i,
    {
        let mut j: usize = 0;
        let mut all = true;
        while j < pat.len()
            invariant
                pat@ == needle@,
                lh@ == lower_text(hay@),
                last == hay@.len() - pat@.len(),
                pat@.len() <= hay@.len(),
                n == hay@.len(),
                i <= last,
                j <= pat@.len(),
                all == (forall|t: int| 0 <= t < j ==> lh@[i + t] == pat@[t]),
            decreases pat@.len() - j,
        {
            if !lower_char_is(hay[i + j], pat[j]) {
                all = false;
            }
            j = j + 1;
        }
        if all {
            assert(lh@.subrange(i as int, i + pat@.len()) =~= pat@);
            assert(occurs_at(lh@, pat@, i as int));
            return true;
        }
        assert(!occurs_at(lh@, pat@, i as int)) by {
            if occurs_at(lh@, pat@, i as int) {
                let t = choose|t: int| 0 <= t < pat@.len() && lh@[i + t] != pat@[t];
                assert(lh@.subrange(i as int, i + pat@.len())[t] == lh@[i + t]);
            }
        }
        i = i + 1;
    }
    assert forall|k: int| !occurs_at(lh@, pat@, k) by {
        if 0 <= k && k + pat@.len() <= lh@.len() {
            assert(k < i);
        }
    }
    false
}

/// Whether `s` begins with `prefix`.
pub fn starts_with_text(s: &Vec<char>, prefix: &str) -> (b: bool)
    ensures
        b == text_starts_with(s@, prefix@),
{
    let pat = chars_of(prefix);
    if pat.len() > s.len() {
        return false;
    }
    let mut j: usize = 0;
    while j < pat.len()
        invariant
            pat@ == prefix@,
            pat@.len() <= s@.len(),
            j <= pat@.len(),
            forall|t: int| 0 <= t < j ==> s@[t] == pat@[t],
        decreases pat@.len() - j,
    {
        if s[j] != pat[j] {
            assert(s@.subrange(0, pat@.len() as int)[j as int] == s@[j as int]);
            return false;
        }
        j = j + 1;
    }
    assert(s@.subrange(0, pat@.len() as int) =~= pat@);
    true
}

/// The decimal digit character for `d < 10`.
pub open spec fn digit_char(d: nat) -> char {
    ((d + 48) as u32) as char
}

/// Decimal rendering of a natural number, without leading zeros.
pub open spec fn decimal_text(n: nat) -> Seq<char>
    decreases n,
{
    if n < 10 {
        seq![digit_char(n)]
    } else {
        decimal_text(n / 10).push(digit_char(n % 10))
    }
}

fn digit_str(d: u64) -> (s: &'static str)
    requires
        d < 10,
    ensures
        s@ == seq![digit_char(d as nat)],
{
    if d == 0 {
        proof { reveal_strlit("0"); }
        "0"
    } else if d == 1 {
        proof { reveal_strlit("1"); }
        "1"
    } else if d == 2 {
        proof { reveal_strlit("2"); }
        "2"
    } else if d == 3 {
        proof { reveal_strlit("3"); }
        "3"
    } else if d == 4 {
        proof { reveal_strlit("4"); }
        "4"
    } else if d == 5 {
        proof { reveal_strlit("5"); }
        "5"
    } else if d == 6 {
        proof { reveal_strlit("6"); }
        "6"
    } else if d == 7 {
        proof { reveal_strlit("7"); }
        "7"
    } else if d == 8 {
        proof { reveal_strlit("8"); }
        "8"
    } else {
        proof { reveal_strlit("9"); }
        "9"
    }
}

/// Appends the decimal rendering of `n` to `s`.
pub fn push_decimal(s: &mut String, n: u64)
    ensures
        final(s)@ == old(s)@ + decimal_text(n as nat),
    decreases n,
{
    if n >= 10 {
        push_decimal(s, n / 10);
    }
    s.append(digit_str(n % 10));
    proof {
        if n >= 10 {
            assert(decimal_text(n as nat) == decimal_text((n / 10) as nat).push(digit_char((n % 10) as nat)));
        }
    }
}

} // verus!
