//! The capabilities the local-shm virtual keyboard and pointer report to
//! the guest: names, ids, event-capability bitmaps and axis ranges.
use vstd::prelude::*;
use vstd::string::StringSliceAdditionalSpecFns;
use crate::input_state::{
    ABS_X, ABS_Y, BTN_LEFT, BTN_MIDDLE, BTN_RIGHT, REL_WHEEL, REL_X, REL_Y, SYN_REPORT,
};

verus! {

/// Bus type of both virtual devices (BUS_VIRTUAL).
pub const BUS_VIRTUAL: u16 = 0x06;
/// Vendor id of both virtual devices.
pub const DEVICE_VENDOR: u16 = 0x534d;
/// Pointer device property bit.
pub const INPUT_PROP_POINTER: u16 = 0;

/// Errors of the input backend callbacks.
#[derive(Clone, Copy, Debug, PartialEq, Eq, Structural)]
pub enum InputError {
    /// Backend implementation error.
    InternalError,
    /// Try again later.
    Again,
    /// Method not supported.
    MethodNotSupported,
    /// Invalid parameter.
    InvalidParam,
}

/// Identity of an input device.
#[derive(Clone, Copy, Debug, PartialEq, Eq, Structural)]
pub struct DeviceIds {
    /// Bus type.
    pub bustype: u16,
    /// Vendor id.
    pub vendor: u16,
    /// Product id.
    pub product: u16,
    /// Version.
    pub version: u16,
}

/// Range of an absolute axis.
#[derive(Clone, Copy, Debug, PartialEq, Eq, Structural)]
pub struct AbsInfo {
    /// Minimum value.
    pub min: u32,
    /// Maximum value.
    pub max: u32,
    /// Fuzz.
    pub fuzz: u32,
    /// Flat zone.
    pub flat: u32,
    /// Resolution.
    pub res: u32,
}

/// The smaller of two lengths.
pub open spec fn min_len(a: int, b: int) -> int {
    if a <= b {
        a
    } else {
        b
    }
}

/// Copies as much of `name` as fits (and at most 255 bytes) to the start
/// of `buffer` and returns how many bytes were copied.
pub fn copy_name(buffer: &mut Vec<u8>, name: &[u8]) -> (r: Result<u8, InputError>)
    ensures
        ({
            let n = min_len(min_len(old(buffer)@.len() as int, name@.len() as int), 255);
            &&& r == Ok::<u8, InputError>(n as u8)
            &&& final(buffer)@ == name@.subrange(0, n) + old(buffer)@.subrange(
                n,
                old(buffer)@.len() as int,
            )
        }),
{
    let mut length = buffer.len();
    if name.len() < length {
        length = name.len();
    }
    if 255 < length {
        length = 255;
    }
    let mut i: usize = 0;
    while i < length
        invariant
            length <= buffer@.len(),
            length <= name@.len(),
            buffer@.len() == old(buffer)@.len(),
            i <= length,
            forall|k: int|
                0 <= k < buffer@.len() ==> #[trigger] buffer@[k] == (if k < i {
                    name@[k]
                } else {
                    old(buffer)@[k]
                }),
        decreases length - i,
    {
        buffer.set(i, name[i]);
        i = i + 1;
    }
    assert(buffer@ =~= name@.subrange(0, length as int) + old(buffer)@.subrange(
        length as int,
        old(buffer)@.len() as int,
    ));
    Ok(length as u8)
}

/// The mask of a bit within its byte.
pub open spec fn bit_mask(bit: u16) -> u8 {
    (1u8 << ((bit % 8) as u8)) as u8
}

/// The bitmap byte that holds a bit.
pub open spec fn byte_of(bit: u16) -> int {
    (bit / 8) as int
}

/// `bitmap` with the listed bits set, in order.
pub open spec fn apply_bits(bitmap: Seq<u8>, bits: Seq<u16>) -> Seq<u8>
    decreases bits.len(),
{
    if bits.len() == 0 {
        bitmap
    } else {
        let prev = apply_bits(bitmap, bits.drop_last());
        let b = bits.last();
        prev.update(byte_of(b), prev[byte_of(b)] | bit_mask(b))
    }
}

/// Number of bitmap bytes the listed bits reach (0 when there are none).
pub open spec fn bitmap_extent(bits: Seq<u16>) -> int
    decreases bits.len(),
{
    if bits.len() == 0 {
        0
    } else {
        let rest = bitmap_extent(bits.drop_last());
        let here = bits.last() / 8 + 1;
        if rest >= here {
            rest
        } else {
            here
        }
    }
}

/// Whether every listed bit falls inside a bitmap of `len` bytes.
pub open spec fn bits_fit(bits: Seq<u16>, len: int) -> bool {
    forall|i: int| 0 <= i < bits.len() ==> #[trigger] bits[i] / 8 < len
}

/// The outcome of setting `bits` in `old`: when they all fit, the bitmap
/// with the bits set and its extent (capped at 255); otherwise the bitmap
/// with the bits before the first misfit set, and an invalid-parameter
/// error.
pub open spec fn set_bits_outcome(old: Seq<u8>, bits: Seq<u16>, new: Seq<u8>, r: Result<u8, InputError>) -> bool {
    if bits_fit(bits, old.len() as int) {
        &&& new == apply_bits(old, bits)
        &&& r == Ok::<u8, InputError>(min_len(bitmap_extent(bits), 255) as u8)
    } else {
        &&& r == Err::<u8, InputError>(InputError::InvalidParam)
        &&& exists|k: int|
            0 <= k < bits.len() && bits[k] / 8 >= old.len() && bits_fit(bits.take(k), old.len() as int)
                && new == apply_bits(old, #[trigger] bits.take(k))
    }
}

proof fn lemma_apply_bits_len(bitmap: Seq<u8>, bits: Seq<u16>)
    requires
        bits_fit(bits, bitmap.len() as int),
    ensures
        apply_bits(bitmap, bits).len() == bitmap.len(),
    decreases bits.len(),
{
    if bits.len() > 0 {
        assert(bits_fit(bits.drop_last(), bitmap.len() as int)) by {
            assert forall|i: int| 0 <= i < bits.drop_last().len() implies #[trigger] bits.drop_last()[i] / 8 < bitmap.len() by {
                assert(bits.drop_last()[i] == bits[i]);
            }
        }
        lemma_apply_bits_len(bitmap, bits.drop_last());
    }
}

/// Sets the listed bits in a bitmap and returns the number of bytes the
/// bits reach (capped at 255); fails on the first bit beyond the bitmap,
/// leaving the bits before it set.
pub fn set_bits(buffer: &mut Vec<u8>, bits: &[u16]) -> (r: Result<u8, InputError>)
    ensures
        set_bits_outcome(old(buffer)@, bits@, final(buffer)@, r),
{
    let n = buffer.len();
    let mut extent: usize = 0;
    let mut i: usize = 0;
    while i < bits.len()
        invariant
            n == old(buffer)@.len(),
            buffer@.len() == n,
            i <= bits@.len(),
            bits_fit(bits@.take(i as int), n as int),
            buffer@ == apply_bits(old(buffer)@, bits@.take(i as int)),
            extent == bitmap_extent(bits@.take(i as int)),
            extent <= 8192,
        decreases bits@.len() - i,
    {
        let bit = bits[i];
        let byte: usize = (bit / 8) as usize;
        assert(bits@.take(i + 1).drop_last() =~= bits@.take(i as int));
        assert(bits@.take(i + 1).last() == bit);
        if byte >= n {
            proof {
                assert(!bits_fit(bits@, n as int)) by {
                    assert(bits@[i as int] / 8 >= n);
                }
            }
            return Err(InputError::InvalidParam);
        }
        let sh: u8 = (bit % 8) as u8;
        let mask: u8 = 1u8 << sh;
        let current = buffer[byte];
        buffer.set(byte, current | mask);
        if extent < byte + 1 {
            extent = byte + 1;
        }
        proof {
            assert(bits_fit(bits@.take(i + 1), n as int)) by {
                assert forall|k: int| 0 <= k < bits@.take(i + 1).len() implies #[trigger] bits@.take(i + 1)[k] / 8 < n by {
                    if k < i {
                        assert(bits@.take(i + 1)[k] == bits@.take(i as int)[k]);
                    }
                }
            }
        }
        i = i + 1;
    }
    assert(bits@.take(bits@.len() as int) =~= bits@);
    let capped: u8 = if extent > 255 { 255 } else { extent as u8 };
    Ok(capped)
}

/// Bitmap bytes after setting bits in order keep every bit that was set.
proof fn lemma_or_keeps_bit(x: u8, m: u8, k: u8)
    requires
        x & k == k,
    ensures
        (x | m) & k == k,
{
    assert((x & k == k) ==> ((x | m) & k == k)) by (bit_vector);
}

proof fn lemma_or_sets_bit(x: u8, m: u8)
    ensures
        (x | m) & m == m,
{
    assert((x | m) & m == m) by (bit_vector);
}

/// After setting the listed bits (all inside the bitmap), every listed bit
/// is set.
pub proof fn lemma_set_bits_sets_each(bitmap: Seq<u8>, bits: Seq<u16>)
    requires
        bits_fit(bits, bitmap.len() as int),
    ensures
        forall|i: int|
            0 <= i < bits.len() ==> #[trigger] apply_bits(bitmap, bits)[byte_of(bits[i])] & bit_mask(
                bits[i],
            ) == bit_mask(bits[i]),
    decreases bits.len(),
{
    if bits.len() > 0 {
        let rest = bits.drop_last();
        assert(bits_fit(rest, bitmap.len() as int)) by {
            assert forall|i: int| 0 <= i < rest.len() implies #[trigger] rest[i] / 8 < bitmap.len() by {
                assert(rest[i] == bits[i]);
            }
        }
        lemma_set_bits_sets_each(bitmap, rest);
        lemma_apply_bits_len(bitmap, rest);
        let prev = apply_bits(bitmap, rest);
        let b = bits.last();
        assert forall|i: int| 0 <= i < bits.len() implies #[trigger] apply_bits(bitmap, bits)[byte_of(bits[i])] & bit_mask(bits[i]) == bit_mask(bits[i]) by {
            let now = apply_bits(bitmap, bits);
            if i == bits.len() - 1 {
                lemma_or_sets_bit(prev[byte_of(b)], bit_mask(b));
            } else {
                assert(bits[i] == rest[i]);
                assert(apply_bits(bitmap, rest)[byte_of(rest[i])] & bit_mask(rest[i]) == bit_mask(
                    rest[i],
                ));
                if byte_of(bits[i]) == byte_of(b) {
                    lemma_or_keeps_bit(prev[byte_of(b)], bit_mask(b), bit_mask(bits[i]));
                } else {
                    assert(now[byte_of(bits[i])] == prev[byte_of(bits[i])]);
                }
            }
        }
    }
}

/// Device name of the virtual keyboard.
pub open spec fn keyboard_name() -> Seq<u8> {
    "SmolVM LocalShm Keyboard".spec_bytes()
}

/// Serial of the virtual keyboard.
pub open spec fn keyboard_serial() -> Seq<u8> {
    "SMOLVM-LSHM-KBD".spec_bytes()
}

/// Device name of the virtual pointer.
pub open spec fn pointer_name() -> Seq<u8> {
    "SmolVM LocalShm Pointer".spec_bytes()
}

/// Serial of the virtual pointer.
pub open spec fn pointer_serial() -> Seq<u8> {
    "SMOLVM-LSHM-PTR".spec_bytes()
}

/// The outcome of copying `name` into a name buffer.
pub open spec fn copy_name_outcome(old: Seq<u8>, name: Seq<u8>, new: Seq<u8>, r: Result<u8, InputError>) -> bool {
    let n = min_len(min_len(old.len() as int, name.len() as int), 255);
    &&& r == Ok::<u8, InputError>(n as u8)
    &&& new == name.subrange(0, n) + old.subrange(n, old.len() as int)
}

/// The bits the keyboard reports for an event type: the report code for
/// synchronisation events, key codes 1 to 248 for key events.
pub open spec fn keyboard_capability_bits(event_type: u8) -> Option<Seq<u16>> {
    if event_type == 0 {
        Some(seq![SYN_REPORT])
    } else if event_type == 1 {
        Some(Seq::new(248, |i: int| (i + 1) as u16))
    } else {
        None
    }
}

/// The bits the pointer reports for an event type: the report code, its
/// three buttons, its relative axes and wheel, its absolute axes.
pub open spec fn pointer_capability_bits(event_type: u8) -> Option<Seq<u16>> {
    if event_type == 0 {
        Some(seq![SYN_REPORT])
    } else if event_type == 1 {
        Some(seq![BTN_LEFT, BTN_RIGHT, BTN_MIDDLE])
    } else if event_type == 2 {
        Some(seq![REL_X, REL_Y, REL_WHEEL])
    } else if event_type == 3 {
        Some(seq![ABS_X, ABS_Y])
    } else {
        None
    }
}

/// The outcome of a capability query that reports `bits` (or nothing).
pub open spec fn capability_outcome(old: Seq<u8>, bits: Option<Seq<u16>>, new: Seq<u8>, r: Result<u8, InputError>) -> bool {
    match bits {
        Some(b) => set_bits_outcome(old, b, new, r),
        None => new == old && r == Ok::<u8, InputError>(0),
    }
}

fn bits_from(codes: &[u16]) -> (v: Vec<u16>)
    ensures
        v@ == codes@,
{
    let mut v: Vec<u16> = Vec::new();
    let mut i: usize = 0;
    while i < codes.len()
        invariant
            i <= codes@.len(),
            v@ == codes@.take(i as int),
        decreases codes@.len() - i,
    {
        v.push(codes[i]);
        assert(codes@.take(i + 1) =~= codes@.take(i as int).push(codes@[i as int]));
        i = i + 1;
    }
    assert(codes@.take(codes@.len() as int) =~= codes@);
    v
}

fn one_bit(a: u16) -> (v: Vec<u16>)
    ensures
        v@ == seq![a],
{
    let mut v: Vec<u16> = Vec::new();
    v.push(a);
    assert(v@ =~= seq![a]);
    v
}

fn two_bits(a: u16, b: u16) -> (v: Vec<u16>)
    ensures
        v@ == seq![a, b],
{
    let mut v: Vec<u16> = Vec::new();
    v.push(a);
    v.push(b);
    assert(v@ =~= seq![a, b]);
    v
}

fn three_bits(a: u16, b: u16, c: u16) -> (v: Vec<u16>)
    ensures
        v@ == seq![a, b, c],
{
    let mut v: Vec<u16> = Vec::new();
    v.push(a);
    v.push(b);
    v.push(c);
    assert(v@ =~= seq![a, b, c]);
    v
}

fn key_code_bits() -> (v: Vec<u16>)
    ensures
        v@ == Seq::new(248, |i: int| (i + 1) as u16),
{
    let mut v: Vec<u16> = Vec::new();
    let mut code: u16 = 1;
    while code <= 248
        invariant
            1 <= code <= 249,
            v@ =~= Seq::new((code - 1) as nat, |i: int| (i + 1) as u16),
        decreases 249 - code,
    {
        v.push(code);
        code = code + 1;
    }
    v
}

/// The local-shm virtual keyboard.
#[derive(Clone, Copy, Debug)]
pub struct KeyboardConfig;

impl KeyboardConfig {
    /// Writes the device name into `buffer`.
    pub fn query_device_name(&self, buffer: &mut Vec<u8>) -> (r: Result<u8, InputError>)
        ensures
            copy_name_outcome(old(buffer)@, keyboard_name(), final(buffer)@, r),
    {
        copy_name(buffer, "SmolVM LocalShm Keyboard".as_bytes())
    }

    /// Writes the device serial into `buffer`.
    pub fn query_serial_name(&self, buffer: &mut Vec<u8>) -> (r: Result<u8, InputError>)
        ensures
            copy_name_outcome(old(buffer)@, keyboard_serial(), final(buffer)@, r),
    {
        copy_name(buffer, "SMOLVM-LSHM-KBD".as_bytes())
    }

    /// Reports the device ids.
    pub fn query_device_ids(&self, ids: &mut DeviceIds) -> (r: Result<(), InputError>)
        ensures
            r is Ok,
            *final(ids) == (DeviceIds { bustype: BUS_VIRTUAL, vendor: DEVICE_VENDOR, product: 2, version: 1 }),
    {
        *ids = DeviceIds { bustype: BUS_VIRTUAL, vendor: DEVICE_VENDOR, product: 2, version: 1 };
        Ok(())
    }

    /// Writes the capability bitmap for an event type into `buffer`.
    pub fn query_event_capabilities(&self, event_type: u8, buffer: &mut Vec<u8>) -> (r: Result<u8, InputError>)
        ensures
            capability_outcome(old(buffer)@, keyboard_capability_bits(event_type), final(buffer)@, r),
    {
        if event_type == 0 {
            let bits = one_bit(SYN_REPORT);
            set_bits(buffer, bits.as_slice())
        } else if event_type == 1 {
            let keys = key_code_bits();
            set_bits(buffer, keys.as_slice())
        } else {
            Ok(0)
        }
    }

    /// The keyboard has no absolute axes: `info` is left as it is.
    pub fn query_abs_info(&self, axis: u8, info: &mut AbsInfo) -> (r: Result<(), InputError>)
        ensures
            r is Ok,
            *final(info) == *old(info),
    {
        Ok(())
    }

    /// The keyboard has no device properties.
    pub fn query_properties(&self, buffer: &mut Vec<u8>) -> (r: Result<u8, InputError>)
        ensures
            r == Ok::<u8, InputError>(0),
            final(buffer)@ == old(buffer)@,
    {
        Ok(0)
    }
}

/// Absolute range of the virtual pointer.
#[derive(Clone, Copy, Debug, PartialEq, Eq, Structural)]
pub struct PointerOptions {
    /// Display width in pixels.
    pub width: u32,
    /// Display height in pixels.
    pub height: u32,
}

/// The local-shm virtual absolute pointer.
#[derive(Clone, Copy, Debug)]
pub struct PointerConfig(pub PointerOptions);

/// The largest coordinate on an axis of `size` pixels.
pub open spec fn last_coordinate(size: u32) -> u32 {
    if size == 0 {
        0
    } else {
        (size - 1) as u32
    }
}

impl PointerConfig {
    /// Writes the device name into `buffer`.
    pub fn query_device_name(&self, buffer: &mut Vec<u8>) -> (r: Result<u8, InputError>)
        ensures
            copy_name_outcome(old(buffer)@, pointer_name(), final(buffer)@, r),
    {
        copy_name(buffer, "SmolVM LocalShm Pointer".as_bytes())
    }

    /// Writes the device serial into `buffer`.
    pub fn query_serial_name(&self, buffer: &mut Vec<u8>) -> (r: Result<u8, InputError>)
        ensures
            copy_name_outcome(old(buffer)@, pointer_serial(), final(buffer)@, r),
    {
        copy_name(buffer, "SMOLVM-LSHM-PTR".as_bytes())
    }

    /// Reports the device ids.
    pub fn query_device_ids(&self, ids: &mut DeviceIds) -> (r: Result<(), InputError>)
        ensures
            r is Ok,
            *final(ids) == (DeviceIds { bustype: BUS_VIRTUAL, vendor: DEVICE_VENDOR, product: 3, version: 1 }),
    {
        *ids = DeviceIds { bustype: BUS_VIRTUAL, vendor: DEVICE_VENDOR, product: 3, version: 1 };
        Ok(())
    }

    /// Writes the capability bitmap for an event type into `buffer`.
    pub fn query_event_capabilities(&self, event_type: u8, buffer: &mut Vec<u8>) -> (r: Result<u8, InputError>)
        ensures
            capability_outcome(old(buffer)@, pointer_capability_bits(event_type), final(buffer)@, r),
    {
        if event_type == 0 {
            let bits = one_bit(SYN_REPORT);
            set_bits(buffer, bits.as_slice())
        } else if event_type == 1 {
            let bits = three_bits(BTN_LEFT, BTN_RIGHT, BTN_MIDDLE);
            set_bits(buffer, bits.as_slice())
        } else if event_type == 2 {
            let bits = three_bits(REL_X, REL_Y, REL_WHEEL);
            set_bits(buffer, bits.as_slice())
        } else if event_type == 3 {
            let bits = two_bits(ABS_X, ABS_Y);
            set_bits(buffer, bits.as_slice())
        } else {
            Ok(0)
        }
    }

    /// Reports the range of an absolute axis: 0 up to the last pixel of the
    /// display on x and y, a zero range on other axes.
    pub fn query_abs_info(&self, axis: u8, info: &mut AbsInfo) -> (r: Result<(), InputError>)
        ensures
            r is Ok,
            *final(info) == (AbsInfo {
                min: 0,
                max: if axis as u16 == ABS_X {
                    last_coordinate(self.0.width)
                } else if axis as u16 == ABS_Y {
                    last_coordinate(self.0.height)
                } else {
                    0
                },
                fuzz: 0,
                flat: 0,
                res: 0,
            }),
    {
        let a: u16 = axis as u16;
        let max: u32 = if a == ABS_X {
            self.0.width.saturating_sub(1)
        } else if a == ABS_Y {
            self.0.height.saturating_sub(1)
        } else {
            0
        };
        *info = AbsInfo { min: 0, max, fuzz: 0, flat: 0, res: 0 };
        Ok(())
    }

    /// Reports the pointer device property bit.
    pub fn query_properties(&self, buffer: &mut Vec<u8>) -> (r: Result<u8, InputError>)
        ensures
            set_bits_outcome(old(buffer)@, seq![INPUT_PROP_POINTER], final(buffer)@, r),
    {
        let bits = one_bit(INPUT_PROP_POINTER);
        set_bits(buffer, bits.as_slice())
    }
}

} // verus!
