//! Byte layout of the mmap-friendly frame ring file: a fixed ring header
//! followed by a fixed number of slots, each a slot header and a payload.
//! All integers are little-endian.
use vstd::prelude::*;
use vstd::bytes::{
    spec_u32_from_le_bytes, spec_u32_to_le_bytes, spec_u64_from_le_bytes, spec_u64_to_le_bytes,
    u32_to_le_bytes, u64_to_le_bytes,
};
use crate::shm_protocol::{FrameHeader, PROTOCOL_VERSION, pixel_format_code};

verus! {

/// Fixed frame-ring file header size.
pub const FRAME_RING_HEADER_BYTES: u64 = 256;
/// Fixed per-slot frame metadata size.
pub const FRAME_SLOT_HEADER_BYTES: u64 = 128;
/// Number of frame slots in the ring.
pub const FRAME_RING_SLOTS: u32 = 3;
/// Maximum payload bytes per ring slot: one RGBA frame of the default
/// 1440 x 900 scanout.
pub const FRAME_PAYLOAD_CAPACITY: u64 = 1_440u64 * 900u64 * 4u64;
/// Full byte stride of each ring slot.
pub const FRAME_SLOT_STRIDE: u64 = FRAME_SLOT_HEADER_BYTES + FRAME_PAYLOAD_CAPACITY;
/// Total byte size of the frame-ring file.
pub const FRAME_RING_BYTES: u64 = FRAME_RING_HEADER_BYTES + FRAME_SLOT_STRIDE * 3u64;

/// `n` zero bytes.
pub open spec fn zeros(n: nat) -> Seq<u8> {
    Seq::new(n, |i: int| 0u8)
}

/// `s` with the bytes starting at `offset` replaced by `b`.
pub open spec fn splice(s: Seq<u8>, offset: int, b: Seq<u8>) -> Seq<u8> {
    s.subrange(0, offset) + b + s.subrange(offset + b.len(), s.len() as int)
}

/// Magic at the start of the ring file: `LSHMRG1\0`.
pub open spec fn ring_magic() -> Seq<u8> {
    seq![0x4Cu8, 0x53u8, 0x48u8, 0x4Du8, 0x52u8, 0x47u8, 0x31u8, 0x00u8]
}

/// Magic at the start of every slot header: `LSHMSL1\0`.
pub open spec fn slot_magic() -> Seq<u8> {
    seq![0x4Cu8, 0x53u8, 0x48u8, 0x4Du8, 0x53u8, 0x4Cu8, 0x31u8, 0x00u8]
}

/// The ring header: magic, version, slot count, header size, slot header
/// size, slot stride, payload capacity, latest frame id, latest slot,
/// width, height, then zero padding to the header size.
pub open spec fn ring_header_layout(latest_frame_id: u64, latest_slot: u32, width: u32, height: u32) -> Seq<u8> {
    ring_magic() + spec_u32_to_le_bytes(PROTOCOL_VERSION) + spec_u32_to_le_bytes(FRAME_RING_SLOTS)
        + spec_u64_to_le_bytes(FRAME_RING_HEADER_BYTES) + spec_u64_to_le_bytes(
        FRAME_SLOT_HEADER_BYTES,
    ) + spec_u64_to_le_bytes(FRAME_SLOT_STRIDE) + spec_u64_to_le_bytes(FRAME_PAYLOAD_CAPACITY)
        + spec_u64_to_le_bytes(latest_frame_id) + spec_u32_to_le_bytes(latest_slot)
        + spec_u32_to_le_bytes(width) + spec_u32_to_le_bytes(height) + zeros(188)
}

/// The slot header: magic, version, slot index, frame id, timestamp, width,
/// height, stride, format code, damage x, y, width, height, payload length,
/// then zero padding to the slot header size.
pub open spec fn slot_header_layout(slot_index: u32, h: FrameHeader, payload_len: u64) -> Seq<u8> {
    slot_magic() + spec_u32_to_le_bytes(PROTOCOL_VERSION) + spec_u32_to_le_bytes(slot_index)
        + spec_u64_to_le_bytes(h.frame_id) + spec_u64_to_le_bytes(h.monotonic_ns)
        + spec_u32_to_le_bytes(h.width) + spec_u32_to_le_bytes(h.height) + spec_u32_to_le_bytes(
        h.stride,
    ) + spec_u32_to_le_bytes(pixel_format_code(h.format)) + spec_u32_to_le_bytes(h.damage_x)
        + spec_u32_to_le_bytes(h.damage_y) + spec_u32_to_le_bytes(h.damage_width)
        + spec_u32_to_le_bytes(h.damage_height) + spec_u64_to_le_bytes(payload_len) + zeros(56)
}

/// Byte offset of a slot in the ring file.
pub open spec fn slot_offset_of(slot_index: int) -> int {
    FRAME_RING_HEADER_BYTES + slot_index * FRAME_SLOT_STRIDE
}

/// Byte offset of a slot in the ring file.
pub fn slot_offset(slot_index: u32) -> (offset: u64)
    ensures
        offset == slot_offset_of(slot_index as int),
{
    assert(slot_index as u64 * FRAME_SLOT_STRIDE <= 0xffff_ffffu64 * 5_184_128u64)
        by (nonlinear_arith)
        requires
            slot_index <= 0xffff_ffffu32,
            FRAME_SLOT_STRIDE == 5_184_128u64,
    ;
    FRAME_RING_HEADER_BYTES + (slot_index as u64) * FRAME_SLOT_STRIDE
}

/// Writes `value` little-endian at `offset`.
pub fn put_u32(bytes: &mut Vec<u8>, offset: usize, value: u32)
    requires
        offset + 4 <= old(bytes)@.len(),
    ensures
        final(bytes)@ == splice(old(bytes)@, offset as int, spec_u32_to_le_bytes(value)),
{
    let le = u32_to_le_bytes(value);
    let n = bytes.len();
    let mut k: usize = 0;
    while k < 4
        invariant
            n == bytes@.len(),
            offset + 4 <= bytes@.len(),
            bytes@.len() == old(bytes)@.len(),
            le@ == spec_u32_to_le_bytes(value),
            le@.len() == 4,
            k <= 4,
            forall|i: int|
                0 <= i < bytes@.len() ==> #[trigger] bytes@[i] == (if offset <= i < offset + k {
                    le@[i - offset]
                } else {
                    old(bytes)@[i]
                }),
        decreases 4 - k,
    {
        bytes.set(offset + k, le[k]);
        k = k + 1;
    }
    assert(bytes@ =~= splice(old(bytes)@, offset as int, le@));
}

/// Writes `value` little-endian at `offset`.
pub fn put_u64(bytes: &mut Vec<u8>, offset: usize, value: u64)
    requires
        offset + 8 <= old(bytes)@.len(),
    ensures
        final(bytes)@ == splice(old(bytes)@, offset as int, spec_u64_to_le_bytes(value)),
{
    let le = u64_to_le_bytes(value);
    let n = bytes.len();
    let mut k: usize = 0;
    while k < 8
        invariant
            n == bytes@.len(),
            offset + 8 <= bytes@.len(),
            bytes@.len() == old(bytes)@.len(),
            le@ == spec_u64_to_le_bytes(value),
            le@.len() == 8,
            k <= 8,
            forall|i: int|
                0 <= i < bytes@.len() ==> #[trigger] bytes@[i] == (if offset <= i < offset + k {
                    le@[i - offset]
                } else {
                    old(bytes)@[i]
                }),
        decreases 8 - k,
    {
        bytes.set(offset + k, le[k]);
        k = k + 1;
    }
    assert(bytes@ =~= splice(old(bytes)@, offset as int, le@));
}

/// Writing `b` right after `p` into `p` followed by zeros extends `p` by `b`.
proof fn lemma_splice_after_prefix(p: Seq<u8>, b: Seq<u8>, n: nat)
    requires
        b.len() <= n,
    ensures
        splice(p + zeros(n), p.len() as int, b) =~= (p + b) + zeros((n - b.len()) as nat),
{
}

fn zero_bytes(n: usize) -> (v: Vec<u8>)
    ensures
        v@ == zeros(n as nat),
{
    let mut v: Vec<u8> = Vec::new();
    let mut i: usize = 0;
    while i < n
        invariant
            i <= n,
            v@ =~= zeros(i as nat),
        decreases n - i,
    {
        v.push(0u8);
        i = i + 1;
    }
    v
}

/// Writes the eight magic bytes at the start of a zeroed buffer.
fn put_magic(bytes: &mut Vec<u8>, magic: [u8; 8])
    requires
        old(bytes)@.len() >= 8,
        old(bytes)@ == zeros(old(bytes)@.len()),
    ensures
        final(bytes)@ == magic@ + zeros((old(bytes)@.len() - 8) as nat),
{
    let mut k: usize = 0;
    while k < 8
        invariant
            bytes@.len() == old(bytes)@.len(),
            old(bytes)@.len() >= 8,
            k <= 8,
            forall|i: int|
                0 <= i < bytes@.len() ==> #[trigger] bytes@[i] == (if i < k {
                    magic@[i]
                } else {
                    0u8
                }),
        decreases 8 - k,
    {
        bytes.set(k, magic[k]);
        k = k + 1;
    }
    assert(bytes@ =~= magic@ + zeros((old(bytes)@.len() - 8) as nat));
}

/// Encodes the ring header.
pub fn encode_ring_header(latest_frame_id: u64, latest_slot: u32, width: u32, height: u32) -> (bytes: Vec<u8>)
    ensures
        bytes@ == ring_header_layout(latest_frame_id, latest_slot, width, height),
        bytes@.len() == FRAME_RING_HEADER_BYTES,
{
    proof {
        vstd::bytes::lemma_auto_spec_u32_to_from_le_bytes();
        vstd::bytes::lemma_auto_spec_u64_to_from_le_bytes();
    }
    let mut bytes = zero_bytes(FRAME_RING_HEADER_BYTES as usize);
    let magic: [u8; 8] = [0x4Cu8, 0x53u8, 0x48u8, 0x4Du8, 0x52u8, 0x47u8, 0x31u8, 0x00u8];
    put_magic(&mut bytes, magic);
    let ghost p0 = magic@;
    assert(p0 =~= ring_magic());
    put_u32(&mut bytes, 8, PROTOCOL_VERSION);
    proof { lemma_splice_after_prefix(p0, spec_u32_to_le_bytes(PROTOCOL_VERSION), 248); }
    let ghost p1 = p0 + spec_u32_to_le_bytes(PROTOCOL_VERSION);
    put_u32(&mut bytes, 12, FRAME_RING_SLOTS);
    proof { lemma_splice_after_prefix(p1, spec_u32_to_le_bytes(FRAME_RING_SLOTS), 244); }
    let ghost p2 = p1 + spec_u32_to_le_bytes(FRAME_RING_SLOTS);
    put_u64(&mut bytes, 16, FRAME_RING_HEADER_BYTES);
    proof { lemma_splice_after_prefix(p2, spec_u64_to_le_bytes(FRAME_RING_HEADER_BYTES), 240); }
    let ghost p3 = p2 + spec_u64_to_le_bytes(FRAME_RING_HEADER_BYTES);
    put_u64(&mut bytes, 24, FRAME_SLOT_HEADER_BYTES);
    proof { lemma_splice_after_prefix(p3, spec_u64_to_le_bytes(FRAME_SLOT_HEADER_BYTES), 232); }
    let ghost p4 = p3 + spec_u64_to_le_bytes(FRAME_SLOT_HEADER_BYTES);
    put_u64(&mut bytes, 32, FRAME_SLOT_STRIDE);
    proof { lemma_splice_after_prefix(p4, spec_u64_to_le_bytes(FRAME_SLOT_STRIDE), 224); }
    let ghost p5 = p4 + spec_u64_to_le_bytes(FRAME_SLOT_STRIDE);
    put_u64(&mut bytes, 40, FRAME_PAYLOAD_CAPACITY);
    proof { lemma_splice_after_prefix(p5, spec_u64_to_le_bytes(FRAME_PAYLOAD_CAPACITY), 216); }
    let ghost p6 = p5 + spec_u64_to_le_bytes(FRAME_PAYLOAD_CAPACITY);
    put_u64(&mut bytes, 48, latest_frame_id);
    proof { lemma_splice_after_prefix(p6, spec_u64_to_le_bytes(latest_frame_id), 208); }
    let ghost p7 = p6 + spec_u64_to_le_bytes(latest_frame_id);
    put_u32(&mut bytes, 56, latest_slot);
    proof { lemma_splice_after_prefix(p7, spec_u32_to_le_bytes(latest_slot), 200); }
    let ghost p8 = p7 + spec_u32_to_le_bytes(latest_slot);
    put_u32(&mut bytes, 60, width);
    proof { lemma_splice_after_prefix(p8, spec_u32_to_le_bytes(width), 196); }
    let ghost p9 = p8 + spec_u32_to_le_bytes(width);
    put_u32(&mut bytes, 64, height);
    proof { lemma_splice_after_prefix(p9, spec_u32_to_le_bytes(height), 192); }
    bytes
}

/// Encodes the metadata header of the slot that holds a frame.
pub fn encode_slot_header(slot_index: u32, header: &FrameHeader, payload_len: u64) -> (bytes: Vec<u8>)
    ensures
        bytes@ == slot_header_layout(slot_index, *header, payload_len),
        bytes@.len() == FRAME_SLOT_HEADER_BYTES,
{
    proof {
        vstd::bytes::lemma_auto_spec_u32_to_from_le_bytes();
        vstd::bytes::lemma_auto_spec_u64_to_from_le_bytes();
    }
    let mut bytes = zero_bytes(FRAME_SLOT_HEADER_BYTES as usize);
    let magic: [u8; 8] = [0x4Cu8, 0x53u8, 0x48u8, 0x4Du8, 0x53u8, 0x4Cu8, 0x31u8, 0x00u8];
    put_magic(&mut bytes, magic);
    let ghost p0 = magic@;
    assert(p0 =~= slot_magic());
    put_u32(&mut bytes, 8, PROTOCOL_VERSION);
    proof { lemma_splice_after_prefix(p0, spec_u32_to_le_bytes(PROTOCOL_VERSION), 120); }
    let ghost p1 = p0 + spec_u32_to_le_bytes(PROTOCOL_VERSION);
    put_u32(&mut bytes, 12, slot_index);
    proof { lemma_splice_after_prefix(p1, spec_u32_to_le_bytes(slot_index), 116); }
    let ghost p2 = p1 + spec_u32_to_le_bytes(slot_index);
    put_u64(&mut bytes, 16, header.frame_id);
    proof { lemma_splice_after_prefix(p2, spec_u64_to_le_bytes(header.frame_id), 112); }
    let ghost p3 = p2 + spec_u64_to_le_bytes(header.frame_id);
    put_u64(&mut bytes, 24, header.monotonic_ns);
    proof { lemma_splice_after_prefix(p3, spec_u64_to_le_bytes(header.monotonic_ns), 104); }
    let ghost p4 = p3 + spec_u64_to_le_bytes(header.monotonic_ns);
    put_u32(&mut bytes, 32, header.width);
    proof { lemma_splice_after_prefix(p4, spec_u32_to_le_bytes(header.width), 96); }
    let ghost p5 = p4 + spec_u32_to_le_bytes(header.width);
    put_u32(&mut bytes, 36, header.height);
    proof { lemma_splice_after_prefix(p5, spec_u32_to_le_bytes(header.height), 92); }
    let ghost p6 = p5 + spec_u32_to_le_bytes(header.height);
    put_u32(&mut bytes, 40, header.stride);
    proof { lemma_splice_after_prefix(p6, spec_u32_to_le_bytes(header.stride), 88); }
    let ghost p7 = p6 + spec_u32_to_le_bytes(header.stride);
    put_u32(&mut bytes, 44, header.format.ring_code());
    proof { lemma_splice_after_prefix(p7, spec_u32_to_le_bytes(pixel_format_code(header.format)), 84); }
    let ghost p8 = p7 + spec_u32_to_le_bytes(pixel_format_code(header.format));
    put_u32(&mut bytes, 48, header.damage_x);
    proof { lemma_splice_after_prefix(p8, spec_u32_to_le_bytes(header.damage_x), 80); }
    let ghost p9 = p8 + spec_u32_to_le_bytes(header.damage_x);
    put_u32(&mut bytes, 52, header.damage_y);
    proof { lemma_splice_after_prefix(p9, spec_u32_to_le_bytes(header.damage_y), 76); }
    let ghost p10 = p9 + spec_u32_to_le_bytes(header.damage_y);
    put_u32(&mut bytes, 56, header.damage_width);
    proof { lemma_splice_after_prefix(p10, spec_u32_to_le_bytes(header.damage_width), 72); }
    let ghost p11 = p10 + spec_u32_to_le_bytes(header.damage_width);
    put_u32(&mut bytes, 60, header.damage_height);
    proof { lemma_splice_after_prefix(p11, spec_u32_to_le_bytes(header.damage_height), 68); }
    let ghost p12 = p11 + spec_u32_to_le_bytes(header.damage_height);
    put_u64(&mut bytes, 64, payload_len);
    proof { lemma_splice_after_prefix(p12, spec_u64_to_le_bytes(payload_len), 64); }
    bytes
}

/// Little-endian `u32` read at `offset`.
pub open spec fn read_u32_at(bytes: Seq<u8>, offset: int) -> u32 {
    spec_u32_from_le_bytes(bytes.subrange(offset, offset + 4))
}

/// Little-endian `u64` read at `offset`.
pub open spec fn read_u64_at(bytes: Seq<u8>, offset: int) -> u64 {
    spec_u64_from_le_bytes(bytes.subrange(offset, offset + 8))
}

/// Reading the ring header back at its documented offsets gives the values
/// it was encoded from: magic at 0, version at 8, slot count at 12, header
/// size at 16, slot header size at 24, slot stride at 32, payload capacity
/// at 40, latest frame id at 48, latest slot at 56, width at 60, height at
/// 64; the rest of the header is zero.
pub proof fn lemma_ring_header_fields(latest_frame_id: u64, latest_slot: u32, width: u32, height: u32)
    ensures
        ({
            let b = ring_header_layout(latest_frame_id, latest_slot, width, height);
            &&& b.len() == FRAME_RING_HEADER_BYTES
            &&& b.subrange(0, 8) == ring_magic()
            &&& read_u32_at(b, 8) == PROTOCOL_VERSION
            &&& read_u32_at(b, 12) == FRAME_RING_SLOTS
            &&& read_u64_at(b, 16) == FRAME_RING_HEADER_BYTES
            &&& read_u64_at(b, 24) == FRAME_SLOT_HEADER_BYTES
            &&& read_u64_at(b, 32) == FRAME_SLOT_STRIDE
            &&& read_u64_at(b, 40) == FRAME_PAYLOAD_CAPACITY
            &&& read_u64_at(b, 48) == latest_frame_id
            &&& read_u32_at(b, 56) == latest_slot
            &&& read_u32_at(b, 60) == width
            &&& read_u32_at(b, 64) == height
            &&& b.subrange(68, 256) == zeros(188)
        }),
{
    vstd::bytes::lemma_auto_spec_u32_to_from_le_bytes();
    vstd::bytes::lemma_auto_spec_u64_to_from_le_bytes();
    let b = ring_header_layout(latest_frame_id, latest_slot, width, height);
    assert(b.subrange(0, 8) =~= ring_magic());
    assert(b.subrange(8, 12) =~= spec_u32_to_le_bytes(PROTOCOL_VERSION));
    assert(b.subrange(12, 16) =~= spec_u32_to_le_bytes(FRAME_RING_SLOTS));
    assert(b.subrange(16, 24) =~= spec_u64_to_le_bytes(FRAME_RING_HEADER_BYTES));
    assert(b.subrange(24, 32) =~= spec_u64_to_le_bytes(FRAME_SLOT_HEADER_BYTES));
    assert(b.subrange(32, 40) =~= spec_u64_to_le_bytes(FRAME_SLOT_STRIDE));
    assert(b.subrange(40, 48) =~= spec_u64_to_le_bytes(FRAME_PAYLOAD_CAPACITY));
    assert(b.subrange(48, 56) =~= spec_u64_to_le_bytes(latest_frame_id));
    assert(b.subrange(56, 60) =~= spec_u32_to_le_bytes(latest_slot));
    assert(b.subrange(60, 64) =~= spec_u32_to_le_bytes(width));
    assert(b.subrange(64, 68) =~= spec_u32_to_le_bytes(height));
    assert(b.subrange(68, 256) =~= zeros(188));
}

/// Reading a slot header back at its documented offsets gives the frame
/// metadata it was encoded from: magic at 0, version at 8, slot index at 12,
/// frame id at 16, timestamp at 24, width at 32, height at 36, stride at 40,
/// format code at 44, damage rectangle at 48..64, payload length at 64; the
/// rest of the slot header is zero.
pub proof fn lemma_slot_header_fields(slot_index: u32, h: FrameHeader, payload_len: u64)
    ensures
        ({
            let b = slot_header_layout(slot_index, h, payload_len);
            &&& b.len() == FRAME_SLOT_HEADER_BYTES
            &&& b.subrange(0, 8) == slot_magic()
            &&& read_u32_at(b, 8) == PROTOCOL_VERSION
            &&& read_u32_at(b, 12) == slot_index
            &&& read_u64_at(b, 16) == h.frame_id
            &&& read_u64_at(b, 24) == h.monotonic_ns
            &&& read_u32_at(b, 32) == h.width
            &&& read_u32_at(b, 36) == h.height
            &&& read_u32_at(b, 40) == h.stride
            &&& read_u32_at(b, 44) == pixel_format_code(h.format)
            &&& read_u32_at(b, 48) == h.damage_x
            &&& read_u32_at(b, 52) == h.damage_y
            &&& read_u32_at(b, 56) == h.damage_width
            &&& read_u32_at(b, 60) == h.damage_height
            &&& read_u64_at(b, 64) == payload_len
            &&& b.subrange(72, 128) == zeros(56)
        }),
{
    vstd::bytes::lemma_auto_spec_u32_to_from_le_bytes();
    vstd::bytes::lemma_auto_spec_u64_to_from_le_bytes();
    let b = slot_header_layout(slot_index, h, payload_len);
    assert(b.subrange(0, 8) =~= slot_magic());
    assert(b.subrange(8, 12) =~= spec_u32_to_le_bytes(PROTOCOL_VERSION));
    assert(b.subrange(12, 16) =~= spec_u32_to_le_bytes(slot_index));
    assert(b.subrange(16, 24) =~= spec_u64_to_le_bytes(h.frame_id));
    assert(b.subrange(24, 32) =~= spec_u64_to_le_bytes(h.monotonic_ns));
    assert(b.subrange(32, 36) =~= spec_u32_to_le_bytes(h.width));
    assert(b.subrange(36, 40) =~= spec_u32_to_le_bytes(h.height));
    assert(b.subrange(40, 44) =~= spec_u32_to_le_bytes(h.stride));
    assert(b.subrange(44, 48) =~= spec_u32_to_le_bytes(pixel_format_code(h.format)));
    assert(b.subrange(48, 52) =~= spec_u32_to_le_bytes(h.damage_x));
    assert(b.subrange(52, 56) =~= spec_u32_to_le_bytes(h.damage_y));
    assert(b.subrange(56, 60) =~= spec_u32_to_le_bytes(h.damage_width));
    assert(b.subrange(60, 64) =~= spec_u32_to_le_bytes(h.damage_height));
    assert(b.subrange(64, 72) =~= spec_u64_to_le_bytes(payload_len));
    assert(b.subrange(72, 128) =~= zeros(56));
}

/// The slots lie after the ring header, one after another without
/// overlap, and every slot, header and full payload, lies inside the ring
/// file.
pub proof fn lemma_slots_partition_ring(i: int, j: int)
    requires
        0 <= i < FRAME_RING_SLOTS,
        0 <= j < FRAME_RING_SLOTS,
        i < j,
    ensures
        FRAME_RING_HEADER_BYTES <= slot_offset_of(i),
        slot_offset_of(i) + FRAME_SLOT_STRIDE <= slot_offset_of(j),
        slot_offset_of(j) + FRAME_SLOT_HEADER_BYTES + FRAME_PAYLOAD_CAPACITY <= FRAME_RING_BYTES,
{
    assert(FRAME_SLOT_STRIDE == 5_184_128);
    assert(FRAME_RING_BYTES == 15_552_640);
    if i == 0 {
        assert(slot_offset_of(i) == 256);
    } else {
        assert(i == 1);
        assert(slot_offset_of(i) == 256 + 5_184_128);
    }
    if j == 1 {
        assert(slot_offset_of(j) == 256 + 5_184_128);
    } else {
        assert(j == 2);
        assert(slot_offset_of(j) == 256 + 2 * 5_184_128);
    }
}

} // verus!
