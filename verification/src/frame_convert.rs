//! Turning a guest scanout frame into a frame-ring write: pixel conversion
//! to RGBA, damage clamping, frame metadata, and the bytes to write where.
use vstd::prelude::*;
use crate::frame_ring::{
    FRAME_PAYLOAD_CAPACITY, FRAME_RING_BYTES, FRAME_SLOT_HEADER_BYTES, FRAME_RING_SLOTS,
    encode_ring_header, encode_slot_header, lemma_slots_partition_ring, ring_header_layout,
    slot_header_layout, slot_offset, slot_offset_of,
};
use crate::shm_protocol::{
    FrameHeader, PixelFormat, PROTOCOL_VERSION, MAX_FRAME_BYTES, header_is_valid, header_problem,
};

verus! {

/// Bytes per pixel of every scanout format.
pub const BYTES_PER_PIXEL: usize = 4;

/// Byte orders a guest scanout may use (four bytes per pixel).
#[derive(Clone, Copy, Debug, PartialEq, Eq, Structural)]
pub enum ScanoutFormat {
    /// B, G, R, A.
    BGRA,
    /// B, G, R, unused.
    BGRX,
    /// A, R, G, B.
    ARGB,
    /// Unused, R, G, B.
    XRGB,
    /// R, G, B, A.
    RGBA,
    /// Unused, B, G, R.
    XBGR,
    /// A, B, G, R.
    ABGR,
    /// R, G, B, unused.
    RGBX,
}

/// A damage rectangle reported with a presented frame.
#[derive(Clone, Copy, Debug, PartialEq, Eq, Structural)]
pub struct DamageRect {
    /// Left edge.
    pub x: u32,
    /// Top edge.
    pub y: u32,
    /// Width.
    pub width: u32,
    /// Height.
    pub height: u32,
}

/// Errors of the display backend callbacks.
#[derive(Clone, Copy, Debug, PartialEq, Eq, Structural)]
pub enum DisplayError {
    /// Backend implementation error.
    InternalError,
    /// Method not supported.
    MethodNotSupported,
    /// Invalid scanout id.
    InvalidScanoutId,
    /// Invalid parameter.
    InvalidParam,
    /// Maximum number of buffers has been allocated.
    OutOfBuffers,
}

/// The frame id the display backend hands out and accepts back: one frame
/// is outstanding per scanout at a time.
pub const PRESENTED_FRAME_ID: u32 = 1;

/// Byte length of a `width` x `height` frame, when it is within the limit.
pub open spec fn frame_len_of(width: u32, height: u32) -> Option<nat> {
    if width * height * 4 <= MAX_FRAME_BYTES {
        Some((width * height * 4) as nat)
    } else {
        None
    }
}

/// Byte length of a `width` x `height` frame, or `None` when it exceeds the
/// frame limit.
pub fn frame_len(width: u32, height: u32) -> (r: Option<usize>)
    ensures
        match r {
            Some(n) => frame_len_of(width, height) == Some(n as nat),
            None => frame_len_of(width, height) is None,
        },
{
    let w: u64 = width as u64;
    let h: u64 = height as u64;
    assert(w * h <= 0xffff_ffffu64 * 0xffff_ffffu64) by (nonlinear_arith)
        requires
            w <= 0xffff_ffffu64,
            h <= 0xffff_ffffu64,
    ;
    let area: u64 = w * h;
    if area > MAX_FRAME_BYTES / 4 {
        None
    } else {
        Some((area * 4) as usize)
    }
}

/// One pixel's bytes reordered to R, G, B, A; formats without alpha get an
/// opaque alpha of 255.
pub open spec fn rgba_of(p: Seq<u8>, format: ScanoutFormat) -> Seq<u8> {
    match format {
        ScanoutFormat::BGRA => seq![p[2], p[1], p[0], p[3]],
        ScanoutFormat::BGRX => seq![p[2], p[1], p[0], 255u8],
        ScanoutFormat::ARGB => seq![p[1], p[2], p[3], p[0]],
        ScanoutFormat::XRGB => seq![p[1], p[2], p[3], 255u8],
        ScanoutFormat::RGBA => seq![p[0], p[1], p[2], p[3]],
        ScanoutFormat::XBGR => seq![p[3], p[2], p[1], 255u8],
        ScanoutFormat::ABGR => seq![p[3], p[2], p[1], p[0]],
        ScanoutFormat::RGBX => seq![p[0], p[1], p[2], 255u8],
    }
}

/// Reorders one pixel to R, G, B, A.
pub fn rgba_pixel(pixel: [u8; 4], format: ScanoutFormat) -> (out: [u8; 4])
    ensures
        out@ == rgba_of(pixel@, format),
{
    let out: [u8; 4] = match format {
        ScanoutFormat::BGRA => [pixel[2], pixel[1], pixel[0], pixel[3]],
        ScanoutFormat::BGRX => [pixel[2], pixel[1], pixel[0], 255],
        ScanoutFormat::ARGB => [pixel[1], pixel[2], pixel[3], pixel[0]],
        ScanoutFormat::XRGB => [pixel[1], pixel[2], pixel[3], 255],
        ScanoutFormat::RGBA => pixel,
        ScanoutFormat::XBGR => [pixel[3], pixel[2], pixel[1], 255],
        ScanoutFormat::ABGR => [pixel[3], pixel[2], pixel[1], pixel[0]],
        ScanoutFormat::RGBX => [pixel[0], pixel[1], pixel[2], 255],
    };
    assert(out@ =~= rgba_of(pixel@, format));
    out
}

/// RGBA input is passed through unchanged, and formats without alpha come
/// out opaque.
pub proof fn lemma_rgba_conversion_facts(p: Seq<u8>)
    requires
        p.len() == 4,
    ensures
        rgba_of(p, ScanoutFormat::RGBA) == p,
        rgba_of(p, ScanoutFormat::BGRX)[3] == 255,
        rgba_of(p, ScanoutFormat::XRGB)[3] == 255,
        rgba_of(p, ScanoutFormat::XBGR)[3] == 255,
        rgba_of(p, ScanoutFormat::RGBX)[3] == 255,
        rgba_of(p, ScanoutFormat::BGRA) == seq![p[2], p[1], p[0], p[3]],
{
    assert(rgba_of(p, ScanoutFormat::RGBA) =~= p);
}

/// The four bytes of the pixel that starts at byte `i`.
pub open spec fn pixel_at(s: Seq<u8>, i: int) -> Seq<u8> {
    s.subrange(i, i + 4)
}

/// `out` is `frame` with every four-byte pixel reordered to RGBA.
pub open spec fn is_rgba_image_of(out: Seq<u8>, frame: Seq<u8>, format: ScanoutFormat) -> bool {
    &&& out.len() == frame.len()
    &&& forall|i: int|
        0 <= i && i % 4 == 0 && i + 4 <= frame.len() ==> #[trigger] pixel_at(out, i) == rgba_of(
            pixel_at(frame, i),
            format,
        )
}

/// Converts a whole `width` x `height` frame to RGBA; `None` when the frame
/// does not have exactly the expected length (or that length exceeds the
/// frame limit).
pub fn rgba_frame(frame: &[u8], width: u32, height: u32, format: ScanoutFormat) -> (r: Option<Vec<u8>>)
    ensures
        r is Some <==> frame_len_of(width, height) == Some(frame@.len()),
        r matches Some(out) ==> is_rgba_image_of(out@, frame@, format),
{
    let expected = match frame_len(width, height) {
        Some(n) => n,
        None => {
            return None;
        },
    };
    if frame.len() != expected {
        return None;
    }
    let n = frame.len();
    assert(n % 4 == 0) by (nonlinear_arith)
        requires
            n == width * height * 4,
    ;
    let mut out: Vec<u8> = Vec::new();
    let mut i: usize = 0;
    while i < n
        invariant
            n == frame@.len(),
            n % 4 == 0,
            i % 4 == 0,
            i <= n,
            out@.len() == i,
            forall|k: int|
                0 <= k && k % 4 == 0 && k + 4 <= i ==> #[trigger] pixel_at(out@, k) == rgba_of(
                    pixel_at(frame@, k),
                    format,
                ),
        decreases n - i,
    {
        let pixel: [u8; 4] = [frame[i], frame[i + 1], frame[i + 2], frame[i + 3]];
        assert(pixel@ =~= pixel_at(frame@, i as int));
        let px = rgba_pixel(pixel, format);
        let ghost before = out@;
        out.push(px[0]);
        out.push(px[1]);
        out.push(px[2]);
        out.push(px[3]);
        assert forall|k: int|
            0 <= k && k % 4 == 0 && k + 4 <= i + 4 implies #[trigger] pixel_at(out@, k) == rgba_of(
            pixel_at(frame@, k),
            format,
        ) by {
            if k + 4 <= i {
                assert(pixel_at(out@, k) =~= pixel_at(before, k));
            } else {
                assert(k == i);
                assert(pixel_at(out@, k) =~= px@);
            }
        }
        i = i + 4;
    }
    Some(out)
}

/// The damage rectangle recorded for a frame: the reported one when it is
/// nonempty and inside the frame, otherwise the whole frame.
pub open spec fn damage_of(width: u32, height: u32, damage: Option<DamageRect>) -> (u32, u32, u32, u32) {
    match damage {
        Some(rect) => if rect.width > 0 && rect.height > 0 && rect.x + rect.width <= width && rect.y
            + rect.height <= height {
            (rect.x, rect.y, rect.width, rect.height)
        } else {
            (0, 0, width, height)
        },
        None => (0, 0, width, height),
    }
}

/// Clamps a reported damage rectangle to the frame (see `damage_of`).
pub fn damage_rect(width: u32, height: u32, damage: Option<DamageRect>) -> (r: (u32, u32, u32, u32))
    ensures
        r == damage_of(width, height, damage),
{
    match damage {
        Some(rect) => {
            let right_ok = match rect.x.checked_add(rect.width) {
                Some(right) => right <= width,
                None => false,
            };
            let bottom_ok = match rect.y.checked_add(rect.height) {
                Some(bottom) => bottom <= height,
                None => false,
            };
            if rect.width > 0 && rect.height > 0 && right_ok && bottom_ok {
                (rect.x, rect.y, rect.width, rect.height)
            } else {
                (0, 0, width, height)
            }
        },
        None => (0, 0, width, height),
    }
}

/// A nonempty frame always gets a nonempty damage rectangle inside it.
pub proof fn lemma_damage_inside_frame(width: u32, height: u32, damage: Option<DamageRect>)
    requires
        width > 0,
        height > 0,
    ensures
        ({
            let (x, y, w, h) = damage_of(width, height, damage);
            &&& w > 0 && h > 0
            &&& x + w <= width
            &&& y + h <= height
        }),
{
}

/// Everything to write into the ring file for one frame: the slot header
/// and RGBA payload at the slot's offset, then the ring header at offset 0.
#[derive(Debug)]
pub struct FrameWrite {
    /// Slot that receives the frame.
    pub slot_index: u32,
    /// Byte offset of that slot in the ring file.
    pub slot_offset: u64,
    /// Metadata describing the frame.
    pub header: FrameHeader,
    /// Encoded slot header, written at `slot_offset`.
    pub slot_header: Vec<u8>,
    /// RGBA payload, written right after the slot header.
    pub payload: Vec<u8>,
    /// Encoded ring header, written at offset 0 after the slot.
    pub ring_header: Vec<u8>,
}

/// The slot a frame id goes to: frames 1, 2, 3, 4, ... use slots 0, 1, 2,
/// 0, ...; frame id 0 uses slot 0.
pub open spec fn slot_for_frame(frame_id: u64) -> u32 {
    (if frame_id == 0 {
        0
    } else {
        (frame_id - 1) % (FRAME_RING_SLOTS as int)
    }) as u32
}

/// The metadata recorded for a frame: RGBA with a tightly packed stride.
pub open spec fn frame_header_of(
    frame_id: u64,
    monotonic_ns: u64,
    width: u32,
    height: u32,
    damage: Option<DamageRect>,
) -> FrameHeader {
    let (x, y, w, h) = damage_of(width, height, damage);
    FrameHeader {
        version: PROTOCOL_VERSION,
        frame_id,
        width,
        height,
        stride: (width * 4) as u32,
        format: PixelFormat::Rgba8888,
        damage_x: x,
        damage_y: y,
        damage_width: w,
        damage_height: h,
        monotonic_ns,
    }
}

/// Why a frame cannot be written, if it cannot: the first failing check's
/// message.
pub open spec fn frame_write_problem(
    frame_id: u64,
    monotonic_ns: u64,
    frame: Seq<u8>,
    width: u32,
    height: u32,
    damage: Option<DamageRect>,
) -> Option<Seq<char>> {
    if frame_len_of(width, height) != Some(frame.len()) {
        Some("local-shm frame conversion failed"@)
    } else if width * 4 > u32::MAX {
        Some("local-shm stride overflow"@)
    } else if header_problem(frame_header_of(frame_id, monotonic_ns, width, height, damage)) is Some {
        header_problem(frame_header_of(frame_id, monotonic_ns, width, height, damage))
    } else if frame.len() > FRAME_PAYLOAD_CAPACITY {
        Some("local-shm frame exceeds slot payload capacity"@)
    } else {
        None
    }
}

/// Plans the ring-file writes that publish one frame.
pub fn plan_frame_write(
    frame_id: u64,
    monotonic_ns: u64,
    frame: &[u8],
    width: u32,
    height: u32,
    format: ScanoutFormat,
    damage: Option<DamageRect>,
) -> (r: Result<FrameWrite, String>)
    ensures
        r is Ok <==> frame_write_problem(frame_id, monotonic_ns, frame@, width, height, damage)
            is None,
        r matches Err(msg) ==> frame_write_problem(
            frame_id,
            monotonic_ns,
            frame@,
            width,
            height,
            damage,
        ) == Some(msg@),
        r matches Ok(w) ==> {
            &&& w.slot_index == slot_for_frame(frame_id)
            &&& w.slot_offset == slot_offset_of(w.slot_index as int)
            &&& w.header == frame_header_of(frame_id, monotonic_ns, width, height, damage)
            &&& header_is_valid(w.header)
            &&& w.payload@.len() == w.header.stride * w.header.height
            &&& is_rgba_image_of(w.payload@, frame@, format)
            &&& w.slot_header@ == slot_header_layout(w.slot_index, w.header, w.payload@.len() as u64)
            &&& w.ring_header@ == ring_header_layout(frame_id, w.slot_index, width, height)
            &&& w.slot_offset + FRAME_SLOT_HEADER_BYTES + w.payload@.len() <= FRAME_RING_BYTES
        },
{
    let rgba = match rgba_frame(frame, width, height, format) {
        Some(rgba) => rgba,
        None => {
            return Err(String::from_str("local-shm frame conversion failed"));
        },
    };
    let (damage_x, damage_y, damage_width, damage_height) = damage_rect(width, height, damage);
    let stride = match width.checked_mul(4) {
        Some(stride) => stride,
        None => {
            return Err(String::from_str("local-shm stride overflow"));
        },
    };
    let header = FrameHeader {
        version: PROTOCOL_VERSION,
        frame_id,
        width,
        height,
        stride,
        format: PixelFormat::Rgba8888,
        damage_x,
        damage_y,
        damage_width,
        damage_height,
        monotonic_ns,
    };
    match header.validate() {
        Ok(_) => {},
        Err(msg) => {
            return Err(msg);
        },
    }
    let payload_len: u64 = rgba.len() as u64;
    if payload_len > FRAME_PAYLOAD_CAPACITY {
        return Err(String::from_str("local-shm frame exceeds slot payload capacity"));
    }
    let slot_index: u32 = (frame_id.saturating_sub(1) % (FRAME_RING_SLOTS as u64)) as u32;
    let offset = slot_offset(slot_index);
    proof {
        if slot_index == 0 {
            lemma_slots_partition_ring(0, 1);
        } else {
            lemma_slots_partition_ring(0, slot_index as int);
        }
        assert(rgba@.len() == (width as int) * (height as int) * 4);
        assert((width as int) * (height as int) * 4 == (stride as int) * (height as int))
            by (nonlinear_arith)
            requires
                stride == width * 4,
        ;
    }
    let slot_header = encode_slot_header(slot_index, &header, payload_len);
    let ring_header = encode_ring_header(frame_id, slot_index, width, height);
    Ok(FrameWrite { slot_index, slot_offset: offset, header, slot_header, payload: rgba, ring_header })
}

/// Consecutive frames go to consecutive slots, wrapping around the ring.
pub proof fn lemma_slots_round_robin(frame_id: u64)
    requires
        1 <= frame_id < u64::MAX,
    ensures
        slot_for_frame(frame_id) < FRAME_RING_SLOTS,
        slot_for_frame((frame_id + 1) as u64) == (slot_for_frame(frame_id) + 1) % (
        FRAME_RING_SLOTS as int),
{
}

/// Checks the parameters of a scanout configuration and returns the
/// scanout's index.
pub fn check_scanout_config(
    scanout_id: u32,
    scanout_count: usize,
    width: u32,
    height: u32,
    max_width: u32,
    max_height: u32,
) -> (r: Result<usize, DisplayError>)
    ensures
        r is Ok <==> (scanout_id < scanout_count && 0 < width <= max_width && 0 < height
            <= max_height && frame_len_of(width, height) is Some),
        r matches Ok(index) ==> index == scanout_id,
        r matches Err(e) ==> e == DisplayError::InvalidParam,
{
    let index = scanout_id as usize;
    if index >= scanout_count || width == 0 || height == 0 || width > max_width || height
        > max_height {
        return Err(DisplayError::InvalidParam);
    }
    match frame_len(width, height) {
        Some(_) => Ok(index),
        None => Err(DisplayError::InvalidParam),
    }
}

/// The index of an existing scanout.
pub fn scanout_index(scanout_id: u32, scanout_count: usize) -> (r: Result<usize, DisplayError>)
    ensures
        r is Ok <==> scanout_id < scanout_count,
        r matches Ok(index) ==> index == scanout_id,
        r matches Err(e) ==> e == DisplayError::InvalidScanoutId,
{
    let index = scanout_id as usize;
    if index >= scanout_count {
        Err(DisplayError::InvalidScanoutId)
    } else {
        Ok(index)
    }
}

} // verus!
