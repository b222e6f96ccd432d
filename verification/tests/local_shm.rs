use smolvm_graphics::frame_convert::{
    check_scanout_config, damage_rect, frame_len, plan_frame_write, rgba_frame, rgba_pixel,
    scanout_index, DamageRect, DisplayError, FrameWrite, ScanoutFormat,
};
use smolvm_graphics::frame_ring::{
    encode_ring_header, encode_slot_header, put_u32, put_u64, slot_offset, FRAME_PAYLOAD_CAPACITY,
    FRAME_RING_BYTES, FRAME_RING_HEADER_BYTES, FRAME_SLOT_HEADER_BYTES, FRAME_SLOT_STRIDE,
};
use smolvm_graphics::shm_protocol::{
    join_path, FrameHeader, LocalShmEndpoint, PixelFormat, MAX_DIMENSION, PROTOCOL_VERSION,
};
use std::path::Path;

const FRAME_RING_MAGIC: &[u8; 8] = b"LSHMRG1\0";
const FRAME_SLOT_MAGIC: &[u8; 8] = b"LSHMSL1\0";
const PIXEL_FORMAT_RGBA8888: u32 = 1;

fn valid_header() -> FrameHeader {
    FrameHeader {
        version: PROTOCOL_VERSION,
        frame_id: 42,
        width: 800,
        height: 600,
        stride: 800 * 4,
        format: PixelFormat::Bgra8888,
        damage_x: 0,
        damage_y: 0,
        damage_width: 800,
        damage_height: 600,
        monotonic_ns: 123,
    }
}

fn read_u32(bytes: &[u8], offset: usize) -> u32 {
    u32::from_le_bytes(bytes[offset..offset + 4].try_into().expect("u32 bytes"))
}

fn read_u64(bytes: &[u8], offset: usize) -> u64 {
    u64::from_le_bytes(bytes[offset..offset + 8].try_into().expect("u64 bytes"))
}

fn apply_write(ring: &mut [u8], write: &FrameWrite) {
    let slot = write.slot_offset as usize;
    ring[slot..slot + write.slot_header.len()].copy_from_slice(&write.slot_header);
    let payload = slot + write.slot_header.len();
    ring[payload..payload + write.payload.len()].copy_from_slice(&write.payload);
    ring[0..write.ring_header.len()].copy_from_slice(&write.ring_header);
}

#[test]
fn endpoint_paths_stay_inside_runtime_dir() {
    let runtime_dir = "/tmp/smolvm-display-runtime";
    let endpoint = LocalShmEndpoint::for_runtime_dir(runtime_dir);
    assert_eq!(endpoint.protocol, "local-shm");
    assert_eq!(endpoint.version, PROTOCOL_VERSION);
    assert_eq!(
        Path::new(&endpoint.control_socket),
        Path::new(runtime_dir).join("local-shm.sock")
    );
    assert_eq!(
        Path::new(&endpoint.frame_ring),
        Path::new(runtime_dir).join("local-shm.frames")
    );
    endpoint
        .validate_for_runtime_dir(runtime_dir)
        .expect("endpoint should validate");

    let mut escaped = endpoint.clone();
    escaped.frame_ring = "/tmp/other.frames".to_string();
    assert!(escaped.validate_for_runtime_dir(runtime_dir).is_err());
}

#[test]
fn endpoint_validation_reports_each_problem() {
    let runtime_dir = "/tmp/smolvm-display-runtime";
    let endpoint = LocalShmEndpoint::for_runtime_dir(runtime_dir);

    let mut wrong_protocol = endpoint.clone();
    wrong_protocol.protocol = "rfb".to_string();
    assert_eq!(
        wrong_protocol.validate_for_runtime_dir(runtime_dir),
        Err("unsupported local-shm protocol 'rfb'".to_string())
    );

    let mut wrong_version = endpoint.clone();
    wrong_version.version = 27;
    assert_eq!(
        wrong_version.validate_for_runtime_dir(runtime_dir),
        Err("unsupported local-shm version 27; expected 1".to_string())
    );

    let mut escaped_control = endpoint.clone();
    escaped_control.control_socket = "/tmp/other.sock".to_string();
    assert_eq!(
        escaped_control.validate_for_runtime_dir(runtime_dir),
        Err("control socket is outside the display runtime directory".to_string())
    );

    let mut escaped_ring = endpoint.clone();
    escaped_ring.frame_ring = "/tmp/other.frames".to_string();
    assert_eq!(
        escaped_ring.validate_for_runtime_dir(runtime_dir),
        Err("frame ring is outside the display runtime directory".to_string())
    );

    assert!(endpoint.validate_for_runtime_dir("/tmp/another-runtime").is_err());
}

#[test]
fn join_path_matches_std_path_join() {
    for (dir, name) in [
        ("/tmp/run", "local-shm.sock"),
        ("/tmp/run/", "local-shm.frames"),
        ("", "local-shm.sock"),
        ("/tmp/run", "/abs/file"),
        ("relative/dir", "x"),
    ] {
        let joined = join_path(dir, name);
        assert_eq!(Path::new(&joined), Path::new(dir).join(name), "{dir} + {name}");
    }
}

#[test]
fn frame_header_validates_dimensions_stride_damage_and_size() {
    assert_eq!(valid_header().validate(), Ok(1_920_000));

    let mut zero = valid_header();
    zero.width = 0;
    assert!(zero.validate().is_err());

    let mut short_stride = valid_header();
    short_stride.stride = short_stride.width * 4 - 1;
    assert!(short_stride.validate().is_err());

    let mut bad_damage = valid_header();
    bad_damage.damage_x = 799;
    bad_damage.damage_width = 2;
    assert!(bad_damage.validate().is_err());

    let mut huge = valid_header();
    huge.width = MAX_DIMENSION;
    huge.height = MAX_DIMENSION;
    huge.stride = MAX_DIMENSION * 4;
    huge.damage_width = MAX_DIMENSION;
    huge.damage_height = MAX_DIMENSION;
    assert!(huge.validate().is_err());
}

#[test]
fn frame_header_error_messages() {
    let mut version = valid_header();
    version.version = 2;
    assert_eq!(
        version.validate(),
        Err("unsupported frame version 2; expected 1".to_string())
    );
    let mut zero = valid_header();
    zero.height = 0;
    assert_eq!(zero.validate(), Err("frame dimensions must be nonzero".to_string()));
    let mut wide = valid_header();
    wide.width = MAX_DIMENSION + 1;
    assert_eq!(wide.validate(), Err("frame dimensions exceed 16384 pixels".to_string()));
    let mut short_stride = valid_header();
    short_stride.stride = 100;
    assert_eq!(
        short_stride.validate(),
        Err("frame stride is smaller than one pixel row".to_string())
    );
    let mut huge = valid_header();
    huge.width = MAX_DIMENSION;
    huge.height = MAX_DIMENSION;
    huge.stride = MAX_DIMENSION * 4;
    assert_eq!(huge.validate(), Err("frame exceeds 536870912 bytes".to_string()));
    let mut overflow = valid_header();
    overflow.damage_x = u32::MAX;
    overflow.damage_width = 2;
    assert_eq!(overflow.validate(), Err("damage rectangle overflow".to_string()));
    let mut empty_damage = valid_header();
    empty_damage.damage_height = 0;
    assert_eq!(
        empty_damage.validate(),
        Err("damage rectangle is outside the frame".to_string())
    );
    let mut padded = valid_header();
    padded.stride = 4096;
    assert_eq!(padded.validate(), Ok(4096 * 600));
}

#[test]
fn pixel_formats() {
    assert_eq!(PixelFormat::Bgra8888.bytes_per_pixel(), 4);
    assert_eq!(PixelFormat::Rgba8888.bytes_per_pixel(), 4);
    assert_eq!(PixelFormat::Rgba8888.ring_code(), 1);
    assert_eq!(PixelFormat::Bgra8888.ring_code(), 2);
}

#[test]
fn frame_ring_file_has_fixed_mmap_friendly_layout() {
    let mut ring = vec![0u8; FRAME_RING_BYTES as usize];
    let initial = encode_ring_header(0, 0, 0, 0);
    ring[0..initial.len()].copy_from_slice(&initial);

    let first = [1, 2, 3, 4, 5, 6, 7, 8];
    let write = plan_frame_write(1, 10, &first, 2, 1, ScanoutFormat::RGBA, None)
        .expect("write first frame");
    apply_write(&mut ring, &write);

    let second = [30, 20, 10, 40, 70, 60, 50, 80];
    let write = plan_frame_write(
        2,
        20,
        &second,
        2,
        1,
        ScanoutFormat::BGRA,
        Some(DamageRect {
            x: 1,
            y: 0,
            width: 1,
            height: 1,
        }),
    )
    .expect("write second frame");
    apply_write(&mut ring, &write);

    let bytes = ring;
    assert_eq!(bytes.len(), FRAME_RING_BYTES as usize);
    assert_eq!(&bytes[0..8], FRAME_RING_MAGIC);
    assert_eq!(read_u64(&bytes, 48), 2);
    assert_eq!(read_u32(&bytes, 56), 1);
    assert_eq!(read_u32(&bytes, 60), 2);
    assert_eq!(read_u32(&bytes, 64), 1);

    let slot = slot_offset(1) as usize;
    assert_eq!(&bytes[slot..slot + 8], FRAME_SLOT_MAGIC);
    assert_eq!(read_u32(&bytes, slot + 12), 1);
    assert_eq!(read_u64(&bytes, slot + 16), 2);
    assert_eq!(read_u64(&bytes, slot + 24), 20);
    assert_eq!(read_u32(&bytes, slot + 32), 2);
    assert_eq!(read_u32(&bytes, slot + 36), 1);
    assert_eq!(read_u32(&bytes, slot + 40), 8);
    assert_eq!(read_u32(&bytes, slot + 44), PIXEL_FORMAT_RGBA8888);
    assert_eq!(read_u32(&bytes, slot + 48), 1);
    assert_eq!(read_u32(&bytes, slot + 56), 1);
    assert_eq!(read_u64(&bytes, slot + 64), 8);
    let payload = slot + FRAME_SLOT_HEADER_BYTES as usize;
    assert_eq!(
        &bytes[payload..payload + 8],
        &[10, 20, 30, 40, 50, 60, 70, 80]
    );
}

#[test]
fn ring_header_fields_decode() {
    let bytes = encode_ring_header(77, 2, 1440, 900);
    assert_eq!(bytes.len(), FRAME_RING_HEADER_BYTES as usize);
    assert_eq!(&bytes[0..8], FRAME_RING_MAGIC);
    assert_eq!(read_u32(&bytes, 8), PROTOCOL_VERSION);
    assert_eq!(read_u32(&bytes, 12), 3);
    assert_eq!(read_u64(&bytes, 16), 256);
    assert_eq!(read_u64(&bytes, 24), 128);
    assert_eq!(read_u64(&bytes, 32), FRAME_SLOT_STRIDE);
    assert_eq!(read_u64(&bytes, 40), FRAME_PAYLOAD_CAPACITY);
    assert_eq!(read_u64(&bytes, 48), 77);
    assert_eq!(read_u32(&bytes, 56), 2);
    assert_eq!(read_u32(&bytes, 60), 1440);
    assert_eq!(read_u32(&bytes, 64), 900);
    assert!(bytes[68..].iter().all(|b| *b == 0));
    assert_eq!(FRAME_PAYLOAD_CAPACITY, 1440 * 900 * 4);
    assert_eq!(FRAME_RING_BYTES, 256 + 3 * (128 + 1440 * 900 * 4));
}

#[test]
fn slot_header_fields_decode() {
    let header = valid_header();
    let bytes = encode_slot_header(2, &header, 1_920_000);
    assert_eq!(bytes.len(), FRAME_SLOT_HEADER_BYTES as usize);
    assert_eq!(&bytes[0..8], FRAME_SLOT_MAGIC);
    assert_eq!(read_u32(&bytes, 8), PROTOCOL_VERSION);
    assert_eq!(read_u32(&bytes, 12), 2);
    assert_eq!(read_u64(&bytes, 16), 42);
    assert_eq!(read_u64(&bytes, 24), 123);
    assert_eq!(read_u32(&bytes, 32), 800);
    assert_eq!(read_u32(&bytes, 36), 600);
    assert_eq!(read_u32(&bytes, 40), 3200);
    assert_eq!(read_u32(&bytes, 44), 2);
    assert_eq!(read_u32(&bytes, 56), 800);
    assert_eq!(read_u32(&bytes, 60), 600);
    assert_eq!(read_u64(&bytes, 64), 1_920_000);
    assert!(bytes[72..].iter().all(|b| *b == 0));
}

#[test]
fn put_integers_little_endian() {
    let mut bytes = vec![0xAAu8; 12];
    put_u32(&mut bytes, 1, 0x0403_0201);
    assert_eq!(bytes, vec![0xAA, 1, 2, 3, 4, 0xAA, 0xAA, 0xAA, 0xAA, 0xAA, 0xAA, 0xAA]);
    put_u64(&mut bytes, 4, 0x0807_0605_0403_0201);
    assert_eq!(bytes, vec![0xAA, 1, 2, 3, 1, 2, 3, 4, 5, 6, 7, 8]);
}

#[test]
fn slots_are_used_round_robin_and_stay_in_ring() {
    let frame = [0u8; 4];
    let mut slots = Vec::new();
    for id in 0..7u64 {
        let write = plan_frame_write(id, 0, &frame, 1, 1, ScanoutFormat::RGBA, None).expect("frame");
        assert!(write.slot_offset + FRAME_SLOT_HEADER_BYTES + write.payload.len() as u64 <= FRAME_RING_BYTES);
        assert_eq!(write.slot_offset, slot_offset(write.slot_index));
        slots.push(write.slot_index);
    }
    assert_eq!(slots, vec![0, 0, 1, 2, 0, 1, 2]);
    assert_eq!(slot_offset(0), FRAME_RING_HEADER_BYTES);
    assert_eq!(slot_offset(2), FRAME_RING_HEADER_BYTES + 2 * FRAME_SLOT_STRIDE);
}

#[test]
fn frame_write_rejections() {
    assert_eq!(
        plan_frame_write(1, 0, &[0u8; 7], 2, 1, ScanoutFormat::RGBA, None).err(),
        Some("local-shm frame conversion failed".to_string())
    );
    assert_eq!(
        plan_frame_write(1, 0, &[], 2_000_000_000, 0, ScanoutFormat::RGBA, None).err(),
        Some("local-shm stride overflow".to_string())
    );
    assert_eq!(
        plan_frame_write(1, 0, &[], 16, 0, ScanoutFormat::RGBA, None).err(),
        Some("frame dimensions must be nonzero".to_string())
    );
    let big = vec![0u8; 1441 * 900 * 4];
    assert_eq!(
        plan_frame_write(1, 0, &big, 1441, 900, ScanoutFormat::RGBA, None).err(),
        Some("local-shm frame exceeds slot payload capacity".to_string())
    );
}

#[test]
fn frame_header_written_with_packed_rgba_stride() {
    let frame = [0u8; 16];
    let write = plan_frame_write(5, 99, &frame, 2, 2, ScanoutFormat::XRGB, Some(DamageRect { x: 1, y: 1, width: 5, height: 1 }))
        .expect("frame");
    assert_eq!(write.header.stride, 8);
    assert_eq!(write.header.format, PixelFormat::Rgba8888);
    assert_eq!(write.header.monotonic_ns, 99);
    assert_eq!((write.header.damage_x, write.header.damage_y, write.header.damage_width, write.header.damage_height), (0, 0, 2, 2));
    assert!(write.header.validate().is_ok());
}

#[test]
fn pixel_conversion_per_format() {
    let p = [1, 2, 3, 4];
    assert_eq!(rgba_pixel(p, ScanoutFormat::BGRA), [3, 2, 1, 4]);
    assert_eq!(rgba_pixel(p, ScanoutFormat::BGRX), [3, 2, 1, 255]);
    assert_eq!(rgba_pixel(p, ScanoutFormat::ARGB), [2, 3, 4, 1]);
    assert_eq!(rgba_pixel(p, ScanoutFormat::XRGB), [2, 3, 4, 255]);
    assert_eq!(rgba_pixel(p, ScanoutFormat::RGBA), [1, 2, 3, 4]);
    assert_eq!(rgba_pixel(p, ScanoutFormat::XBGR), [4, 3, 2, 255]);
    assert_eq!(rgba_pixel(p, ScanoutFormat::ABGR), [4, 3, 2, 1]);
    assert_eq!(rgba_pixel(p, ScanoutFormat::RGBX), [1, 2, 3, 255]);
}

#[test]
fn frame_conversion_checks_length() {
    assert_eq!(rgba_frame(&[1, 2, 3, 4, 5, 6, 7, 8], 2, 1, ScanoutFormat::ABGR), Some(vec![4, 3, 2, 1, 8, 7, 6, 5]));
    assert_eq!(rgba_frame(&[1, 2, 3, 4], 2, 1, ScanoutFormat::RGBA), None);
    assert_eq!(rgba_frame(&[], 0, 5, ScanoutFormat::RGBA), Some(vec![]));
    assert_eq!(frame_len(2, 3), Some(24));
    assert_eq!(frame_len(16_384, 8_192), Some(536_870_912));
    assert_eq!(frame_len(16_384, 8_193), None);
    assert_eq!(frame_len(u32::MAX, u32::MAX), None);
}

#[test]
fn damage_is_clamped_to_frame() {
    assert_eq!(damage_rect(10, 10, None), (0, 0, 10, 10));
    assert_eq!(damage_rect(10, 10, Some(DamageRect { x: 2, y: 3, width: 4, height: 5 })), (2, 3, 4, 5));
    assert_eq!(damage_rect(10, 10, Some(DamageRect { x: 8, y: 0, width: 4, height: 1 })), (0, 0, 10, 10));
    assert_eq!(damage_rect(10, 10, Some(DamageRect { x: 0, y: 0, width: 0, height: 1 })), (0, 0, 10, 10));
    assert_eq!(damage_rect(10, 10, Some(DamageRect { x: u32::MAX, y: 0, width: 2, height: 1 })), (0, 0, 10, 10));
}

#[test]
fn scanout_parameters_are_checked() {
    assert_eq!(check_scanout_config(0, 16, 1440, 900, 1440, 900), Ok(0));
    assert_eq!(check_scanout_config(15, 16, 1, 1, 1440, 900), Ok(15));
    assert_eq!(check_scanout_config(16, 16, 1, 1, 1440, 900), Err(DisplayError::InvalidParam));
    assert_eq!(check_scanout_config(0, 16, 0, 1, 1440, 900), Err(DisplayError::InvalidParam));
    assert_eq!(check_scanout_config(0, 16, 1441, 1, 1440, 900), Err(DisplayError::InvalidParam));
    assert_eq!(check_scanout_config(0, 16, 1, 901, 1440, 900), Err(DisplayError::InvalidParam));
    assert_eq!(scanout_index(3, 16), Ok(3));
    assert_eq!(scanout_index(16, 16), Err(DisplayError::InvalidScanoutId));
}
