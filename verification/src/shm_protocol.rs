//! The versioned local shared-memory display protocol: endpoint metadata,
//! frame metadata and its validation, and the control messages.
use vstd::prelude::*;
use crate::paths::{paths_equal, same_path};
use crate::text::push_decimal;

verus! {

/// Default native scanout width.
pub const DISPLAY_WIDTH: u32 = 1_440;
/// Default native scanout height.
pub const DISPLAY_HEIGHT: u32 = 900;
/// Local-shm wire protocol version.
pub const PROTOCOL_VERSION: u32 = 1;
/// Maximum accepted framebuffer dimension.
pub const MAX_DIMENSION: u32 = 16_384;
/// Maximum accepted frame payload bytes.
pub const MAX_FRAME_BYTES: u64 = 536_870_912;

/// Protocol name returned to clients for local-shm display endpoints.
pub open spec fn protocol_name() -> Seq<char> {
    "local-shm"@
}

/// Control socket file name inside the display runtime directory.
pub open spec fn control_socket_name() -> Seq<char> {
    "local-shm.sock"@
}

/// Shared frame ring file name inside the display runtime directory.
pub open spec fn frame_ring_name() -> Seq<char> {
    "local-shm.frames"@
}

/// Protocol name returned to clients for local-shm display endpoints.
pub fn protocol() -> (s: &'static str)
    ensures
        s@ == protocol_name(),
{
    "local-shm"
}

/// Control socket file name inside the display runtime directory.
pub fn control_socket_file() -> (s: &'static str)
    ensures
        s@ == control_socket_name(),
{
    "local-shm.sock"
}

/// Shared frame ring file name inside the display runtime directory.
pub fn frame_ring_file() -> (s: &'static str)
    ensures
        s@ == frame_ring_name(),
{
    "local-shm.frames"
}

/// The path of `name` inside directory `dir`: an absolute `name` stands
/// alone, an empty `dir` adds nothing, and otherwise one `/` separates them.
pub open spec fn path_join(dir: Seq<char>, name: Seq<char>) -> Seq<char> {
    if name.len() > 0 && name[0] == '/' {
        name
    } else if dir.len() == 0 {
        name
    } else if dir.last() == '/' {
        dir + name
    } else {
        dir + seq!['/'] + name
    }
}

/// Joins a file name onto a directory path.
pub fn join_path(dir: &str, name: &str) -> (p: String)
    ensures
        p@ == path_join(dir@, name@),
{
    let name_chars = crate::text::chars_of(name);
    if name_chars.len() > 0 && name_chars[0] == '/' {
        return String::from_str(name);
    }
    let dir_chars = crate::text::chars_of(dir);
    let mut p = String::from_str(dir);
    if dir_chars.len() > 0 && dir_chars[dir_chars.len() - 1] != '/' {
        proof {
            reveal_strlit("/");
        }
        p.append("/");
    }
    p.append(name);
    p
}

/// Endpoint metadata for a same-user local-shm client.
#[derive(Clone, Debug)]
pub struct LocalShmEndpoint {
    /// Always the local-shm protocol name.
    pub protocol: String,
    /// Wire protocol version.
    pub version: u32,
    /// Same-user Unix control socket.
    pub control_socket: String,
    /// Mmap-capable frame ring file.
    pub frame_ring: String,
}

/// Why endpoint metadata does not belong to a runtime directory, if it
/// does not: the first failing check's message. Paths are compared as
/// paths, by components.
pub open spec fn endpoint_problem(e: LocalShmEndpoint, runtime_dir: Seq<char>) -> Option<Seq<char>> {
    if e.protocol@ != protocol_name() {
        Some("unsupported local-shm protocol '"@ + e.protocol@ + "'"@)
    } else if e.version != PROTOCOL_VERSION {
        Some("unsupported local-shm version "@ + crate::text::decimal_text(e.version as nat)
            + "; expected 1"@)
    } else if !same_path(e.control_socket@, path_join(runtime_dir, control_socket_name())) {
        Some("control socket is outside the display runtime directory"@)
    } else if !same_path(e.frame_ring@, path_join(runtime_dir, frame_ring_name())) {
        Some("frame ring is outside the display runtime directory"@)
    } else {
        None
    }
}

fn same_text(a: &str, b: &str) -> (r: bool)
    ensures
        r == (a@ == b@),
{
    let x = String::from_str(a);
    let y = String::from_str(b);
    x == y
}

impl LocalShmEndpoint {
    /// Builds endpoint paths inside a display runtime directory.
    pub fn for_runtime_dir(runtime_dir: &str) -> (e: Self)
        ensures
            e.protocol@ == protocol_name(),
            e.version == PROTOCOL_VERSION,
            e.control_socket@ == path_join(runtime_dir@, control_socket_name()),
            e.frame_ring@ == path_join(runtime_dir@, frame_ring_name()),
    {
        LocalShmEndpoint {
            protocol: String::from_str(protocol()),
            version: PROTOCOL_VERSION,
            control_socket: join_path(runtime_dir, control_socket_file()),
            frame_ring: join_path(runtime_dir, frame_ring_file()),
        }
    }

    /// Validates endpoint metadata against a runtime directory without
    /// touching the filesystem; the socket and ring paths must be the same
    /// paths (component by component) as the ones built for the directory.
    pub fn validate_for_runtime_dir(&self, runtime_dir: &str) -> (r: Result<(), String>)
        ensures
            r is Ok <==> endpoint_problem(*self, runtime_dir@) is None,
            r matches Err(msg) ==> endpoint_problem(*self, runtime_dir@) == Some(msg@),
    {
        if !same_text(self.protocol.as_str(), protocol()) {
            let mut msg = String::from_str("unsupported local-shm protocol '");
            msg.append(self.protocol.as_str());
            msg.append("'");
            return Err(msg);
        }
        if self.version != PROTOCOL_VERSION {
            let mut msg = String::from_str("unsupported local-shm version ");
            push_decimal(&mut msg, self.version as u64);
            msg.append("; expected 1");
            return Err(msg);
        }
        let control = join_path(runtime_dir, control_socket_file());
        if !paths_equal(self.control_socket.as_str(), control.as_str()) {
            return Err(String::from_str("control socket is outside the display runtime directory"));
        }
        let ring = join_path(runtime_dir, frame_ring_file());
        if !paths_equal(self.frame_ring.as_str(), ring.as_str()) {
            return Err(String::from_str("frame ring is outside the display runtime directory"));
        }
        Ok(())
    }
}

/// Endpoint metadata built for a runtime directory always validates for
/// that same directory.
pub proof fn lemma_endpoint_for_dir_validates(e: LocalShmEndpoint, runtime_dir: Seq<char>)
    requires
        e.protocol@ == protocol_name(),
        e.version == PROTOCOL_VERSION,
        e.control_socket@ == path_join(runtime_dir, control_socket_name()),
        e.frame_ring@ == path_join(runtime_dir, frame_ring_name()),
    ensures
        endpoint_problem(e, runtime_dir) is None,
{
}

/// Pixel formats supported by the frame ring.
#[derive(Clone, Copy, Debug, PartialEq, Eq, Structural)]
pub enum PixelFormat {
    /// Four bytes per pixel in BGRA byte order.
    Bgra8888,
    /// Four bytes per pixel in RGBA byte order.
    Rgba8888,
}

/// The format code stored in a frame-ring slot header.
pub open spec fn pixel_format_code(format: PixelFormat) -> u32 {
    match format {
        PixelFormat::Rgba8888 => 1,
        PixelFormat::Bgra8888 => 2,
    }
}

impl PixelFormat {
    /// Number of bytes per pixel: four for both formats.
    pub fn bytes_per_pixel(self) -> (n: u32)
        ensures
            n == 4,
    {
        match self {
            PixelFormat::Bgra8888 => 4,
            PixelFormat::Rgba8888 => 4,
        }
    }

    /// The format code stored in a frame-ring slot header.
    pub fn ring_code(self) -> (c: u32)
        ensures
            c == pixel_format_code(self),
    {
        match self {
            PixelFormat::Rgba8888 => 1,
            PixelFormat::Bgra8888 => 2,
        }
    }
}

/// Metadata for one frame in the local-shm ring.
#[derive(Clone, Copy, Debug, PartialEq, Eq, Structural)]
pub struct FrameHeader {
    /// Wire protocol version.
    pub version: u32,
    /// Monotonic frame identifier.
    pub frame_id: u64,
    /// Framebuffer width in pixels.
    pub width: u32,
    /// Framebuffer height in pixels.
    pub height: u32,
    /// Bytes between adjacent rows.
    pub stride: u32,
    /// Pixel format for the payload.
    pub format: PixelFormat,
    /// Damage rectangle x offset.
    pub damage_x: u32,
    /// Damage rectangle y offset.
    pub damage_y: u32,
    /// Damage rectangle width.
    pub damage_width: u32,
    /// Damage rectangle height.
    pub damage_height: u32,
    /// Host monotonic timestamp in nanoseconds.
    pub monotonic_ns: u64,
}

/// Whether a frame header is acceptable: current version, nonzero
/// dimensions within the limit, a stride that holds a pixel row, a payload
/// within the limit, and a nonempty damage rectangle inside the frame.
pub open spec fn header_is_valid(h: FrameHeader) -> bool {
    &&& h.version == PROTOCOL_VERSION
    &&& 0 < h.width <= MAX_DIMENSION
    &&& 0 < h.height <= MAX_DIMENSION
    &&& h.stride >= h.width * 4
    &&& h.stride * h.height <= MAX_FRAME_BYTES
    &&& 0 < h.damage_width
    &&& 0 < h.damage_height
    &&& h.damage_x + h.damage_width <= h.width
    &&& h.damage_y + h.damage_height <= h.height
}

/// The message of the first check that a frame header fails, if any.
pub open spec fn header_problem(h: FrameHeader) -> Option<Seq<char>> {
    if h.version != PROTOCOL_VERSION {
        Some("unsupported frame version "@ + crate::text::decimal_text(h.version as nat)
            + "; expected 1"@)
    } else if h.width == 0 || h.height == 0 {
        Some("frame dimensions must be nonzero"@)
    } else if h.width > MAX_DIMENSION || h.height > MAX_DIMENSION {
        Some("frame dimensions exceed 16384 pixels"@)
    } else if h.stride < h.width * 4 {
        Some("frame stride is smaller than one pixel row"@)
    } else if h.stride * h.height > MAX_FRAME_BYTES {
        Some("frame exceeds 536870912 bytes"@)
    } else if h.damage_x + h.damage_width > u32::MAX || h.damage_y + h.damage_height > u32::MAX {
        Some("damage rectangle overflow"@)
    } else if h.damage_width == 0 || h.damage_height == 0 || h.damage_x + h.damage_width > h.width
        || h.damage_y + h.damage_height > h.height {
        Some("damage rectangle is outside the frame"@)
    } else {
        None
    }
}

/// A frame header passes validation only when it is the current version,
/// its dimensions are nonzero and within the limit, its stride holds a
/// pixel row, its payload is within the limit, and its damage rectangle is
/// nonempty and lies inside the frame. A damage rectangle reaching past the
/// right or bottom edge is always refused.
pub proof fn lemma_accepted_header_bounds(h: FrameHeader)
    ensures
        (header_is_valid(h) || header_problem(h) is None) ==> {
            &&& h.version == PROTOCOL_VERSION
            &&& 1 <= h.width <= MAX_DIMENSION
            &&& 1 <= h.height <= MAX_DIMENSION
            &&& h.stride >= 4 * h.width
            &&& h.stride * h.height <= MAX_FRAME_BYTES
            &&& h.damage_width >= 1
            &&& h.damage_height >= 1
            &&& h.damage_x + h.damage_width <= h.width
            &&& h.damage_y + h.damage_height <= h.height
        },
        h.damage_x + h.damage_width > h.width ==> !header_is_valid(h) && header_problem(h) is Some,
        h.damage_y + h.damage_height > h.height ==> !header_is_valid(h) && header_problem(
            h,
        ) is Some,
{
}

impl FrameHeader {
    /// Validates bounds and returns the expected full-frame payload length
    /// (`stride * height`).
    pub fn validate(&self) -> (r: Result<u64, String>)
        ensures
            r is Ok <==> header_is_valid(*self),
            r is Ok <==> header_problem(*self) is None,
            r matches Ok(n) ==> n == self.stride * self.height,
            r matches Err(msg) ==> header_problem(*self) == Some(msg@),
    {
        if self.version != PROTOCOL_VERSION {
            let mut msg = String::from_str("unsupported frame version ");
            push_decimal(&mut msg, self.version as u64);
            msg.append("; expected 1");
            return Err(msg);
        }
        if self.width == 0 || self.height == 0 {
            return Err(String::from_str("frame dimensions must be nonzero"));
        }
        if self.width > MAX_DIMENSION || self.height > MAX_DIMENSION {
            return Err(String::from_str("frame dimensions exceed 16384 pixels"));
        }
        let minimum_stride: u64 = (self.width as u64) * (self.format.bytes_per_pixel() as u64);
        if (self.stride as u64) < minimum_stride {
            return Err(String::from_str("frame stride is smaller than one pixel row"));
        }
        let stride: u64 = self.stride as u64;
        let height: u64 = self.height as u64;
        assert(stride * height <= 0xffff_ffffu64 * 0xffff_ffffu64) by (nonlinear_arith)
            requires
                stride <= 0xffff_ffffu64,
                height <= 0xffff_ffffu64,
        ;
        let frame_len: u64 = stride * height;
        if frame_len > MAX_FRAME_BYTES {
            return Err(String::from_str("frame exceeds 536870912 bytes"));
        }
        let damage_right = self.damage_x.checked_add(self.damage_width);
        let damage_bottom = self.damage_y.checked_add(self.damage_height);
        match (damage_right, damage_bottom) {
            (Some(right), Some(bottom)) => {
                if self.damage_width == 0 || self.damage_height == 0 || right > self.width || bottom
                    > self.height {
                    return Err(String::from_str("damage rectangle is outside the frame"));
                }
            },
            _ => {
                return Err(String::from_str("damage rectangle overflow"));
            },
        }
        Ok(frame_len)
    }
}

/// Client-to-server local-shm control messages.
#[derive(Clone, Copy, Debug, PartialEq, Eq, Structural)]
pub enum ClientMessage {
    /// Keyboard event using an RFB/X11-style keysym.
    Key {
        /// RFB/X11-style keysym.
        keysym: u32,
        /// `true` for key press, `false` for key release.
        down: bool,
    },
    /// Absolute pointer event in framebuffer coordinates.
    Pointer {
        /// Pointer x coordinate in framebuffer pixels.
        x: u32,
        /// Pointer y coordinate in framebuffer pixels.
        y: u32,
        /// Bitmask of pressed pointer buttons.
        buttons: u8,
    },
    /// Relative pointer event in device counts for game-style pointer capture.
    RelativePointer {
        /// Signed x-axis movement delta.
        dx: i32,
        /// Signed y-axis movement delta.
        dy: i32,
        /// Bitmask of pressed pointer buttons.
        buttons: u8,
    },
    /// Release all tracked keyboard and pointer state for disconnect cleanup.
    ReleaseAll,
}

/// Server-to-client local-shm control messages.
#[derive(Clone, Copy, Debug, PartialEq, Eq, Structural)]
pub enum ServerMessage {
    /// A new frame is available in the shared frame ring.
    FrameAvailable {
        /// Metadata describing the frame now available in the shared ring.
        header: FrameHeader,
    },
    /// Transport-level counters for diagnostics.
    Stats {
        /// Latest frame identifier observed by the transport.
        frame_id: u64,
        /// Number of frames dropped before clients could consume them.
        dropped_frames: u64,
        /// Number of frames currently queued for delivery.
        queued_frames: u32,
    },
}

} // verus!
