//! The `virgl_flags` bitmask handed to the hypervisor's GPU options.
use vstd::prelude::*;

verus! {

/// Host operating system family that decides which virglrenderer flags apply.
#[derive(Clone, Copy, Debug, PartialEq, Eq, Structural)]
pub enum HostPlatform {
    /// Linux hosts: EGL, surfaceless, render-server mode.
    Linux,
    /// Other hosts (macOS): no OpenGL (vrend) initialisation.
    Other,
}

/// VIRGLRENDERER_USE_EGL (Linux).
pub const VIRGLRENDERER_USE_EGL: u32 = 1u32 << 0u32;
/// VIRGLRENDERER_USE_SURFACELESS (Linux).
pub const VIRGLRENDERER_USE_SURFACELESS: u32 = 1u32 << 3u32;
/// VIRGLRENDERER_VENUS: Vulkan over virtio-gpu.
pub const VIRGLRENDERER_VENUS: u32 = 1u32 << 6u32;
/// VIRGLRENDERER_NO_VIRGL: skip OpenGL (vrend) initialisation.
pub const VIRGLRENDERER_NO_VIRGL: u32 = 1u32 << 7u32;
/// VIRGLRENDERER_RENDER_SERVER (Linux): use the external render server.
pub const VIRGLRENDERER_RENDER_SERVER: u32 = 1u32 << 9u32;
/// VIRGLRENDERER_DRM: DRM native context support.
pub const VIRGLRENDERER_DRM: u32 = 1u32 << 10u32;
/// Marker asking the display to stay software-only.
pub const KRUN_DISPLAY_SOFTWARE_ONLY: u32 = 1u32 << 31u32;

/// The flag word as a number: the platform's base flags plus the
/// software-display marker when requested.
pub open spec fn virgl_flags_value(platform: HostPlatform, software_display: bool) -> u32 {
    let base: u32 = match platform {
        HostPlatform::Linux => 0x0649u32,
        HostPlatform::Other => 0x04C0u32,
    };
    if software_display {
        (base + 0x8000_0000u32) as u32
    } else {
        base
    }
}

/// Computes the `virgl_flags` bitmask for the GPU options of the VM.
///
/// Linux: EGL | SURFACELESS | VENUS | RENDER_SERVER | DRM.
/// Other hosts: VENUS | NO_VIRGL | DRM.
/// Bit 31 is added when a software-only display is requested.
pub fn gpu_virgl_flags(platform: HostPlatform, software_display: bool) -> (flags: u32)
    ensures
        flags == virgl_flags_value(platform, software_display),
{
    let base: u32 = match platform {
        HostPlatform::Linux => {
            let f: u32 = VIRGLRENDERER_USE_EGL | VIRGLRENDERER_USE_SURFACELESS | VIRGLRENDERER_VENUS
                | VIRGLRENDERER_RENDER_SERVER | VIRGLRENDERER_DRM;
            assert(f == 0x0649u32) by (bit_vector)
                requires
                    f == (1u32 << 0u32) | (1u32 << 3u32) | (1u32 << 6u32) | (1u32 << 9u32) | (1u32
                        << 10u32),
            ;
            f
        },
        HostPlatform::Other => {
            let f: u32 = VIRGLRENDERER_VENUS | VIRGLRENDERER_NO_VIRGL | VIRGLRENDERER_DRM;
            assert(f == 0x04C0u32) by (bit_vector)
                requires
                    f == (1u32 << 6u32) | (1u32 << 7u32) | (1u32 << 10u32),
            ;
            f
        },
    };
    if software_display {
        let f: u32 = base | KRUN_DISPLAY_SOFTWARE_ONLY;
        assert(f == base + 0x8000_0000u32) by (bit_vector)
            requires
                f == base | (1u32 << 31u32),
                base < 0x8000u32,
        ;
        f
    } else {
        base
    }
}

/// Whatever the platform, Venus and DRM native context are enabled, and the
/// software-display marker (bit 31) is set exactly when it was requested.
pub proof fn lemma_virgl_flags_bits(platform: HostPlatform, software_display: bool)
    ensures
        virgl_flags_value(platform, software_display) & VIRGLRENDERER_VENUS != 0,
        virgl_flags_value(platform, software_display) & VIRGLRENDERER_DRM != 0,
        (virgl_flags_value(platform, software_display) & KRUN_DISPLAY_SOFTWARE_ONLY != 0)
            == software_display,
        platform == HostPlatform::Linux ==> {
            &&& virgl_flags_value(platform, software_display) & VIRGLRENDERER_USE_EGL != 0
            &&& virgl_flags_value(platform, software_display) & VIRGLRENDERER_USE_SURFACELESS != 0
            &&& virgl_flags_value(platform, software_display) & VIRGLRENDERER_RENDER_SERVER != 0
        },
        platform == HostPlatform::Other ==> virgl_flags_value(platform, software_display)
            & VIRGLRENDERER_NO_VIRGL != 0,
{
    let f = virgl_flags_value(platform, software_display);
    if platform == HostPlatform::Linux {
        if software_display {
            assert(f == 0x8000_0649u32);
            assert(f & (1u32 << 6u32) != 0 && f & (1u32 << 10u32) != 0 && f & (1u32 << 31u32) != 0
                && f & (1u32 << 0u32) != 0 && f & (1u32 << 3u32) != 0 && f & (1u32 << 9u32) != 0)
                by (bit_vector)
                requires
                    f == 0x8000_0649u32,
            ;
        } else {
            assert(f & (1u32 << 6u32) != 0 && f & (1u32 << 10u32) != 0 && f & (1u32 << 31u32) == 0
                && f & (1u32 << 0u32) != 0 && f & (1u32 << 3u32) != 0 && f & (1u32 << 9u32) != 0)
                by (bit_vector)
                requires
                    f == 0x0649u32,
            ;
        }
    } else {
        if software_display {
            assert(f == 0x8000_04C0u32);
            assert(f & (1u32 << 6u32) != 0 && f & (1u32 << 10u32) != 0 && f & (1u32 << 31u32) != 0
                && f & (1u32 << 7u32) != 0) by (bit_vector)
                requires
                    f == 0x8000_04C0u32,
            ;
        } else {
            assert(f & (1u32 << 6u32) != 0 && f & (1u32 << 10u32) != 0 && f & (1u32 << 31u32) == 0
                && f & (1u32 << 7u32) != 0) by (bit_vector)
                requires
                    f == 0x04C0u32,
            ;
        }
    }
}

} // verus!
