//! Configuration handed from the parent process to the single-threaded
//! boot subprocess that enters the VM.
use vstd::prelude::*;
use crate::config::{GraphicsTransportIntent, HostMount, PortMapping};

verus! {

/// Disk image format of an attached disk.
#[derive(Clone, Copy, Debug, PartialEq, Eq, Structural)]
pub enum DiskFormat {
    /// Raw image.
    Raw,
    /// QCOW2 image.
    Qcow2,
}

/// VM resources: CPUs, memory, networking and disk sizes.
#[derive(Clone, Copy, Debug, PartialEq, Eq, Structural)]
pub struct VmResources {
    /// Number of virtual CPUs.
    pub cpus: u8,
    /// Memory in MiB.
    pub memory_mib: u32,
    /// Whether guest networking is enabled.
    pub network: bool,
    /// Storage disk size in GiB, if set.
    pub storage_gib: Option<u64>,
    /// Overlay disk size in GiB, if set.
    pub overlay_gib: Option<u64>,
}

impl Default for VmResources {
    fn default() -> (r: Self)
        ensures
            r == (VmResources {
                cpus: 0,
                memory_mib: 0,
                network: false,
                storage_gib: None,
                overlay_gib: None,
            }),
    {
        VmResources { cpus: 0, memory_mib: 0, network: false, storage_gib: None, overlay_gib: None }
    }
}

/// Configuration for the boot subprocess, written to a temp file by the
/// parent and read by the child. Paths are host paths.
#[derive(Clone, Debug)]
pub struct BootConfig {
    /// Path to the agent rootfs directory.
    pub rootfs_path: String,
    /// Path to the storage disk file.
    pub storage_disk_path: String,
    /// Path to the overlay disk file.
    pub overlay_disk_path: String,
    /// Path to the vsock Unix socket.
    pub vsock_socket: String,
    /// Optional path to console log file.
    pub console_log: Option<String>,
    /// Path to write startup errors.
    pub startup_error_log: String,
    /// Storage disk size in GiB.
    pub storage_size_gb: u64,
    /// Overlay disk size in GiB.
    pub overlay_size_gb: u64,
    /// Host directory mounts.
    pub mounts: Vec<HostMount>,
    /// Port mappings.
    pub ports: Vec<PortMapping>,
    /// VM resources.
    pub resources: VmResources,
    /// Host-side Unix socket for SSH agent forwarding, if any.
    pub ssh_agent_socket: Option<String>,
    /// Hostnames for DNS filtering, if filtering is on.
    pub dns_filter_hosts: Option<Vec<String>>,
    /// Pre-extracted OCI layers directory, if any.
    pub packed_layers_dir: Option<String>,
    /// Additional disk images to attach: path, read-only, format.
    pub extra_disks: Vec<(String, bool, DiskFormat)>,
    /// Optional mode-0600 rendezvous socket for a native display launch.
    pub display_socket: Option<String>,
    /// Display transport requested for this native display launch
    /// (RFB when a configuration does not say).
    pub display_transport: GraphicsTransportIntent,
}

} // verus!
