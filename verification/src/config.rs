//! Persisted machine configuration that the graphics status is derived from.
use vstd::prelude::*;

verus! {

/// Renderer policy requested in persistent machine configuration.
#[derive(Clone, Copy, Debug, PartialEq, Eq, Structural)]
pub enum GraphicsRendererIntent {
    /// Let the host pick the virtio-gpu renderer (the default).
    Auto,
    /// Software rendering only.
    Software,
    /// OpenGL through VirGL.
    Virgl,
    /// Vulkan through Venus.
    Venus,
    /// DRM native context.
    NativeContext,
}

/// Whether the renderer intent by itself asks for GPU acceleration.
pub open spec fn intent_requests_gpu(intent: GraphicsRendererIntent) -> bool {
    match intent {
        GraphicsRendererIntent::Virgl => true,
        GraphicsRendererIntent::Venus => true,
        GraphicsRendererIntent::NativeContext => true,
        GraphicsRendererIntent::Auto => false,
        GraphicsRendererIntent::Software => false,
    }
}

impl GraphicsRendererIntent {
    /// Whether this renderer intent asks for GPU acceleration by itself
    /// (an explicit VirGL, Venus or native-context choice).
    pub fn requests_gpu(&self) -> (r: bool)
        ensures
            r == intent_requests_gpu(*self),
    {
        match self {
            GraphicsRendererIntent::Virgl => true,
            GraphicsRendererIntent::Venus => true,
            GraphicsRendererIntent::NativeContext => true,
            GraphicsRendererIntent::Auto => false,
            GraphicsRendererIntent::Software => false,
        }
    }
}

impl Default for GraphicsRendererIntent {
    fn default() -> (r: Self)
        ensures
            r == GraphicsRendererIntent::Auto,
    {
        GraphicsRendererIntent::Auto
    }
}

/// Display transport requested in persistent machine configuration.
#[derive(Clone, Copy, Debug, PartialEq, Eq, Structural)]
pub enum GraphicsTransportIntent {
    /// RFB/VNC loopback (the default, also for configurations written
    /// before the transport could be chosen).
    Rfb,
    /// Same-user local shared memory.
    LocalShm,
}

impl Default for GraphicsTransportIntent {
    fn default() -> (r: Self)
        ensures
            r == GraphicsTransportIntent::Rfb,
    {
        GraphicsTransportIntent::Rfb
    }
}

/// Lifecycle state of a machine record.
#[derive(Clone, Copy, Debug, PartialEq, Eq, Structural)]
pub enum RecordState {
    /// Created but never started.
    Created,
    /// Currently running.
    Running,
    /// Stopped.
    Stopped,
    /// Failed to start or crashed.
    Failed,
}

/// The lower-case name of a record state.
pub open spec fn record_state_name(state: RecordState) -> Seq<char> {
    match state {
        RecordState::Created => "created"@,
        RecordState::Running => "running"@,
        RecordState::Stopped => "stopped"@,
        RecordState::Failed => "failed"@,
    }
}

impl RecordState {
    /// The lower-case name of the state, as shown to users.
    pub fn to_string(&self) -> (s: String)
        ensures
            s@ == record_state_name(*self),
    {
        match self {
            RecordState::Created => String::from_str("created"),
            RecordState::Running => String::from_str("running"),
            RecordState::Stopped => String::from_str("stopped"),
            RecordState::Failed => String::from_str("failed"),
        }
    }
}

/// Graphics section of a machine record.
#[derive(Clone, Debug)]
pub struct GraphicsConfig {
    /// Whether a display session is requested at start.
    pub enabled: bool,
    /// Requested renderer policy.
    pub renderer: GraphicsRendererIntent,
    /// Requested presentation transport.
    pub transport: GraphicsTransportIntent,
}

impl GraphicsConfig {
    /// Display disabled, automatic renderer, RFB transport.
    pub fn new() -> (c: Self)
        ensures
            !c.enabled,
            c.renderer == GraphicsRendererIntent::Auto,
            c.transport == GraphicsTransportIntent::Rfb,
    {
        GraphicsConfig {
            enabled: false,
            renderer: GraphicsRendererIntent::Auto,
            transport: GraphicsTransportIntent::Rfb,
        }
    }
}

/// A host directory shared with the guest.
#[derive(Clone, Debug)]
pub struct HostMount {
    /// Host path.
    pub source: String,
    /// Guest path.
    pub target: String,
    /// Whether the guest sees it read-only.
    pub read_only: bool,
}

/// A host port forwarded to a guest port.
#[derive(Clone, Copy, Debug, PartialEq, Eq, Structural)]
pub struct PortMapping {
    /// Host-side port.
    pub host: u16,
    /// Guest-side port.
    pub guest: u16,
}

/// Persisted machine record, as far as graphics status reads it.
#[derive(Clone, Debug)]
pub struct VmRecord {
    /// Machine name.
    pub name: String,
    /// Number of virtual CPUs.
    pub cpus: u8,
    /// Memory in MiB.
    pub mem: u32,
    /// Host directory mounts.
    pub mounts: Vec<HostMount>,
    /// Port mappings.
    pub ports: Vec<PortMapping>,
    /// Whether guest networking is enabled.
    pub network: bool,
    /// Explicit GPU acceleration setting, if any.
    pub gpu: Option<bool>,
    /// Graphics section.
    pub graphics: GraphicsConfig,
}

impl VmRecord {
    /// A fresh record with no GPU setting and the default graphics section.
    pub fn new(
        name: String,
        cpus: u8,
        mem: u32,
        mounts: Vec<HostMount>,
        ports: Vec<PortMapping>,
        network: bool,
    ) -> (r: Self)
        ensures
            r.name@ == name@,
            r.cpus == cpus,
            r.mem == mem,
            r.mounts@ == mounts@,
            r.ports@ == ports@,
            r.network == network,
            r.gpu is None,
            !r.graphics.enabled,
            r.graphics.renderer == GraphicsRendererIntent::Auto,
            r.graphics.transport == GraphicsTransportIntent::Rfb,
    {
        VmRecord { name, cpus, mem, mounts, ports, network, gpu: None, graphics: GraphicsConfig::new() }
    }
}

} // verus!
