//! Non-secret graphics session status, derived from the persisted machine
//! record and, when the guest agent answers, from its graphics probe.
use vstd::prelude::*;
use crate::config::{
    GraphicsRendererIntent, GraphicsTransportIntent, RecordState, VmRecord, intent_requests_gpu,
    record_state_name,
};
use crate::text::{
    chars_of, contains_ignoring_ascii_case, lower_text, starts_with_text, text_contains,
    text_starts_with,
};

verus! {

/// Known graphics API intent for a machine.
#[derive(Clone, Copy, Debug, PartialEq, Eq, Structural)]
pub enum GraphicsApi {
    /// No accelerated graphics API is requested.
    NoApi,
    /// OpenGL is requested through the VirGL path.
    OpenGl,
    /// Vulkan is requested through the virtio-gpu/Venus path.
    Vulkan,
    /// A native-context renderer was requested but API proof is not available.
    Unknown,
}

/// Renderer capability currently known from the host-side record.
#[derive(Clone, Copy, Debug, PartialEq, Eq, Structural)]
pub enum RendererKind {
    /// Software rendering is expected because no GPU path was requested.
    Software,
    /// A virtio-gpu renderer was requested, but no renderer proof is available yet.
    VirtioGpuRequested,
    /// A VirGL renderer was requested, but no OpenGL proof is available yet.
    VirglRequested,
    /// A Venus renderer was requested, but no Vulkan proof is available yet.
    VenusRequested,
    /// A native-context renderer was requested, but no proof is available yet.
    NativeContextRequested,
}

/// Runtime qualification of the requested renderer intent.
#[derive(Clone, Copy, Debug, PartialEq, Eq, Structural)]
pub enum RendererQualification {
    /// No accelerated renderer was requested.
    NotRequested,
    /// A renderer was requested, but no concrete runtime API proof is available.
    Unproven,
    /// The runtime probe proved an API compatible with the requested renderer.
    Matched,
    /// The runtime probe returned a lower capability than requested.
    Degraded,
}

/// The renderer kind that a renderer intent asks for.
pub open spec fn renderer_kind_of(value: GraphicsRendererIntent) -> RendererKind {
    match value {
        GraphicsRendererIntent::Auto => RendererKind::VirtioGpuRequested,
        GraphicsRendererIntent::Software => RendererKind::Software,
        GraphicsRendererIntent::Virgl => RendererKind::VirglRequested,
        GraphicsRendererIntent::Venus => RendererKind::VenusRequested,
        GraphicsRendererIntent::NativeContext => RendererKind::NativeContextRequested,
    }
}

/// The graphics API that a renderer intent asks for.
pub open spec fn api_of_intent(value: GraphicsRendererIntent) -> GraphicsApi {
    match value {
        GraphicsRendererIntent::Auto => GraphicsApi::Vulkan,
        GraphicsRendererIntent::Venus => GraphicsApi::Vulkan,
        GraphicsRendererIntent::Virgl => GraphicsApi::OpenGl,
        GraphicsRendererIntent::Software => GraphicsApi::NoApi,
        GraphicsRendererIntent::NativeContext => GraphicsApi::Unknown,
    }
}

impl From<GraphicsRendererIntent> for RendererKind {
    fn from(value: GraphicsRendererIntent) -> (r: Self) {
        match value {
            GraphicsRendererIntent::Auto => RendererKind::VirtioGpuRequested,
            GraphicsRendererIntent::Software => RendererKind::Software,
            GraphicsRendererIntent::Virgl => RendererKind::VirglRequested,
            GraphicsRendererIntent::Venus => RendererKind::VenusRequested,
            GraphicsRendererIntent::NativeContext => RendererKind::NativeContextRequested,
        }
    }
}

impl vstd::std_specs::convert::FromSpecImpl<GraphicsRendererIntent> for RendererKind {
    open spec fn obeys_from_spec() -> bool {
        true
    }

    open spec fn from_spec(v: GraphicsRendererIntent) -> Self {
        renderer_kind_of(v)
    }
}

impl From<GraphicsRendererIntent> for GraphicsApi {
    fn from(value: GraphicsRendererIntent) -> (r: Self) {
        match value {
            GraphicsRendererIntent::Auto => GraphicsApi::Vulkan,
            GraphicsRendererIntent::Venus => GraphicsApi::Vulkan,
            GraphicsRendererIntent::Virgl => GraphicsApi::OpenGl,
            GraphicsRendererIntent::Software => GraphicsApi::NoApi,
            GraphicsRendererIntent::NativeContext => GraphicsApi::Unknown,
        }
    }
}

impl vstd::std_specs::convert::FromSpecImpl<GraphicsRendererIntent> for GraphicsApi {
    open spec fn obeys_from_spec() -> bool {
        true
    }

    open spec fn from_spec(v: GraphicsRendererIntent) -> Self {
        api_of_intent(v)
    }
}

/// Display transport exposed to local clients.
#[derive(Clone, Copy, Debug, PartialEq, Eq, Structural)]
pub enum DisplayTransportKind {
    /// RFB/VNC loopback transport.
    Rfb,
    /// Same-user local shared-memory transport.
    LocalShm,
}

/// The transport kind for a transport intent.
pub open spec fn transport_kind_of(value: GraphicsTransportIntent) -> DisplayTransportKind {
    match value {
        GraphicsTransportIntent::Rfb => DisplayTransportKind::Rfb,
        GraphicsTransportIntent::LocalShm => DisplayTransportKind::LocalShm,
    }
}

impl From<GraphicsTransportIntent> for DisplayTransportKind {
    fn from(value: GraphicsTransportIntent) -> (r: Self) {
        match value {
            GraphicsTransportIntent::Rfb => DisplayTransportKind::Rfb,
            GraphicsTransportIntent::LocalShm => DisplayTransportKind::LocalShm,
        }
    }
}

impl vstd::std_specs::convert::FromSpecImpl<GraphicsTransportIntent> for DisplayTransportKind {
    open spec fn obeys_from_spec() -> bool {
        true
    }

    open spec fn from_spec(v: GraphicsTransportIntent) -> Self {
        transport_kind_of(v)
    }
}

/// Whether a transport has a launchable host implementation: both do.
pub open spec fn transport_supported(kind: DisplayTransportKind) -> bool {
    match kind {
        DisplayTransportKind::Rfb => true,
        DisplayTransportKind::LocalShm => true,
    }
}

impl DisplayTransportKind {
    /// Whether this transport has a launchable host implementation.
    pub fn is_supported(&self) -> (r: bool)
        ensures
            r == transport_supported(*self),
            r,
    {
        match self {
            DisplayTransportKind::Rfb => true,
            DisplayTransportKind::LocalShm => true,
        }
    }
}

/// Non-secret graphics session lifecycle state.
#[derive(Clone, Copy, Debug, PartialEq, Eq, Structural)]
pub enum GraphicsSessionState {
    /// Machine is not currently running.
    Stopped,
    /// Machine is running without a graphics/display session request.
    Headless,
    /// Machine is running with a display endpoint ready for client attach.
    Ready,
    /// Machine is running with display intent but needs a restart to expose an endpoint.
    RestartRequired,
}

/// The session state for whether the machine runs, whether a display was
/// requested and whether its endpoint is ready.
pub open spec fn session_state_of(
    running: bool,
    display_requested: bool,
    display_ready: bool,
) -> GraphicsSessionState {
    if !running {
        GraphicsSessionState::Stopped
    } else if !display_requested {
        GraphicsSessionState::Headless
    } else if display_ready {
        GraphicsSessionState::Ready
    } else {
        GraphicsSessionState::RestartRequired
    }
}

/// Guest graphics facts reported by the agent's authenticated probe.
#[derive(Clone, Debug)]
pub struct GraphicsProbeStatus {
    /// Whether `/dev/dri` is usable in the guest.
    pub dri_ready: bool,
    /// Names of the DRM nodes found under `/dev/dri`.
    pub dri_nodes: Vec<String>,
    /// Whether input devices are usable.
    pub input_ready: bool,
    /// Names of the input event nodes.
    pub input_nodes: Vec<String>,
    /// Whether the seat daemon is reachable.
    pub seat_ready: bool,
    /// Seat socket path, if found.
    pub seat_socket: Option<String>,
    /// Whether a compositor is running.
    pub compositor_ready: bool,
    /// Compositor sockets found.
    pub compositor_sockets: Vec<String>,
    /// Renderer description, if one was observed.
    pub renderer_hint: Option<String>,
    /// Graphics API description (`"vulkan: ..."` or `"opengl: ..."`), if observed.
    pub api_hint: Option<String>,
    /// Why the preferred API probe failed, if it did.
    pub api_probe_failure_detail: Option<String>,
}

/// Non-secret status suitable for inventory, diagnostics, and UI state.
#[derive(Clone, Debug)]
pub struct GraphicsStatus {
    /// Wire schema identifier for compatibility checks.
    pub schema: String,
    /// Machine name.
    pub machine: String,
    /// Resolved lifecycle state.
    pub state: String,
    /// Derived graphics-session state.
    pub session_state: GraphicsSessionState,
    /// Whether display startup was requested and is known from current state.
    pub display_requested: bool,
    /// Whether the display endpoint is currently ready.
    pub display_ready: bool,
    /// Whether a local client can attach/reconnect without restarting the VM.
    pub client_attach_supported: bool,
    /// Whether a headless running VM can gain display/input without restart.
    pub hot_attach_supported: bool,
    /// Whether the current state requires restart to create a display endpoint.
    pub restart_required_for_display: bool,
    /// Whether GPU acceleration is configured for this machine.
    pub gpu_requested: bool,
    /// Whether GPU readiness is proven; `None` means not probed yet.
    pub gpu_ready: Option<bool>,
    /// Renderer policy requested in persistent machine configuration.
    pub renderer_requested: GraphicsRendererIntent,
    /// Renderer status known without guest probing.
    pub renderer: RendererKind,
    /// Best-effort renderer detail from a guest probe.
    pub renderer_detail: Option<String>,
    /// Whether runtime proof satisfies the requested renderer intent.
    pub renderer_qualification: RendererQualification,
    /// Non-secret explanation for renderer qualification decisions.
    pub renderer_qualification_detail: Option<String>,
    /// Graphics API intent known from configuration.
    pub api_requested: GraphicsApi,
    /// Graphics API status known without guest probing.
    pub api: GraphicsApi,
    /// Best-effort graphics API detail from a guest probe.
    pub api_detail: Option<String>,
    /// Best-effort failure detail from the preferred graphics API probe.
    pub api_probe_failure_detail: Option<String>,
    /// Whether guest `/dev/dri` readiness is proven; `None` means not probed yet.
    pub guest_dri_ready: Option<bool>,
    /// Whether a guest DRM render node is present.
    pub guest_render_node_ready: Option<bool>,
    /// Whether input readiness is proven.
    pub input_ready: Option<bool>,
    /// Whether relative pointer transport is available.
    pub relative_pointer_supported: bool,
    /// Whether pointer capture/release UX is available.
    pub pointer_capture_supported: bool,
    /// Whether gamepad transport is implemented.
    pub gamepad_supported: bool,
    /// Whether gamepad readiness is proven.
    pub gamepad_ready: Option<bool>,
    /// Whether guest audio transport is implemented.
    pub audio_supported: bool,
    /// Whether guest audio readiness is proven.
    pub audio_ready: Option<bool>,
    /// Whether seat readiness is proven; `None` means not probed yet.
    pub seat_ready: Option<bool>,
    /// Whether compositor readiness is proven; `None` means not probed yet.
    pub compositor_ready: Option<bool>,
    /// Current presentation transport.
    pub transport: DisplayTransportKind,
    /// Whether the requested presentation transport is implemented.
    pub transport_supported: bool,
    /// Whether the presentation transport is ready.
    pub transport_ready: Option<bool>,
}

/// The text of an optional string.
pub open spec fn opt_text(o: Option<String>) -> Option<Seq<char>> {
    match o {
        Some(s) => Some(s@),
        None => None,
    }
}

/// The schema identifier every status carries.
pub open spec fn status_schema() -> Seq<char> {
    "smolvm-graphics-status-v1"@
}

/// Whether an API or renderer description names a software rasterizer
/// (case-insensitively).
pub open spec fn is_software_text(detail: Seq<char>) -> bool {
    let lower = lower_text(detail);
    text_contains(lower, "llvmpipe"@) || text_contains(lower, "lavapipe"@) || text_contains(
        lower,
        "softpipe"@,
    ) || text_contains(lower, "swrast"@) || text_contains(lower, "software rasterizer"@)
        || text_contains(lower, "software renderer"@)
}

/// Whether a description mentions a native context (case-insensitively).
pub open spec fn mentions_native_text(detail: Seq<char>) -> bool {
    let lower = lower_text(detail);
    text_contains(lower, "native-context"@) || text_contains(lower, "native context"@)
}

/// Whether an optional description satisfies `mentions_native_text`.
pub open spec fn opt_mentions_native(o: Option<Seq<char>>) -> bool {
    match o {
        Some(t) => mentions_native_text(t),
        None => false,
    }
}

/// The renderer qualification and its explanation, from whether a GPU was
/// requested, the renderer intent, the observed API and the probe details.
pub open spec fn qualification_outcome(
    gpu_requested: bool,
    requested: GraphicsRendererIntent,
    api: GraphicsApi,
    renderer_detail: Option<Seq<char>>,
    api_detail: Option<Seq<char>>,
) -> (RendererQualification, Seq<char>) {
    if !gpu_requested {
        (RendererQualification::NotRequested, "accelerated renderer was not requested"@)
    } else if api_detail is None {
        (RendererQualification::Unproven, "no runtime graphics API proof is available"@)
    } else if is_software_text(api_detail->0) {
        (RendererQualification::Degraded, "runtime probe observed a software renderer"@)
    } else {
        match requested {
            GraphicsRendererIntent::Software => (
                RendererQualification::Matched,
                "software renderer was requested"@,
            ),
            GraphicsRendererIntent::Auto => (
                RendererQualification::Matched,
                "runtime probe observed a non-software graphics API"@,
            ),
            GraphicsRendererIntent::Virgl => if api == GraphicsApi::OpenGl {
                (RendererQualification::Matched, "runtime probe observed OpenGL for VirGL intent"@)
            } else {
                (
                    RendererQualification::Degraded,
                    "runtime probe did not observe OpenGL for VirGL intent"@,
                )
            },
            GraphicsRendererIntent::Venus => if api == GraphicsApi::Vulkan {
                (RendererQualification::Matched, "runtime probe observed Vulkan for Venus intent"@)
            } else {
                (
                    RendererQualification::Degraded,
                    "runtime probe did not observe Vulkan for Venus intent"@,
                )
            },
            GraphicsRendererIntent::NativeContext => if opt_mentions_native(renderer_detail)
                || opt_mentions_native(api_detail) {
                (
                    RendererQualification::Matched,
                    "runtime probe observed native-context renderer detail"@,
                )
            } else {
                (
                    RendererQualification::Unproven,
                    "runtime probe did not prove native-context renderer detail"@,
                )
            },
        }
    }
}

/// How a probe qualifies the requested renderer. Without a GPU request
/// nothing is qualified; without an API description nothing is proven; an
/// API description naming a software rasterizer degrades any request. With
/// a non-software API description: the automatic and software intents are
/// matched; VirGL is matched exactly when OpenGL was observed and Venus
/// exactly when Vulkan was, and degraded otherwise; native context is
/// matched exactly when a probe description mentions a native context, and
/// otherwise stays unproven.
pub proof fn lemma_qualification_rules(
    gpu_requested: bool,
    requested: GraphicsRendererIntent,
    api: GraphicsApi,
    renderer_detail: Option<Seq<char>>,
    api_detail: Option<Seq<char>>,
)
    ensures
        ({
            let q = qualification_outcome(
                gpu_requested,
                requested,
                api,
                renderer_detail,
                api_detail,
            ).0;
            &&& !gpu_requested ==> q == RendererQualification::NotRequested
            &&& gpu_requested && api_detail is None ==> q == RendererQualification::Unproven
            &&& gpu_requested && api_detail is Some && is_software_text(api_detail->0) ==> q
                == RendererQualification::Degraded
            &&& gpu_requested && api_detail is Some && !is_software_text(api_detail->0) ==> {
                &&& requested == GraphicsRendererIntent::Auto ==> q
                    == RendererQualification::Matched
                &&& requested == GraphicsRendererIntent::Software ==> q
                    == RendererQualification::Matched
                &&& requested == GraphicsRendererIntent::Virgl ==> (q
                    == RendererQualification::Matched <==> api == GraphicsApi::OpenGl)
                &&& requested == GraphicsRendererIntent::Virgl ==> (q
                    == RendererQualification::Matched || q == RendererQualification::Degraded)
                &&& requested == GraphicsRendererIntent::Venus ==> (q
                    == RendererQualification::Matched <==> api == GraphicsApi::Vulkan)
                &&& requested == GraphicsRendererIntent::Venus ==> (q
                    == RendererQualification::Matched || q == RendererQualification::Degraded)
                &&& requested == GraphicsRendererIntent::NativeContext ==> (q
                    == RendererQualification::Matched <==> (opt_mentions_native(renderer_detail)
                    || mentions_native_text(api_detail->0)))
                &&& requested == GraphicsRendererIntent::NativeContext ==> (q
                    == RendererQualification::Matched || q == RendererQualification::Unproven)
            }
        }),
        gpu_requested && requested == GraphicsRendererIntent::Auto && api_detail is Some
            && !is_software_text(api_detail->0) ==> qualification_outcome(
            gpu_requested,
            requested,
            api,
            renderer_detail,
            api_detail,
        ).1 == "runtime probe observed a non-software graphics API"@,
{
}

/// The qualification outcome for the current fields of a status.
pub open spec fn status_outcome(s: GraphicsStatus) -> (RendererQualification, Seq<char>) {
    qualification_outcome(
        s.gpu_requested,
        s.renderer_requested,
        s.api,
        opt_text(s.renderer_detail),
        opt_text(s.api_detail),
    )
}

/// Whether the qualification fields of `s` hold the outcome of its other fields.
pub open spec fn qualification_is_current(s: GraphicsStatus) -> bool {
    &&& s.renderer_qualification == status_outcome(s).0
    &&& opt_text(s.renderer_qualification_detail) == Some(status_outcome(s).1)
}

/// The fields that come from the machine record and the host alone, which a
/// guest probe never changes.
pub open spec fn same_host_facts(a: GraphicsStatus, b: GraphicsStatus) -> bool {
    &&& a.schema == b.schema
    &&& a.machine == b.machine
    &&& a.state == b.state
    &&& a.session_state == b.session_state
    &&& a.display_requested == b.display_requested
    &&& a.display_ready == b.display_ready
    &&& a.client_attach_supported == b.client_attach_supported
    &&& a.hot_attach_supported == b.hot_attach_supported
    &&& a.restart_required_for_display == b.restart_required_for_display
    &&& a.gpu_requested == b.gpu_requested
    &&& a.renderer_requested == b.renderer_requested
    &&& a.renderer == b.renderer
    &&& a.api_requested == b.api_requested
    &&& a.relative_pointer_supported == b.relative_pointer_supported
    &&& a.pointer_capture_supported == b.pointer_capture_supported
    &&& a.gamepad_supported == b.gamepad_supported
    &&& a.gamepad_ready == b.gamepad_ready
    &&& a.audio_supported == b.audio_supported
    &&& a.audio_ready == b.audio_ready
    &&& a.transport == b.transport
    &&& a.transport_supported == b.transport_supported
    &&& a.transport_ready == b.transport_ready
}

/// The fields a guest probe fills in.
pub open spec fn same_probe_facts(a: GraphicsStatus, b: GraphicsStatus) -> bool {
    &&& a.gpu_ready == b.gpu_ready
    &&& a.renderer_detail == b.renderer_detail
    &&& a.api == b.api
    &&& a.api_detail == b.api_detail
    &&& a.api_probe_failure_detail == b.api_probe_failure_detail
    &&& a.guest_dri_ready == b.guest_dri_ready
    &&& a.guest_render_node_ready == b.guest_render_node_ready
    &&& a.input_ready == b.input_ready
    &&& a.seat_ready == b.seat_ready
    &&& a.compositor_ready == b.compositor_ready
}

/// Whether the machine record asks for GPU acceleration: explicitly, or
/// through its renderer intent.
pub open spec fn record_requests_gpu(record: VmRecord) -> bool {
    record.gpu == Some(true) || intent_requests_gpu(record.graphics.renderer)
}

/// Whether one of the DRM node names is a render node (`renderD...`).
pub open spec fn has_render_node(nodes: Seq<String>) -> bool {
    exists|i: int| 0 <= i < nodes.len() && text_starts_with(#[trigger] nodes[i]@, "renderD"@)
}

/// The API after a probe's API hint: a `vulkan:` hint proves Vulkan, an
/// `opengl:` hint proves OpenGL, anything else keeps the current value.
pub open spec fn api_after_hint(api: GraphicsApi, hint: Option<Seq<char>>) -> GraphicsApi {
    match hint {
        Some(h) => if text_starts_with(h, "vulkan:"@) {
            GraphicsApi::Vulkan
        } else if text_starts_with(h, "opengl:"@) {
            GraphicsApi::OpenGl
        } else {
            api
        },
        None => api,
    }
}

fn clone_opt_string(o: &Option<String>) -> (r: Option<String>)
    ensures
        r == *o,
{
    match o {
        Some(s) => Some(s.clone()),
        None => None,
    }
}

/// Whether the description names a software rasterizer, ignoring ASCII case.
pub fn is_software_renderer_detail(detail: &str) -> (b: bool)
    ensures
        b == is_software_text(detail@),
{
    let chars = chars_of(detail);
    contains_ignoring_ascii_case(&chars, "llvmpipe") || contains_ignoring_ascii_case(
        &chars,
        "lavapipe",
    ) || contains_ignoring_ascii_case(&chars, "softpipe") || contains_ignoring_ascii_case(
        &chars,
        "swrast",
    ) || contains_ignoring_ascii_case(&chars, "software rasterizer")
        || contains_ignoring_ascii_case(&chars, "software renderer")
}

/// Whether the description mentions a native context, ignoring ASCII case.
pub fn mentions_native_context(detail: &str) -> (b: bool)
    ensures
        b == mentions_native_text(detail@),
{
    let chars = chars_of(detail);
    contains_ignoring_ascii_case(&chars, "native-context") || contains_ignoring_ascii_case(
        &chars,
        "native context",
    )
}

fn opt_is_software(o: &Option<String>) -> (b: bool)
    ensures
        b == match opt_text(*o) {
            Some(t) => is_software_text(t),
            None => false,
        },
{
    match o {
        Some(s) => is_software_renderer_detail(s.as_str()),
        None => false,
    }
}

fn opt_mentions_native_context(o: &Option<String>) -> (b: bool)
    ensures
        b == opt_mentions_native(opt_text(*o)),
{
    match o {
        Some(s) => mentions_native_context(s.as_str()),
        None => false,
    }
}

fn any_render_node(nodes: &Vec<String>) -> (b: bool)
    ensures
        b == has_render_node(nodes@),
{
    let mut i: usize = 0;
    while i < nodes.len()
        invariant
            i <= nodes@.len(),
            forall|k: int| 0 <= k < i ==> !text_starts_with(#[trigger] nodes@[k]@, "renderD"@),
        decreases nodes@.len() - i,
    {
        let chars = chars_of(nodes[i].as_str());
        if starts_with_text(&chars, "renderD") {
            return true;
        }
        i = i + 1;
    }
    false
}

impl GraphicsStatus {
    /// Builds status from the persisted record and the known local endpoint
    /// state, without guest probing.
    pub fn from_record(
        machine: &str,
        record: &VmRecord,
        actual_state: RecordState,
        display_ready: bool,
    ) -> (s: Self)
        ensures
            s.schema@ == status_schema(),
            s.machine@ == machine@,
            s.state@ == record_state_name(actual_state),
            s.display_requested == (record.graphics.enabled || display_ready),
            s.display_ready == display_ready,
            s.session_state == session_state_of(
                actual_state == RecordState::Running,
                s.display_requested,
                display_ready,
            ),
            s.client_attach_supported == display_ready,
            !s.hot_attach_supported,
            s.restart_required_for_display == (actual_state == RecordState::Running
                && s.display_requested && !display_ready),
            s.restart_required_for_display == (s.session_state
                == GraphicsSessionState::RestartRequired),
            s.gpu_requested == record_requests_gpu(*record),
            s.gpu_ready == (if s.gpu_requested && actual_state == RecordState::Running {
                None
            } else {
                Some(false)
            }),
            s.renderer_requested == record.graphics.renderer,
            s.renderer == (if s.gpu_requested {
                renderer_kind_of(record.graphics.renderer)
            } else {
                RendererKind::Software
            }),
            s.api_requested == (if s.gpu_requested {
                api_of_intent(record.graphics.renderer)
            } else {
                GraphicsApi::NoApi
            }),
            s.api == s.api_requested,
            s.renderer_detail is None,
            s.api_detail is None,
            s.api_probe_failure_detail is None,
            s.guest_dri_ready is None,
            s.guest_render_node_ready is None,
            s.input_ready == Some(display_ready),
            s.transport == transport_kind_of(record.graphics.transport),
            s.transport_supported,
            s.relative_pointer_supported == (s.transport == DisplayTransportKind::LocalShm),
            !s.pointer_capture_supported,
            !s.gamepad_supported,
            s.gamepad_ready == Some(false),
            !s.audio_supported,
            s.audio_ready == Some(false),
            s.seat_ready is None,
            s.compositor_ready is None,
            s.transport_ready == Some(display_ready),
            qualification_is_current(s),
            s.renderer_qualification == (if s.gpu_requested {
                RendererQualification::Unproven
            } else {
                RendererQualification::NotRequested
            }),
    {
        let renderer_requested = record.graphics.renderer;
        let renderer_requests_gpu = renderer_requested.requests_gpu();
        let explicit_gpu = match record.gpu {
            Some(g) => g,
            None => false,
        };
        let gpu_requested = explicit_gpu || renderer_requests_gpu;
        let running = actual_state == RecordState::Running;
        let display_requested = record.graphics.enabled || display_ready;
        let requested_transport = DisplayTransportKind::from(record.graphics.transport);
        let transport_supported = requested_transport.is_supported();
        let session_state = match (running, display_requested, display_ready) {
            (false, _, _) => GraphicsSessionState::Stopped,
            (true, false, _) => GraphicsSessionState::Headless,
            (true, true, true) => GraphicsSessionState::Ready,
            (true, true, false) => GraphicsSessionState::RestartRequired,
        };
        let relative_pointer_supported = requested_transport == DisplayTransportKind::LocalShm
            && transport_supported;
        let gpu_ready = match (gpu_requested, running) {
            (false, _) => Some(false),
            (true, false) => Some(false),
            (true, true) => None,
        };
        let renderer = if gpu_requested {
            RendererKind::from(renderer_requested)
        } else {
            RendererKind::Software
        };
        let api_requested = if gpu_requested {
            GraphicsApi::from(renderer_requested)
        } else {
            GraphicsApi::NoApi
        };
        let api = if gpu_requested {
            GraphicsApi::from(renderer_requested)
        } else {
            GraphicsApi::NoApi
        };
        let mut status = GraphicsStatus {
            schema: String::from_str("smolvm-graphics-status-v1"),
            machine: String::from_str(machine),
            state: actual_state.to_string(),
            session_state,
            display_requested,
            display_ready,
            client_attach_supported: display_ready,
            hot_attach_supported: false,
            restart_required_for_display: running && display_requested && !display_ready,
            gpu_requested,
            gpu_ready,
            renderer_requested,
            renderer,
            renderer_detail: None,
            renderer_qualification: RendererQualification::Unproven,
            renderer_qualification_detail: None,
            api_requested,
            api,
            api_detail: None,
            api_probe_failure_detail: None,
            guest_dri_ready: None,
            guest_render_node_ready: None,
            input_ready: Some(display_ready),
            relative_pointer_supported,
            pointer_capture_supported: false,
            gamepad_supported: false,
            gamepad_ready: Some(false),
            audio_supported: false,
            audio_ready: Some(false),
            seat_ready: None,
            compositor_ready: None,
            transport: requested_transport,
            transport_supported,
            transport_ready: Some(display_ready && transport_supported),
        };
        status.refresh_renderer_qualification();
        status
    }

    /// Merges authenticated guest probe facts into the status; without a
    /// probe the status is returned unchanged.
    pub fn with_guest_probe(self, probe: Option<&GraphicsProbeStatus>) -> (s: Self)
        ensures
            probe is None ==> s == self,
            probe matches Some(p) ==> {
                &&& same_host_facts(self, s)
                &&& s.guest_dri_ready == Some(p.dri_ready)
                &&& s.guest_render_node_ready == Some(has_render_node(p.dri_nodes@))
                &&& s.input_ready == Some(p.input_ready)
                &&& s.seat_ready == Some(p.seat_ready)
                &&& s.compositor_ready == Some(p.compositor_ready)
                &&& s.renderer_detail == p.renderer_hint
                &&& s.api_detail == p.api_hint
                &&& s.api_probe_failure_detail == p.api_probe_failure_detail
                &&& s.api == api_after_hint(self.api, opt_text(p.api_hint))
                &&& s.gpu_ready == (if self.gpu_requested {
                    Some(p.dri_ready)
                } else {
                    self.gpu_ready
                })
                &&& qualification_is_current(s)
            },
    {
        let mut status = self;
        match probe {
            None => status,
            Some(probe) => {
                status.guest_dri_ready = Some(probe.dri_ready);
                status.guest_render_node_ready = Some(any_render_node(&probe.dri_nodes));
                status.input_ready = Some(probe.input_ready);
                status.seat_ready = Some(probe.seat_ready);
                status.compositor_ready = Some(probe.compositor_ready);
                status.renderer_detail = clone_opt_string(&probe.renderer_hint);
                status.api_detail = clone_opt_string(&probe.api_hint);
                status.api_probe_failure_detail = clone_opt_string(&probe.api_probe_failure_detail);
                match &probe.api_hint {
                    Some(hint) => {
                        let chars = chars_of(hint.as_str());
                        if starts_with_text(&chars, "vulkan:") {
                            status.api = GraphicsApi::Vulkan;
                        } else if starts_with_text(&chars, "opengl:") {
                            status.api = GraphicsApi::OpenGl;
                        }
                    },
                    None => {},
                }
                if status.gpu_requested {
                    status.gpu_ready = Some(probe.dri_ready);
                }
                status.refresh_renderer_qualification();
                status
            },
        }
    }

    /// Recomputes the renderer qualification and its explanation from the
    /// other fields; nothing else changes.
    pub fn refresh_renderer_qualification(&mut self)
        ensures
            same_host_facts(*old(self), *final(self)),
            same_probe_facts(*old(self), *final(self)),
            qualification_is_current(*final(self)),
    {
        let (qualification, detail) = qualify_renderer(
            self.gpu_requested,
            self.renderer_requested,
            self.api,
            &self.renderer_detail,
            &self.api_detail,
        );
        self.renderer_qualification = qualification;
        self.renderer_qualification_detail = Some(detail);
    }
}

/// The renderer qualification and its explanation (see `qualification_outcome`).
fn qualify_renderer(
    gpu_requested: bool,
    requested: GraphicsRendererIntent,
    api: GraphicsApi,
    renderer_detail: &Option<String>,
    api_detail: &Option<String>,
) -> (r: (RendererQualification, String))
    ensures
        r.0 == qualification_outcome(
            gpu_requested,
            requested,
            api,
            opt_text(*renderer_detail),
            opt_text(*api_detail),
        ).0,
        r.1@ == qualification_outcome(
            gpu_requested,
            requested,
            api,
            opt_text(*renderer_detail),
            opt_text(*api_detail),
        ).1,
{
    if !gpu_requested {
        return (
            RendererQualification::NotRequested,
            String::from_str("accelerated renderer was not requested"),
        );
    }
    if api_detail.is_none() {
        return (
            RendererQualification::Unproven,
            String::from_str("no runtime graphics API proof is available"),
        );
    }
    if opt_is_software(api_detail) {
        return (
            RendererQualification::Degraded,
            String::from_str("runtime probe observed a software renderer"),
        );
    }
    match requested {
        GraphicsRendererIntent::Software => (
            RendererQualification::Matched,
            String::from_str("software renderer was requested"),
        ),
        GraphicsRendererIntent::Auto => (
            RendererQualification::Matched,
            String::from_str("runtime probe observed a non-software graphics API"),
        ),
        GraphicsRendererIntent::Virgl => {
            if api == GraphicsApi::OpenGl {
                (
                    RendererQualification::Matched,
                    String::from_str("runtime probe observed OpenGL for VirGL intent"),
                )
            } else {
                (
                    RendererQualification::Degraded,
                    String::from_str("runtime probe did not observe OpenGL for VirGL intent"),
                )
            }
        },
        GraphicsRendererIntent::Venus => {
            if api == GraphicsApi::Vulkan {
                (
                    RendererQualification::Matched,
                    String::from_str("runtime probe observed Vulkan for Venus intent"),
                )
            } else {
                (
                    RendererQualification::Degraded,
                    String::from_str("runtime probe did not observe Vulkan for Venus intent"),
                )
            }
        },
        GraphicsRendererIntent::NativeContext => {
            let native_context_observed = opt_mentions_native_context(renderer_detail)
                || opt_mentions_native_context(api_detail);
            if native_context_observed {
                (
                    RendererQualification::Matched,
                    String::from_str("runtime probe observed native-context renderer detail"),
                )
            } else {
                (
                    RendererQualification::Unproven,
                    String::from_str("runtime probe did not prove native-context renderer detail"),
                )
            }
        },
    }
}

/// The qualification is `NotRequested` exactly when no GPU was requested.
pub proof fn lemma_not_requested_iff_no_gpu(
    gpu_requested: bool,
    requested: GraphicsRendererIntent,
    api: GraphicsApi,
    renderer_detail: Option<Seq<char>>,
    api_detail: Option<Seq<char>>,
)
    ensures
        (qualification_outcome(gpu_requested, requested, api, renderer_detail, api_detail).0
            == RendererQualification::NotRequested) == !gpu_requested,
{
}

/// A requested renderer is only `Matched` on runtime proof: an API
/// description that names no software rasterizer, and for VirGL an OpenGL
/// API, for Venus a Vulkan API, for a native context a description that
/// mentions it.
pub proof fn lemma_matched_needs_runtime_proof(
    gpu_requested: bool,
    requested: GraphicsRendererIntent,
    api: GraphicsApi,
    renderer_detail: Option<Seq<char>>,
    api_detail: Option<Seq<char>>,
)
    requires
        qualification_outcome(gpu_requested, requested, api, renderer_detail, api_detail).0
            == RendererQualification::Matched,
    ensures
        gpu_requested,
        api_detail matches Some(t) && !is_software_text(t),
        requested == GraphicsRendererIntent::Virgl ==> api == GraphicsApi::OpenGl,
        requested == GraphicsRendererIntent::Venus ==> api == GraphicsApi::Vulkan,
        requested == GraphicsRendererIntent::NativeContext ==> opt_mentions_native(
            renderer_detail,
        ) || opt_mentions_native(api_detail),
{
}

/// A software rasterizer in the API description always degrades a
/// requested renderer, whatever was requested.
pub proof fn lemma_software_api_degrades(
    requested: GraphicsRendererIntent,
    api: GraphicsApi,
    renderer_detail: Option<Seq<char>>,
    detail: Seq<char>,
)
    requires
        is_software_text(detail),
    ensures
        qualification_outcome(true, requested, api, renderer_detail, Some(detail)).0
            == RendererQualification::Degraded,
{
}

/// The session is `Ready` exactly when the machine runs and its display
/// endpoint is ready, and it asks for a restart exactly when a running
/// machine has display intent but no ready endpoint.
pub proof fn lemma_session_state_cases(running: bool, enabled: bool, display_ready: bool)
    ensures
        (session_state_of(running, enabled || display_ready, display_ready)
            == GraphicsSessionState::Ready) == (running && display_ready),
        (session_state_of(running, enabled || display_ready, display_ready)
            == GraphicsSessionState::RestartRequired) == (running && enabled && !display_ready),
        (session_state_of(running, enabled || display_ready, display_ready)
            == GraphicsSessionState::Stopped) == !running,
{
}

} // verus!
