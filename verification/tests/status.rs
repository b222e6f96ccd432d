use smolvm_graphics::config::{
    GraphicsRendererIntent, GraphicsTransportIntent, RecordState, VmRecord,
};
use smolvm_graphics::status::{
    is_software_renderer_detail, mentions_native_context, DisplayTransportKind, GraphicsApi,
    GraphicsProbeStatus, GraphicsSessionState, GraphicsStatus, RendererKind,
    RendererQualification,
};

fn record_with_gpu(gpu: bool) -> VmRecord {
    let mut record = VmRecord::new("gui".to_string(), 2, 512, vec![], vec![], false);
    record.gpu = Some(gpu);
    record
}

fn record_with_graphics() -> VmRecord {
    let mut record = record_with_gpu(false);
    record.graphics.enabled = true;
    record
}

fn probe_with_api(api_hint: &str) -> GraphicsProbeStatus {
    GraphicsProbeStatus {
        dri_ready: true,
        dri_nodes: vec!["renderD128".to_string()],
        input_ready: true,
        input_nodes: vec!["event0".to_string()],
        seat_ready: true,
        seat_socket: Some("/run/seatd.sock".to_string()),
        compositor_ready: true,
        compositor_sockets: vec!["/run/user/0/wayland-0".to_string()],
        renderer_hint: Some("virtio-gpu".to_string()),
        api_hint: Some(api_hint.to_string()),
        api_probe_failure_detail: None,
    }
}

#[test]
fn graphics_status_does_not_claim_guest_probe_results() {
    let status =
        GraphicsStatus::from_record("gui", &record_with_gpu(true), RecordState::Running, true);
    assert!(status.gpu_requested);
    assert_eq!(status.gpu_ready, None);
    assert_eq!(status.renderer_requested, GraphicsRendererIntent::Auto);
    assert_eq!(status.renderer, RendererKind::VirtioGpuRequested);
    assert_eq!(status.renderer_detail, None);
    assert_eq!(
        status.renderer_qualification,
        RendererQualification::Unproven
    );
    assert_eq!(status.api_requested, GraphicsApi::Vulkan);
    assert_eq!(status.api, GraphicsApi::Vulkan);
    assert_eq!(status.api_detail, None);
    assert_eq!(status.api_probe_failure_detail, None);
    assert_eq!(status.guest_dri_ready, None);
    assert_eq!(status.guest_render_node_ready, None);
    assert_eq!(status.seat_ready, None);
    assert_eq!(status.compositor_ready, None);
    assert_eq!(status.transport, DisplayTransportKind::Rfb);
    assert!(status.transport_supported);
    assert_eq!(status.transport_ready, Some(true));
    assert!(status.client_attach_supported);
    assert!(!status.hot_attach_supported);
    assert!(!status.restart_required_for_display);
}

#[test]
fn graphics_status_reports_software_when_gpu_not_requested() {
    let status = GraphicsStatus::from_record(
        "plain",
        &record_with_gpu(false),
        RecordState::Stopped,
        false,
    );
    assert!(!status.gpu_requested);
    assert_eq!(status.gpu_ready, Some(false));
    assert_eq!(status.renderer_requested, GraphicsRendererIntent::Auto);
    assert_eq!(status.renderer, RendererKind::Software);
    assert_eq!(
        status.renderer_qualification,
        RendererQualification::NotRequested
    );
    assert_eq!(status.api_requested, GraphicsApi::NoApi);
    assert_eq!(status.api, GraphicsApi::NoApi);
    assert!(!status.display_ready);
    assert!(!status.client_attach_supported);
    assert!(!status.hot_attach_supported);
    assert!(!status.restart_required_for_display);
    assert_eq!(status.input_ready, Some(false));
}

#[test]
fn graphics_status_reports_virgl_and_native_context_requests() {
    let mut virgl = record_with_graphics();
    virgl.graphics.renderer = GraphicsRendererIntent::Virgl;
    let status = GraphicsStatus::from_record("gui", &virgl, RecordState::Running, true);
    assert!(status.gpu_requested);
    assert_eq!(status.renderer, RendererKind::VirglRequested);
    assert_eq!(status.api, GraphicsApi::OpenGl);

    let mut native = record_with_graphics();
    native.graphics.renderer = GraphicsRendererIntent::NativeContext;
    let status = GraphicsStatus::from_record("gui", &native, RecordState::Running, true);
    assert!(status.gpu_requested);
    assert_eq!(status.renderer, RendererKind::NativeContextRequested);
    assert_eq!(status.api, GraphicsApi::Unknown);
}

#[test]
fn graphics_status_does_not_require_restart_for_plain_running_headless_machine() {
    let status =
        GraphicsStatus::from_record("gui", &record_with_gpu(true), RecordState::Running, false);
    assert!(!status.display_ready);
    assert_eq!(status.session_state, GraphicsSessionState::Headless);
    assert!(!status.client_attach_supported);
    assert!(!status.hot_attach_supported);
    assert!(!status.restart_required_for_display);
}

#[test]
fn graphics_status_reports_restart_required_for_graphics_intent_without_endpoint() {
    let status = GraphicsStatus::from_record(
        "gui",
        &record_with_graphics(),
        RecordState::Running,
        false,
    );
    assert!(status.display_requested);
    assert!(!status.display_ready);
    assert_eq!(status.session_state, GraphicsSessionState::RestartRequired);
    assert!(!status.client_attach_supported);
    assert!(!status.hot_attach_supported);
    assert!(status.restart_required_for_display);
}

#[test]
fn graphics_status_merges_guest_probe_facts() {
    let probe = probe_with_api("opengl: renderer: llvmpipe");
    let status =
        GraphicsStatus::from_record("gui", &record_with_gpu(true), RecordState::Running, true)
            .with_guest_probe(Some(&probe));

    assert_eq!(status.gpu_ready, Some(true));
    assert_eq!(status.guest_dri_ready, Some(true));
    assert_eq!(status.guest_render_node_ready, Some(true));
    assert_eq!(status.input_ready, Some(true));
    assert_eq!(status.seat_ready, Some(true));
    assert_eq!(status.compositor_ready, Some(true));
    assert_eq!(status.renderer_detail.as_deref(), Some("virtio-gpu"));
    assert_eq!(status.api, GraphicsApi::OpenGl);
    assert_eq!(
        status.renderer_qualification,
        RendererQualification::Degraded
    );
    assert_eq!(
        status.api_detail.as_deref(),
        Some("opengl: renderer: llvmpipe")
    );
}

#[test]
fn graphics_status_carries_api_probe_failure_detail() {
    let mut probe = probe_with_api("opengl: renderer: llvmpipe");
    probe.api_probe_failure_detail =
        Some("vulkan: vulkaninfo failed: vkCreateInstance failed".to_string());
    let status =
        GraphicsStatus::from_record("gui", &record_with_gpu(true), RecordState::Running, true)
            .with_guest_probe(Some(&probe));

    assert_eq!(
        status.api_probe_failure_detail.as_deref(),
        Some("vulkan: vulkaninfo failed: vkCreateInstance failed")
    );
}

#[test]
fn graphics_status_degrades_venus_when_probe_observes_software_opengl() {
    let mut record = record_with_graphics();
    record.graphics.renderer = GraphicsRendererIntent::Venus;
    let mut probe = probe_with_api("opengl: Device: llvmpipe (LLVM 15.0.6, 128 bits)");
    probe.dri_nodes = vec!["card0".to_string()];
    let status = GraphicsStatus::from_record("gui", &record, RecordState::Running, true)
        .with_guest_probe(Some(&probe));

    assert_eq!(status.api_requested, GraphicsApi::Vulkan);
    assert_eq!(status.api, GraphicsApi::OpenGl);
    assert_eq!(status.guest_dri_ready, Some(true));
    assert_eq!(status.guest_render_node_ready, Some(false));
    assert_eq!(
        status.renderer_qualification,
        RendererQualification::Degraded
    );
    assert_eq!(
        status.renderer_qualification_detail.as_deref(),
        Some("runtime probe observed a software renderer")
    );
}

#[test]
fn graphics_status_matches_venus_only_with_non_software_vulkan() {
    let mut record = record_with_graphics();
    record.graphics.renderer = GraphicsRendererIntent::Venus;
    let probe = probe_with_api("vulkan: GPU id = 0 (virtio-gpu Venus)");
    let status = GraphicsStatus::from_record("gui", &record, RecordState::Running, true)
        .with_guest_probe(Some(&probe));

    assert_eq!(status.api, GraphicsApi::Vulkan);
    assert_eq!(
        status.renderer_qualification,
        RendererQualification::Matched
    );
}

#[test]
fn graphics_status_matches_virgl_only_with_non_software_opengl() {
    let mut record = record_with_graphics();
    record.graphics.renderer = GraphicsRendererIntent::Virgl;
    let probe = probe_with_api("opengl: OpenGL renderer string: virgl");
    let status = GraphicsStatus::from_record("gui", &record, RecordState::Running, true)
        .with_guest_probe(Some(&probe));

    assert_eq!(status.api, GraphicsApi::OpenGl);
    assert_eq!(
        status.renderer_qualification,
        RendererQualification::Matched
    );
}

#[test]
fn graphics_status_carries_schema_machine_and_state_text() {
    let status = GraphicsStatus::from_record("plain", &record_with_gpu(false), RecordState::Stopped, false);
    assert_eq!(status.schema, "smolvm-graphics-status-v1");
    assert_eq!(status.machine, "plain");
    assert_eq!(status.state, "stopped");
    assert_eq!(status.session_state, GraphicsSessionState::Stopped);
    assert_eq!(
        status.renderer_qualification_detail.as_deref(),
        Some("accelerated renderer was not requested")
    );
    assert!(!status.pointer_capture_supported);
    assert!(!status.gamepad_supported);
    assert_eq!(status.gamepad_ready, Some(false));
    assert!(!status.audio_supported);
    assert_eq!(status.audio_ready, Some(false));
}

#[test]
fn graphics_status_ready_session_with_local_shm_supports_relative_pointer() {
    let mut record = record_with_graphics();
    record.graphics.transport = GraphicsTransportIntent::LocalShm;
    let status = GraphicsStatus::from_record("gui", &record, RecordState::Running, true);
    assert_eq!(status.session_state, GraphicsSessionState::Ready);
    assert_eq!(status.transport, DisplayTransportKind::LocalShm);
    assert!(status.transport_supported);
    assert_eq!(status.transport_ready, Some(true));
    assert!(status.relative_pointer_supported);

    let stopped = GraphicsStatus::from_record("gui", &record, RecordState::Stopped, false);
    assert_eq!(stopped.session_state, GraphicsSessionState::Stopped);
    assert_eq!(stopped.transport_ready, Some(false));
    assert!(stopped.relative_pointer_supported);
}

#[test]
fn graphics_status_without_probe_is_unchanged() {
    let status =
        GraphicsStatus::from_record("gui", &record_with_gpu(true), RecordState::Running, true);
    let merged = status.clone().with_guest_probe(None);
    assert_eq!(merged.gpu_ready, status.gpu_ready);
    assert_eq!(merged.api, status.api);
    assert_eq!(merged.guest_dri_ready, None);
    assert_eq!(merged.renderer_qualification, status.renderer_qualification);
    assert_eq!(
        merged.renderer_qualification_detail,
        status.renderer_qualification_detail
    );
}

#[test]
fn graphics_status_unproven_without_api_detail() {
    let status =
        GraphicsStatus::from_record("gui", &record_with_gpu(true), RecordState::Running, true);
    assert_eq!(
        status.renderer_qualification_detail.as_deref(),
        Some("no runtime graphics API proof is available")
    );
}

#[test]
fn graphics_status_probe_keeps_gpu_ready_when_gpu_not_requested() {
    let probe = probe_with_api("vulkan: GPU id = 0 (virtio-gpu Venus)");
    let status =
        GraphicsStatus::from_record("plain", &record_with_gpu(false), RecordState::Running, true)
            .with_guest_probe(Some(&probe));
    assert_eq!(status.gpu_ready, Some(false));
    assert_eq!(status.api, GraphicsApi::Vulkan);
    assert_eq!(status.api_requested, GraphicsApi::NoApi);
    assert_eq!(
        status.renderer_qualification,
        RendererQualification::NotRequested
    );
}

#[test]
fn graphics_status_unknown_api_hint_keeps_api() {
    let mut record = record_with_graphics();
    record.graphics.renderer = GraphicsRendererIntent::Venus;
    let probe = probe_with_api("egl: something else");
    let status = GraphicsStatus::from_record("gui", &record, RecordState::Running, true)
        .with_guest_probe(Some(&probe));
    assert_eq!(status.api, GraphicsApi::Vulkan);
    assert_eq!(
        status.renderer_qualification,
        RendererQualification::Matched
    );
}

#[test]
fn graphics_status_virgl_degraded_without_opengl() {
    let mut record = record_with_graphics();
    record.graphics.renderer = GraphicsRendererIntent::Virgl;
    let probe = probe_with_api("vulkan: GPU id = 0 (virtio-gpu Venus)");
    let status = GraphicsStatus::from_record("gui", &record, RecordState::Running, true)
        .with_guest_probe(Some(&probe));
    assert_eq!(
        status.renderer_qualification,
        RendererQualification::Degraded
    );
    assert_eq!(
        status.renderer_qualification_detail.as_deref(),
        Some("runtime probe did not observe OpenGL for VirGL intent")
    );
}

#[test]
fn graphics_status_native_context_needs_mention() {
    let mut record = record_with_graphics();
    record.graphics.renderer = GraphicsRendererIntent::NativeContext;
    let probe = probe_with_api("vulkan: GPU id = 0 (virtio-gpu Venus)");
    let status = GraphicsStatus::from_record("gui", &record, RecordState::Running, true)
        .with_guest_probe(Some(&probe));
    assert_eq!(
        status.renderer_qualification,
        RendererQualification::Unproven
    );

    let mut probe = probe_with_api("vulkan: GPU id = 0 (virtio-gpu)");
    probe.renderer_hint = Some("virtio-gpu Native Context (msm)".to_string());
    let status = GraphicsStatus::from_record("gui", &record, RecordState::Running, true)
        .with_guest_probe(Some(&probe));
    assert_eq!(
        status.renderer_qualification,
        RendererQualification::Matched
    );
    assert_eq!(
        status.renderer_qualification_detail.as_deref(),
        Some("runtime probe observed native-context renderer detail")
    );
}

#[test]
fn software_renderer_detection_ignores_case() {
    assert!(is_software_renderer_detail("OpenGL renderer: LLVMpipe"));
    assert!(is_software_renderer_detail("lavapipe"));
    assert!(is_software_renderer_detail("Mesa SoftPipe"));
    assert!(is_software_renderer_detail("swrast"));
    assert!(is_software_renderer_detail("Software Rasterizer"));
    assert!(is_software_renderer_detail("a SOFTWARE RENDERER"));
    assert!(!is_software_renderer_detail("virgl"));
    assert!(!is_software_renderer_detail(""));
    assert!(mentions_native_context("DRM Native-Context"));
    assert!(mentions_native_context("native context"));
    assert!(!mentions_native_context("nativecontext"));
}

#[test]
fn renderer_and_api_follow_intent() {
    assert_eq!(RendererKind::from(GraphicsRendererIntent::Auto), RendererKind::VirtioGpuRequested);
    assert_eq!(RendererKind::from(GraphicsRendererIntent::Software), RendererKind::Software);
    assert_eq!(GraphicsApi::from(GraphicsRendererIntent::Auto), GraphicsApi::Vulkan);
    assert_eq!(GraphicsApi::from(GraphicsRendererIntent::Software), GraphicsApi::NoApi);
    assert_eq!(
        DisplayTransportKind::from(GraphicsTransportIntent::LocalShm),
        DisplayTransportKind::LocalShm
    );
    assert!(DisplayTransportKind::Rfb.is_supported());
    assert!(DisplayTransportKind::LocalShm.is_supported());
    assert_eq!(GraphicsTransportIntent::default(), GraphicsTransportIntent::Rfb);
    assert_eq!(GraphicsRendererIntent::default(), GraphicsRendererIntent::Auto);
    assert!(!GraphicsRendererIntent::Auto.requests_gpu());
    assert!(GraphicsRendererIntent::Venus.requests_gpu());
}

#[test]
fn graphics_status_serializes_transport_as_rfb() {
    let status =
        GraphicsStatus::from_record("gui", &record_with_gpu(true), RecordState::Running, true);
    assert_eq!(status.schema, "smolvm-graphics-status-v1");
    assert_eq!(status.session_state, GraphicsSessionState::Ready);
    assert_eq!(status.renderer_requested, GraphicsRendererIntent::Auto);
    assert_eq!(status.renderer, RendererKind::VirtioGpuRequested);
    assert_eq!(status.renderer_qualification, RendererQualification::Unproven);
    assert_eq!(status.api_requested, GraphicsApi::Vulkan);
    assert_eq!(status.transport, DisplayTransportKind::Rfb);
    assert!(status.transport_supported);
    assert_eq!(status.gpu_ready, None);
    assert!(!status.relative_pointer_supported);
    assert!(!status.pointer_capture_supported);
    assert!(!status.gamepad_supported);
    assert_eq!(status.gamepad_ready, Some(false));
    assert!(!status.audio_supported);
    assert_eq!(status.audio_ready, Some(false));
}

#[test]
fn graphics_status_reports_requested_renderer_without_proven_api() {
    let mut record = record_with_graphics();
    record.graphics.renderer = GraphicsRendererIntent::Venus;
    let status = GraphicsStatus::from_record("gui", &record, RecordState::Running, true);
    assert!(status.gpu_requested);
    assert_eq!(status.gpu_ready, None);
    assert_eq!(status.renderer_requested, GraphicsRendererIntent::Venus);
    assert_eq!(status.renderer, RendererKind::VenusRequested);
    assert_eq!(status.api_requested, GraphicsApi::Vulkan);
    assert_eq!(status.api, GraphicsApi::Vulkan);
    assert_eq!(status.renderer_qualification, RendererQualification::Unproven);
    assert_eq!(status.renderer_detail, None);
    assert_eq!(status.api_detail, None);
}

#[test]
fn graphics_status_serializes_requested_local_shm_transport() {
    let mut record = record_with_graphics();
    record.graphics.transport = GraphicsTransportIntent::LocalShm;
    let status = GraphicsStatus::from_record("gui", &record, RecordState::Stopped, false);
    assert_eq!(status.transport, DisplayTransportKind::LocalShm);
    assert!(status.transport_supported);
    assert_eq!(status.transport_ready, Some(false));
    assert_eq!(status.session_state, GraphicsSessionState::Stopped);
    assert!(status.relative_pointer_supported);
}
