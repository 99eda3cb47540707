use slipway::bridge::{bounded_debug_bridge, DebugBridgeError};
use slipway::command::{DebugCommand, DebugCommandKind, ProbeKind, ProbeRequest, RenderPacket};
use slipway::evidence::{Diagnostic, DiagnosticSeverity, EvidenceSource};
use slipway::frame::{Coord, FrameIdentity, Point, Rect, Size};
use slipway::input::{CommandEvent, InputEvent};
use slipway::reply::{
    frame_identity_mismatch, DebugControlMode, DebugControlTrace, DebugControlTraceStage,
    DebugControlTraceStageKind, DebugMessageTraceEntry, DebugReplyProduct, DebugStatus,
    MessageDisposition, ProbeProduct, RenderEvidence, RenderProduct, RenderRefusal,
    SlipwayDebugCommandHandler,
};
use slipway::screenshot::{PresentedScreenshotProduct, PresentedScreenshotRefusal};

fn coord(value: f32) -> Coord {
    Coord { bits: value.to_bits() }
}

fn frame(index: u64) -> FrameIdentity {
    FrameIdentity {
        surface_id: "surface".to_string(),
        surface_instance_id: "instance".to_string(),
        revision: 4,
        frame_index: index,
        viewport: Rect {
            origin: Point { x: coord(0.0), y: coord(0.0) },
            size: Size { width: coord(200.0), height: coord(100.0) },
        },
    }
}

fn packet(frame: FrameIdentity) -> RenderPacket {
    RenderPacket {
        target: "widget".to_string(),
        frame,
        paint_ops: 1,
        diagnostics: Vec::new(),
    }
}

fn control_event() -> InputEvent {
    InputEvent::Command(CommandEvent {
        target: "widget".to_string(),
        target_slot: None,
        command: "activate".to_string(),
        payload_ref: Some("payload://control".to_string()),
        source: None,
    })
}

#[derive(Default)]
struct FakeRenderer {
    calls: u32,
}

impl FakeRenderer {
    fn render_offscreen(&mut self, packet: RenderPacket) -> Result<RenderEvidence, RenderRefusal> {
        self.calls += 1;
        let width = f32::from_bits(packet.frame.viewport.size.width.bits) as u32;
        let height = f32::from_bits(packet.frame.viewport.size.height.bits) as u32;
        Ok(RenderEvidence {
            target: packet.target,
            frame: packet.frame,
            source: EvidenceSource::canonical_offscreen("provider"),
            provider_id: "provider".to_string(),
            artifact_ref: Some("artifact://frame".to_string()),
            artifact_path: None,
            pixel_hash: Some("abc".to_string()),
            width: Some(width),
            height: Some(height),
            diagnostics: packet.diagnostics,
        })
    }
}

struct Handler {
    calls: u32,
    renderer: FakeRenderer,
    last_control: Option<(FrameIdentity, InputEvent, bool)>,
    last_resize: Option<FrameIdentity>,
}

impl Handler {
    fn new() -> Self {
        Self {
            calls: 0,
            renderer: FakeRenderer::default(),
            last_control: None,
            last_resize: None,
        }
    }
}

fn info(code: &str, message: String) -> Diagnostic {
    Diagnostic {
        target: None,
        severity: DiagnosticSeverity::Info,
        code: code.to_string(),
        message,
    }
}

impl SlipwayDebugCommandHandler for Handler {
    fn handle_debug_command(&mut self, command: DebugCommand) -> DebugReplyProduct {
        self.calls += 1;
        match command.kind {
            DebugCommandKind::Status { .. } => DebugReplyProduct::Status(DebugStatus {
                admitted: true,
                detail: "ready".to_string(),
                revision: 0,
                backend_id: None,
                trace_buffer_depth: 0,
                trace_buffer_capacity: 0,
                refused_debug_replies: 0,
                unhandled_backend_input_traces: 0,
            }),
            DebugCommandKind::Probe { request, .. } => DebugReplyProduct::Probes(
                request
                    .kinds
                    .into_iter()
                    .map(|kind| {
                        ProbeProduct::Diagnostic(info(&format!("{kind:?}"), "probe requested".to_string()))
                    })
                    .collect(),
            ),
            DebugCommandKind::Render { packet } => match self.renderer.render_offscreen(packet) {
                Ok(evidence) => DebugReplyProduct::Render(RenderProduct::Evidence(evidence)),
                Err(refusal) => DebugReplyProduct::Render(RenderProduct::Refusal(refusal)),
            },
            DebugCommandKind::Screenshot { request } => DebugReplyProduct::Screenshot(
                PresentedScreenshotProduct::Refusal(PresentedScreenshotRefusal {
                    selector: request.selector,
                    captured_frame: None,
                    backend_id: None,
                    code: "screenshot-no-visible-backend".to_string(),
                    reason: "test handler has no visible backend".to_string(),
                    diagnostics: Vec::new(),
                }),
            ),
            DebugCommandKind::Control { frame, event, trace } => {
                self.last_control = Some((frame, event, trace));
                DebugReplyProduct::Diagnostics(vec![info(
                    "control-received",
                    "control command received".to_string(),
                )])
            }
            DebugCommandKind::PhysicalControl { frame, trace, .. } => {
                self.last_resize = Some(frame);
                DebugReplyProduct::Diagnostics(vec![info(
                    "physical-control-received",
                    format!("physical control command received trace={trace}"),
                )])
            }
            DebugCommandKind::Resize { frame } => {
                self.last_resize = Some(frame);
                DebugReplyProduct::Diagnostics(vec![info(
                    "resize-received",
                    "resize command received".to_string(),
                )])
            }
        }
    }
}

#[test]
fn no_command_means_no_probe_or_renderer_call() {
    let (_client, runtime) = bounded_debug_bridge(1);
    let mut handler = Handler::new();

    let drained = runtime.drain_one(&mut handler).expect("drain succeeds");

    assert!(drained.is_none());
    assert_eq!(handler.calls, 0);
    assert_eq!(handler.renderer.calls, 0);
}

#[test]
fn status_command_round_trips_request_and_frame_identity() {
    let (client, runtime) = bounded_debug_bridge(1);
    let mut handler = Handler::new();
    let command = DebugCommand::status("req-1", frame(9));

    let handle = client.submit(command).expect("command queued");
    let drained = runtime
        .drain_one(&mut handler)
        .expect("runtime drains")
        .expect("reply generated");
    let received = handle
        .try_recv()
        .expect("reply channel readable")
        .expect("reply available");

    assert_eq!(handle.request_id(), "req-1");
    assert_eq!(drained, received);
    assert_eq!(received.request_id, "req-1");
    assert_eq!(received.frame.frame_index, 9);
    assert!(matches!(received.product, DebugReplyProduct::Status(_)));
}

#[test]
fn bounded_bridge_reports_backpressure() {
    let (client, _runtime) = bounded_debug_bridge(1);

    let _first = client
        .submit(DebugCommand::status("req-1", frame(1)))
        .expect("first command fits");
    let second = client.submit(DebugCommand::status("req-2", frame(2)));

    assert!(matches!(second, Err(DebugBridgeError::CommandQueueFull)));
}

#[test]
fn render_command_invokes_provider_trait_only_when_drained() {
    let (client, runtime) = bounded_debug_bridge(1);
    let mut handler = Handler::new();
    let frame = frame(11);
    let handle = client
        .submit(DebugCommand::render("render-1", packet(frame.clone())))
        .expect("render command queued");

    assert_eq!(handler.renderer.calls, 0);

    runtime
        .drain_one(&mut handler)
        .expect("runtime drains")
        .expect("reply generated");
    let reply = handle
        .try_recv()
        .expect("reply channel readable")
        .expect("reply available");

    assert_eq!(handler.renderer.calls, 1);
    assert_eq!(reply.frame, frame);
    match reply.product {
        DebugReplyProduct::Render(RenderProduct::Evidence(evidence)) => {
            assert_eq!(evidence.frame, frame);
            assert_eq!(evidence.provider_id, "provider");
            assert_eq!(evidence.source, EvidenceSource::canonical_offscreen("provider"));
        }
        other => panic!("expected render evidence, got {other:?}"),
    }
}

#[test]
fn control_command_round_trips_request_frame_and_event() {
    let (client, runtime) = bounded_debug_bridge(1);
    let mut handler = Handler::new();
    let frame = frame(12);
    let event = control_event();
    let command = DebugCommand::control("control-1", frame.clone(), event.clone());

    assert_eq!(command.frame_identity(), &frame);

    let handle = client.submit(command).expect("control command queued");
    let drained = runtime
        .drain_one(&mut handler)
        .expect("runtime drains")
        .expect("reply generated");
    let received = handle
        .try_recv()
        .expect("reply channel readable")
        .expect("reply available");

    assert_eq!(drained, received);
    assert_eq!(received.request_id, "control-1");
    assert_eq!(received.frame, frame);
    assert_eq!(handler.last_control, Some((frame, event, false)));
    match received.product {
        DebugReplyProduct::Diagnostics(diagnostics) => {
            assert_eq!(diagnostics[0].code, "control-received");
        }
        other => panic!("expected control diagnostic, got {other:?}"),
    }
}

#[test]
fn control_trace_is_explicit_and_request_scoped_data() {
    let frame = frame(14);
    let event = control_event();
    let ordinary = DebugCommand::control("control-ordinary", frame.clone(), event.clone());
    let traced = DebugCommand::control_with_trace("control-traced", frame.clone(), event.clone());

    assert!(!ordinary.control_trace_enabled());
    assert!(traced.control_trace_enabled());
    assert_eq!(traced.frame_identity(), &frame);
    match traced.kind {
        DebugCommandKind::Control { frame: traced_frame, event: traced_event, trace } => {
            assert_eq!(traced_frame, frame);
            assert_eq!(traced_event, event);
            assert!(trace);
        }
        other => panic!("expected control command, got {other:?}"),
    }
}

#[test]
fn control_trace_product_carries_messages_revisions_and_dispositions() {
    let frame = frame(15);
    let event = control_event();
    let diagnostic = Diagnostic {
        target: Some("widget".to_string()),
        severity: DiagnosticSeverity::Info,
        code: "handled".to_string(),
        message: "event handled".to_string(),
    };
    let trace = DebugControlTrace::new(
        "trace-1",
        frame.clone(),
        &event,
        String::new(),
        true,
        4,
        5,
        vec![diagnostic.clone()],
    )
    .with_messages(vec![
        DebugMessageTraceEntry::emitted("widget", "activate", MessageDisposition::Consumed),
        DebugMessageTraceEntry::emitted("widget", "unused", MessageDisposition::Ignored),
        DebugMessageTraceEntry::emitted(
            "widget",
            "unreduced",
            MessageDisposition::ReductionUnavailable,
        ),
    ])
    .with_reduction_stage(DebugControlTraceStage::reduced(
        "test-reducer",
        Some("widget".to_string()),
        "test reducer observed trace messages",
    ));

    assert_eq!(trace.request_id, "trace-1");
    assert_eq!(trace.frame, frame);
    assert_eq!(trace.mode, DebugControlMode::SemanticDirect);
    assert_eq!(trace.routed_event_target, "widget");
    assert_eq!(trace.event_summary, "command:activate");
    assert!(trace.handled);
    assert_eq!(trace.stages.len(), 4);
    assert_eq!(trace.stages[0].stage, DebugControlTraceStageKind::Generated);
    assert_eq!(trace.stages[0].target, Some("widget".to_string()));
    assert_eq!(trace.stages[1].stage, DebugControlTraceStageKind::Routed);
    assert_eq!(trace.stages[1].target, Some("widget".to_string()));
    assert_eq!(trace.stages[2].stage, DebugControlTraceStageKind::Consumed);
    assert_eq!(trace.stages[2].target, Some("widget".to_string()));
    assert_eq!(trace.stages[3].stage, DebugControlTraceStageKind::Reduced);
    assert_eq!(trace.stages[3].actor, "test-reducer");
    assert_eq!(trace.revision_before, 4);
    assert_eq!(trace.revision_after, 5);
    assert_eq!(trace.diagnostics, vec![diagnostic]);
    assert_eq!(trace.messages.len(), 3);
    assert_eq!(trace.messages[0].disposition, MessageDisposition::Consumed);
    assert_eq!(trace.messages[1].disposition, MessageDisposition::Ignored);
    assert_eq!(
        trace.messages[2].disposition,
        MessageDisposition::ReductionUnavailable
    );

    let product = DebugReplyProduct::ControlTrace(trace);
    assert!(!frame_identity_mismatch(&product, &frame));
}

#[test]
fn resize_command_round_trips_request_frame_and_viewport() {
    let (client, runtime) = bounded_debug_bridge(1);
    let mut handler = Handler::new();
    let mut resized_frame = frame(13);
    resized_frame.viewport = Rect {
        origin: Point { x: coord(0.0), y: coord(0.0) },
        size: Size { width: coord(320.0), height: coord(180.0) },
    };
    let command = DebugCommand::resize("resize-1", resized_frame.clone());

    assert_eq!(command.frame_identity(), &resized_frame);
    assert_eq!(f32::from_bits(command.frame_identity().viewport.size.width.bits), 320.0);
    assert_eq!(f32::from_bits(command.frame_identity().viewport.size.height.bits), 180.0);

    let handle = client.submit(command).expect("resize command queued");
    let drained = runtime
        .drain_one(&mut handler)
        .expect("runtime drains")
        .expect("reply generated");
    let received = handle
        .try_recv()
        .expect("reply channel readable")
        .expect("reply available");

    assert_eq!(drained, received);
    assert_eq!(received.request_id, "resize-1");
    assert_eq!(received.frame, resized_frame);
    assert_eq!(handler.last_resize, Some(resized_frame));
    match received.product {
        DebugReplyProduct::Diagnostics(diagnostics) => {
            assert_eq!(diagnostics[0].code, "resize-received");
        }
        other => panic!("expected resize diagnostic, got {other:?}"),
    }
}

fn wrong_evidence(command: &DebugCommand, provider: &str) -> RenderEvidence {
    let mut wrong = command.frame_identity().clone();
    wrong.frame_index += 1;
    RenderEvidence {
        target: "widget".to_string(),
        frame: wrong,
        source: EvidenceSource::canonical_offscreen(provider),
        provider_id: provider.to_string(),
        artifact_ref: None,
        artifact_path: None,
        pixel_hash: None,
        width: None,
        height: None,
        diagnostics: Vec::new(),
    }
}

struct BadHandler;

impl SlipwayDebugCommandHandler for BadHandler {
    fn handle_debug_command(&mut self, command: DebugCommand) -> DebugReplyProduct {
        DebugReplyProduct::Render(RenderProduct::Evidence(wrong_evidence(&command, "bad")))
    }
}

#[test]
fn mismatched_render_evidence_becomes_error_reply() {
    let (client, runtime) = bounded_debug_bridge(1);
    let mut handler = BadHandler;
    let handle = client
        .submit(DebugCommand::render("bad-1", packet(frame(20))))
        .expect("command queued");

    runtime
        .drain_one(&mut handler)
        .expect("runtime drains")
        .expect("reply generated");
    let reply = handle
        .try_recv()
        .expect("reply channel readable")
        .expect("reply available");

    assert!(matches!(reply.product, DebugReplyProduct::Error(_)));
    assert_eq!(reply.frame.frame_index, 20);
}

struct BadProbeHandler;

impl SlipwayDebugCommandHandler for BadProbeHandler {
    fn handle_debug_command(&mut self, command: DebugCommand) -> DebugReplyProduct {
        DebugReplyProduct::Probes(vec![ProbeProduct::RenderEvidence(wrong_evidence(
            &command,
            "bad-probe",
        ))])
    }
}

#[test]
fn mismatched_frame_inside_probe_product_becomes_error_reply() {
    let (client, runtime) = bounded_debug_bridge(1);
    let mut handler = BadProbeHandler;
    let handle = client
        .submit(DebugCommand::probe(
            "bad-probe-1",
            frame(30),
            ProbeRequest {
                target: None,
                kinds: vec![ProbeKind::RenderEvidence],
                event_trace_limit: None,
            },
        ))
        .expect("command queued");

    runtime
        .drain_one(&mut handler)
        .expect("runtime drains")
        .expect("reply generated");
    let reply = handle
        .try_recv()
        .expect("reply channel readable")
        .expect("reply available");

    assert!(matches!(reply.product, DebugReplyProduct::Error(_)));
    assert_eq!(reply.frame.frame_index, 30);
}

#[test]
fn leased_command_completes_once_with_checked_reply() {
    let (client, runtime) = bounded_debug_bridge(2);
    let handle = client
        .submit(DebugCommand::status("lease-1", frame(40)))
        .expect("command queued");
    let lease = runtime
        .take_one()
        .expect("bridge readable")
        .expect("command leased");
    assert_eq!(lease.command().request_id, "lease-1");
    assert!(handle.try_recv().expect("reply channel readable").is_none());

    let reply = lease
        .complete(DebugReplyProduct::Diagnostics(Vec::new()))
        .expect("reply sent");
    assert_eq!(reply.request_id, "lease-1");
    assert_eq!(reply.frame.frame_index, 40);
    assert_eq!(
        handle.try_recv().expect("reply channel readable"),
        Some(reply)
    );
    assert!(runtime.take_one().expect("bridge readable").is_none());
}

#[test]
fn interceptor_answers_without_calling_the_handler() {
    let (client, runtime) = bounded_debug_bridge(1);
    let mut handler = Handler::new();
    let handle = client
        .submit(DebugCommand::status("intercepted", frame(41)))
        .expect("command queued");
    let reply = runtime
        .drain_one_with_interceptor(&mut handler, &|_command: &DebugCommand| {
            Some(DebugReplyProduct::Diagnostics(Vec::new()))
        })
        .expect("runtime drains")
        .expect("reply generated");

    assert_eq!(handler.calls, 0);
    assert!(matches!(reply.product, DebugReplyProduct::Diagnostics(_)));
    assert_eq!(handle.try_recv().expect("readable"), Some(reply));
}

fn presented_pixels(
    selector: slipway::screenshot::PresentedScreenshotSelector,
    captured_frame: FrameIdentity,
) -> slipway::screenshot::PresentedPixels {
    slipway::screenshot::PresentedPixels {
        selector,
        captured_frame,
        source: EvidenceSource::backend_presented(
            "test-backend",
            slipway::screenshot::presented_pixels_pass_id(),
        ),
        capture_path: slipway::screenshot::PresentedCapturePath::DirectAcquiredSurfaceTextureCopy,
        source_format: slipway::screenshot::PresentedSurfaceFormat::Rgba8UnormSrgb,
        transfer: slipway::screenshot::PresentedTransferFunction::Srgb,
        alpha: slipway::screenshot::PresentedAlphaMode::Opaque,
        width: 1,
        height: 1,
        bytes: vec![0, 0, 0, 255],
        diagnostics: Vec::new(),
    }
}

struct WrongAdmissionHandler;

impl SlipwayDebugCommandHandler for WrongAdmissionHandler {
    fn handle_debug_command(&mut self, command: DebugCommand) -> DebugReplyProduct {
        let correlation = command.frame_identity().clone();
        let mut captured = correlation.clone();
        captured.frame_index += 1;
        DebugReplyProduct::Screenshot(PresentedScreenshotProduct::Captured(presented_pixels(
            slipway::screenshot::PresentedScreenshotSelector::Exact {
                expected_frame: correlation,
            },
            captured,
        )))
    }
}

#[test]
fn bridge_retains_admission_after_handler_consumes_command() {
    let context = frame(80);
    let (client, runtime) = bounded_debug_bridge(1);
    let handle = client
        .submit(DebugCommand::screenshot(
            "wrong-admission",
            slipway::screenshot::PresentedScreenshotRequest {
                selector: slipway::screenshot::PresentedScreenshotSelector::Current {
                    request_context: context,
                },
            },
        ))
        .expect("command queued");
    runtime
        .drain_one(&mut WrongAdmissionHandler)
        .expect("runtime drains")
        .expect("reply generated");
    let reply = handle
        .try_recv()
        .expect("reply channel readable")
        .expect("reply available");

    let DebugReplyProduct::Error(failure) = reply.product else {
        panic!("wrong admission must become an error reply");
    };
    assert_eq!(failure.code, "screenshot-admission-mismatch");
}

#[test]
fn draining_an_empty_bridge_leaves_the_handler_untouched() {
    let (_client, runtime) = bounded_debug_bridge(1);
    let mut handler = Handler::new();
    assert!(runtime.drain_one(&mut handler).expect("bridge readable").is_none());
    assert_eq!(handler.calls, 0);
}
