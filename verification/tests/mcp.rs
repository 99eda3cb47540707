use serde_json::Value;
use slipway::bridge::{bounded_debug_bridge, DebugBridgeClient};
use slipway::begin::{DebugMcpBridgeMessage, DebugMcpResponseWork};
use slipway::command::{
    DebugCommand, DebugCommandKind, DebugPhysicalControl, DebugPhysicalControlDeclarationSelector,
    ProbeKind,
};
use slipway::evidence::{
    DeclaredEventDispatchEvidence, DeclaredEventDispatchKind, Diagnostic, DiagnosticSeverity,
    EvidenceSource,
};
use slipway::event_params::{parse_physical_control, MAX_COMPOSITION_UPDATES, MAX_COMPOSITION_UTF8_BYTES};
use slipway::frame::{Coord, FrameIdentity, Point};
use slipway::input::{InputEvent, PointerEventKind, TextCompositionEvent, TextCompositionPhase};
use slipway::json::{JsonNumber, JsonValue};
use slipway::mcp::{DebugMcpConfig, DebugMcpServer};
use slipway::params::{parse_frame, parse_probe_kind};
use slipway::payload::frame_json;
use slipway::products::{composition_trace_summary, probe_product_summary};
use slipway::reply::{
    CompositionPhaseProvenance, DebugCompositionIngressObservation, DebugCompositionPhaseTrace,
    DebugCompositionTrace, DebugControlTrace, DebugControlTraceStage, DebugMessageTraceEntry,
    DebugReply, DebugReplyProduct, DebugStatus, DispatchGraph, DispatchGraphChannel,
    DispatchGraphEdge, DispatchGraphEdgeKind, DispatchGraphNode, DispatchGraphNodeKind,
    EmittedMessage, EventResultIdentity, HitRegionOrder, McpProbeMethod, MessageDisposition,
    ProbeProduct, RenderProduct, RenderRefusal, ResultDiagnostic, SlipwayDebugCommandHandler,
};
use slipway::screenshot::{
    presented_pixels_pass_id, PresentedAlphaMode, PresentedCapturePath, PresentedPixels,
    PresentedScreenshotProduct, PresentedScreenshotRefusal, PresentedScreenshotSelector,
    PresentedSurfaceFormat, PresentedTransferFunction,
};
use slipway::server::{ArtifactReceipt, ArtifactWriteFailure};
use slipway::tool_params::{
    parse_presented_screenshot_request, RuntimeScreenshotSelector, ScreenshotParseOrigin,
};
use slipway::transport::{
    bounded_runtime_mcp, finalize_response_work, DebugMcpRuntimeTransportError,
};

const PROTOCOL_VERSION: &str = "2025-11-25";
const SERVER_NAME: &str = "slipway-debug-mcp";
const TOOL_STATUS: &str = "slipway.debug.status";
const TOOL_PROBE: &str = "slipway.debug.probe";
const TOOL_RENDER: &str = "slipway.debug.render";
const TOOL_SCREENSHOT: &str = "slipway.debug.screenshot";
const TOOL_CONTROL: &str = "slipway.debug.control";
const TOOL_PHYSICAL_CONTROL: &str = "slipway.debug.physical_control";
const TOOL_RESIZE: &str = "slipway.debug.resize";

// ---- JSON in and out of the library's value type -------------------------

fn js(text: &str) -> Value {
    serde_json::from_str(text).expect("test JSON parses")
}

fn to_library(value: &Value) -> JsonValue {
    match value {
        Value::Null => JsonValue::Null,
        Value::Bool(b) => JsonValue::Bool(*b),
        Value::Number(n) => JsonValue::Number(JsonNumber {
            as_u64: n.as_u64(),
            as_i64: n.as_i64(),
            f32_bits: (n.as_f64().unwrap_or(0.0) as f32).to_bits(),
            text: n.to_string(),
        }),
        Value::String(s) => JsonValue::String(s.clone()),
        Value::Array(items) => JsonValue::Array(items.iter().map(to_library).collect()),
        Value::Object(members) => JsonValue::Object(
            members.iter().map(|(k, v)| (k.clone(), to_library(v))).collect(),
        ),
    }
}

fn to_serde(value: &JsonValue) -> Value {
    match value {
        JsonValue::Null => Value::Null,
        JsonValue::Bool(b) => Value::Bool(*b),
        JsonValue::Number(n) => serde_json::from_str(&n.text).expect("number text"),
        JsonValue::UInt(u) => Value::from(*u),
        JsonValue::Int(i) => Value::from(*i),
        JsonValue::Float32(bits) => Value::from(f32::from_bits(*bits)),
        JsonValue::String(s) => Value::String(s.clone()),
        JsonValue::Array(items) => Value::Array(items.iter().map(to_serde).collect()),
        JsonValue::Object(members) => {
            let mut map = serde_json::Map::new();
            for (k, v) in members {
                map.insert(k.clone(), to_serde(v));
            }
            Value::Object(map)
        }
        JsonValue::Text(inner) => Value::String(to_serde(inner).to_string()),
    }
}

fn no_artifact(_pixels: &PresentedPixels) -> Result<ArtifactReceipt, ArtifactWriteFailure> {
    Err(ArtifactWriteFailure {
        invalid_rgba: false,
        detail: "no artifact store in this test".to_string(),
    })
}

fn handle<H: SlipwayDebugCommandHandler>(
    server: &DebugMcpServer,
    message: Value,
    handler: &mut H,
) -> Option<Value> {
    server
        .handle_message(to_library(&message), handler, &no_artifact)
        .map(|v| to_serde(&v))
}

fn handle_with_origin<H: SlipwayDebugCommandHandler>(
    server: &DebugMcpServer,
    message: Value,
    origin: ScreenshotParseOrigin,
    handler: &mut H,
) -> Option<Value> {
    server
        .handle_message_with_origin(to_library(&message), origin, handler, &no_artifact)
        .map(|v| to_serde(&v))
}

fn begin_bridge_message(
    server: &DebugMcpServer,
    message: &str,
    client: &DebugBridgeClient,
) -> DebugMcpBridgeMessage {
    server.begin_bridge_value(to_library(&js(message)), client)
}

fn immediate(message: DebugMcpBridgeMessage, what: &str) -> Value {
    match message {
        DebugMcpBridgeMessage::Immediate(Some(response)) => to_serde(&response),
        DebugMcpBridgeMessage::Immediate(None) => panic!("{what} must respond"),
        DebugMcpBridgeMessage::Pending(_) => panic!("{what} must not be pending"),
    }
}

fn finish(pending: &slipway::begin::DebugMcpPendingToolCall) -> Option<Value> {
    pending
        .try_finish(&no_artifact)
        .expect("pending finish should not fail")
        .map(|v| to_serde(&v))
}

// ---- fixtures --------------------------------------------------------------

fn frame_json_value() -> Value {
    js(r#"{
        "surface_id": "surface",
        "surface_instance_id": "instance",
        "revision": 7,
        "frame_index": 11,
        "viewport": {
            "origin": { "x": 0.0, "y": 0.0 },
            "size": { "width": 320.0, "height": 180.0 }
        }
    }"#)
}

fn frame() -> FrameIdentity {
    parse_frame(&to_library(&frame_json_value())).expect("test frame parses")
}

fn with_frame(mut arguments: Value) -> Value {
    arguments["frame"] = frame_json_value();
    arguments
}

fn frame_arguments() -> Value {
    with_frame(js("{}"))
}

fn request(id: Value, method: &str, params: Value) -> Value {
    let mut message = js(r#"{ "jsonrpc": "2.0" }"#);
    message["id"] = id;
    message["method"] = Value::from(method);
    message["params"] = params;
    message
}

fn call_request(id: Value, name: &str, arguments: Value) -> Value {
    let mut params = js("{}");
    params["name"] = Value::from(name);
    params["arguments"] = arguments;
    request(id, "tools/call", params)
}

fn control_arguments(trace: Option<bool>) -> Value {
    let mut arguments = with_frame(js(r#"{
        "event": { "type": "command", "target": "widget", "command": "activate" }
    }"#));
    if let Some(trace) = trace {
        arguments["trace"] = Value::from(trace);
    }
    arguments
}

fn physical_control_arguments() -> Value {
    with_frame(js(r#"{
        "operation": {
            "type": "pointer",
            "phase": "press",
            "position": { "x": 8.0, "y": 9.0 },
            "button": "primary",
            "device": "mouse"
        }
    }"#))
}

fn physical_text_control_arguments() -> Value {
    with_frame(js(r#"{
        "operation": { "type": "text", "target": "search", "text": "abc" }
    }"#))
}

fn render_arguments() -> Value {
    let mut packet = js(r#"{ "target": "widget", "paint": [] }"#);
    packet["frame"] = frame_json_value();
    let mut arguments = js("{}");
    arguments["packet"] = packet;
    arguments
}

fn render_arguments_without_target() -> Value {
    frame_arguments()
}

fn control_server() -> DebugMcpServer {
    DebugMcpServer::new(DebugMcpConfig {
        allow_status: true,
        allow_probe: false,
        allow_render: false,
        allow_screenshot: false,
        allow_control: true,
        allow_resize: false,
    })
}

fn render_server() -> DebugMcpServer {
    DebugMcpServer::new(DebugMcpConfig {
        allow_status: true,
        allow_probe: false,
        allow_render: true,
        allow_screenshot: true,
        allow_control: false,
        allow_resize: false,
    })
}

fn tool_payload(response: &Value) -> Value {
    let text = response["result"]["content"][0]["text"]
        .as_str()
        .expect("tool result text");
    serde_json::from_str(text).expect("tool result text is structured JSON")
}

#[derive(Default)]
struct FakeHandler {
    calls: Vec<DebugCommand>,
}

fn info(target: Option<String>, code: &str, message: &str) -> Diagnostic {
    Diagnostic {
        target,
        severity: DiagnosticSeverity::Info,
        code: code.to_string(),
        message: message.to_string(),
    }
}

impl SlipwayDebugCommandHandler for FakeHandler {
    fn handle_debug_command(&mut self, command: DebugCommand) -> DebugReplyProduct {
        let request_id = command.request_id.clone();
        self.calls.push(command.clone());
        match command.kind {
            DebugCommandKind::Status { .. } => DebugReplyProduct::Status(DebugStatus {
                admitted: true,
                detail: "fake handler ready".to_string(),
                revision: 3,
                backend_id: Some("fake-backend".to_string()),
                trace_buffer_depth: 1,
                trace_buffer_capacity: 32,
                refused_debug_replies: 2,
                unhandled_backend_input_traces: 4,
            }),
            DebugCommandKind::Probe { request, .. } => DebugReplyProduct::Probes(
                request
                    .kinds
                    .into_iter()
                    .map(|kind| {
                        ProbeProduct::Diagnostic(info(None, &format!("{kind:?}"), "probe observed"))
                    })
                    .collect(),
            ),
            DebugCommandKind::Render { packet } => {
                DebugReplyProduct::Render(RenderProduct::Refusal(RenderRefusal {
                    target: Some(packet.target),
                    frame: packet.frame,
                    source: Some(EvidenceSource::canonical_offscreen("fake-handler")),
                    provider_id: Some("fake-handler".to_string()),
                    reason: "fake handler has no renderer".to_string(),
                    diagnostics: Vec::new(),
                }))
            }
            DebugCommandKind::Screenshot { request } => DebugReplyProduct::Screenshot(
                PresentedScreenshotProduct::Refusal(PresentedScreenshotRefusal {
                    selector: request.selector,
                    captured_frame: None,
                    backend_id: Some("fake-backend".to_string()),
                    code: "screenshot-no-window".to_string(),
                    reason: "fake handler has no visible window".to_string(),
                    diagnostics: Vec::new(),
                }),
            ),
            DebugCommandKind::Control { frame, event, trace } => {
                if trace {
                    let target = event.target().clone();
                    DebugReplyProduct::ControlTrace(
                        DebugControlTrace::new(
                            &request_id,
                            frame,
                            &event,
                            String::new(),
                            true,
                            7,
                            8,
                            vec![info(
                                Some(target.clone()),
                                "traced",
                                "trace captured by fake handler",
                            )],
                        )
                        .with_messages(vec![DebugMessageTraceEntry::emitted(
                            &target,
                            "fake-message",
                            MessageDisposition::Consumed,
                        )])
                        .with_result_identity(EventResultIdentity {
                            handled: true,
                            emitted_messages: vec![EmittedMessage {
                                target: target.clone(),
                                name: "fake-message".to_string(),
                            }],
                            change_shapes: Vec::new(),
                            diagnostics: vec![ResultDiagnostic {
                                target: Some(target.clone()),
                                severity: DiagnosticSeverity::Info,
                                code: "traced".to_string(),
                            }],
                        })
                        .with_reduction_stage(DebugControlTraceStage::reduced(
                            "fake-handler",
                            Some(target),
                            "fake handler reduced one emitted message",
                        )),
                    )
                } else {
                    DebugReplyProduct::Diagnostics(vec![info(
                        None,
                        "received",
                        "command reached fake handler",
                    )])
                }
            }
            DebugCommandKind::PhysicalControl { .. } => DebugReplyProduct::Diagnostics(vec![info(
                None,
                "received",
                "physical control command reached fake handler",
            )]),
            DebugCommandKind::Resize { .. } => DebugReplyProduct::Diagnostics(vec![info(
                None,
                "received",
                "command reached fake handler",
            )]),
        }
    }
}

fn tools_list(server: &DebugMcpServer) -> Vec<Value> {
    let mut handler = FakeHandler::default();
    let response = handle(
        server,
        request(Value::from("tools"), "tools/list", js("{}")),
        &mut handler,
    )
    .expect("tools/list has response");
    response["result"]["tools"].as_array().expect("tools array").clone()
}

// ---- tests -----------------------------------------------------------------

#[test]
fn dispatch_graph_probe_kind_parses_and_serializes_nodes_and_edges() {
    assert_eq!(
        parse_probe_kind("dispatch_graph").expect("snake case parses"),
        ProbeKind::DispatchGraph
    );
    assert_eq!(
        parse_probe_kind("dispatchGraph").expect("camel case parses"),
        ProbeKind::DispatchGraph
    );

    let frame = frame();
    let probe = ProbeProduct::DispatchGraph {
        target: "graph-root".to_string(),
        frame: frame.clone(),
        graph: DispatchGraph {
            target: "graph-root".to_string(),
            nodes: vec![DispatchGraphNode {
                id: "hit-a".to_string(),
                kind: DispatchGraphNodeKind::Hit,
                target: "graph-root".to_string(),
                address: None,
                bounds: frame.viewport,
                order: HitRegionOrder::default(),
                enabled: true,
                capture: Some("DuringDrag".to_string()),
                consumes_wheel: None,
                blocks_pointer: None,
                blocks_wheel: None,
            }],
            edges: vec![DispatchGraphEdge {
                kind: DispatchGraphEdgeKind::Occlusion,
                channel: DispatchGraphChannel::Wheel,
                from: "occlusion:graph-root:10:0:0:0".to_string(),
                to: "scroll-root".to_string(),
            }],
        },
    };

    let summary = to_serde(&probe_product_summary(&probe));
    assert_eq!(summary["kind"], "dispatch_graph");
    assert_eq!(summary["target"], "graph-root");
    assert_eq!(summary["frame"]["frame_index"], 11);
    assert_eq!(summary["graph"]["nodes"][0]["id"], "hit-a");
    assert_eq!(summary["graph"]["nodes"][0]["kind"], "hit");
    assert_eq!(summary["graph"]["nodes"][0]["capture"], "DuringDrag");
    assert_eq!(summary["graph"]["edges"][0]["kind"], "occlusion");
    assert_eq!(summary["graph"]["edges"][0]["channel"], "wheel");
    assert_eq!(
        summary["graph"]["edges"][0]["from"],
        "occlusion:graph-root:10:0:0:0"
    );
    assert_eq!(summary["graph"]["edges"][0]["to"], "scroll-root");
}

#[test]
fn initialize_result_contains_protocol_server_info_and_tools_capability() {
    let server = DebugMcpServer::new(DebugMcpConfig::default());
    let mut handler = FakeHandler::default();
    let response = handle(
        &server,
        request(Value::from(1), "initialize", js("{}")),
        &mut handler,
    );

    let response = response.expect("initialize has response");
    assert_eq!(response["result"]["protocolVersion"], PROTOCOL_VERSION);
    assert_eq!(response["result"]["serverInfo"]["name"], SERVER_NAME);
    assert!(response["result"]["capabilities"]["tools"].is_object());
}

#[test]
fn begin_bridge_initialize_returns_immediate_initialize_response() {
    let server = DebugMcpServer::new(DebugMcpConfig::default());
    let (client, _runtime) = bounded_debug_bridge(1);
    let message = request(Value::from(1), "initialize", js("{}")).to_string();

    let response = immediate(begin_bridge_message(&server, &message, &client), "initialize");

    assert_eq!(response["result"]["protocolVersion"], PROTOCOL_VERSION);
    assert_eq!(response["result"]["serverInfo"]["name"], SERVER_NAME);
    assert!(response["result"]["capabilities"]["tools"].is_object());
}

#[test]
fn tools_list_returns_default_debug_tools() {
    let server = DebugMcpServer::new(DebugMcpConfig::default());
    let tools = tools_list(&server);
    let names = tools
        .iter()
        .map(|tool| tool["name"].as_str().expect("tool name"))
        .collect::<Vec<_>>();

    assert_eq!(
        names,
        vec![
            TOOL_STATUS,
            TOOL_PROBE,
            TOOL_RENDER,
            TOOL_SCREENSHOT,
            TOOL_CONTROL,
            TOOL_PHYSICAL_CONTROL,
            TOOL_RESIZE
        ]
    );
    assert!(tools.iter().all(|tool| tool["inputSchema"].is_object()));
}

#[test]
fn tools_list_render_and_screenshot_target_is_optional() {
    let server = DebugMcpServer::new(DebugMcpConfig::default());
    let tools = tools_list(&server);
    let render = tools
        .iter()
        .find(|tool| tool["name"] == TOOL_RENDER)
        .expect("render tool exists")["inputSchema"]
        .clone();
    assert_eq!(render["required"], js(r#"["frame"]"#));
    assert_eq!(render["properties"]["target"]["type"], "string");

    let screenshot = tools
        .iter()
        .find(|tool| tool["name"] == TOOL_SCREENSHOT)
        .expect("screenshot tool exists")["inputSchema"]
        .clone();
    assert!(screenshot.get("required").is_none());
    assert_eq!(screenshot["properties"]["target"]["type"], "string");
    assert_eq!(
        screenshot["properties"]["frame"]["oneOf"][1]["enum"],
        js(r#"["current", "last"]"#)
    );
    let schema_text = screenshot.to_string();
    assert!(!schema_text.contains("_slipway_frame_admission"));
    assert!(!schema_text.contains("continu"));
}

#[test]
fn screenshot_parser_enforces_out_of_band_origin() {
    let exact = parse_presented_screenshot_request(
        &to_library(&frame_arguments()),
        ScreenshotParseOrigin::Direct,
    )
    .expect("direct concrete frame parses");
    assert_eq!(
        exact.selector,
        PresentedScreenshotSelector::Exact {
            expected_frame: frame()
        }
    );

    for frame_value in [None, Some(Value::from("current")), Some(Value::from("last"))] {
        let mut arguments = js("{}");
        if let Some(frame_value) = frame_value {
            arguments["frame"] = frame_value;
        }
        assert!(parse_presented_screenshot_request(
            &to_library(&arguments),
            ScreenshotParseOrigin::Direct
        )
        .is_err());
    }

    let forged = with_frame(js(r#"{ "_slipway_frame_admission": "current" }"#));
    assert!(
        parse_presented_screenshot_request(&to_library(&forged), ScreenshotParseOrigin::Direct)
            .is_err()
    );

    let current = parse_presented_screenshot_request(
        &to_library(&frame_arguments()),
        ScreenshotParseOrigin::RuntimeNormalized(RuntimeScreenshotSelector::Current),
    )
    .expect("trusted runtime origin parses");
    assert_eq!(
        current.selector,
        PresentedScreenshotSelector::Current {
            request_context: frame()
        }
    );
}

#[test]
fn screenshot_sync_async_refusals_preserve_identical_selectors() {
    let vectors = [
        (ScreenshotParseOrigin::Direct, "exact", "expected_frame"),
        (
            ScreenshotParseOrigin::RuntimeNormalized(RuntimeScreenshotSelector::Current),
            "current",
            "request_context",
        ),
    ];

    for (origin, admission, selector_field) in vectors {
        for (config, target, expected_code) in [
            (DebugMcpConfig::default(), None, "screenshot-denied"),
            (
                DebugMcpConfig::admitted(),
                Some("not-the-root"),
                "screenshot-target-unsupported",
            ),
        ] {
            let server = DebugMcpServer::new(config);
            let mut arguments = frame_arguments();
            if let Some(target) = target {
                arguments["target"] = Value::from(target);
            }
            let message =
                call_request(Value::from("selector-vector"), TOOL_SCREENSHOT, arguments);
            let mut handler = FakeHandler::default();
            let sync = handle_with_origin(&server, message.clone(), origin, &mut handler)
                .expect("sync refusal responds");
            assert!(handler.calls.is_empty());

            let (client, runtime) = bounded_debug_bridge(1);
            let asynchronous = immediate(
                server.begin_bridge_value_with_origin(to_library(&message), origin, &client),
                "refusal",
            );
            assert!(runtime.take_one().expect("bridge readable").is_none());

            let sync = tool_payload(&sync);
            let asynchronous = tool_payload(&asynchronous);
            assert_eq!(sync, asynchronous);
            assert_eq!(sync["admission"], admission);
            assert_eq!(sync["selector"]["kind"], admission);
            assert!(sync["selector"].get(selector_field).is_some());
            assert_eq!(sync["requested_frame"], frame_json_value());
            assert!(sync["captured_frame"].is_null());
            assert_eq!(sync["refusal"]["code"], expected_code);
        }
    }
}

#[test]
fn screenshot_sync_async_malformed_vectors_match() {
    let server = DebugMcpServer::new(DebugMcpConfig::admitted());
    for arguments in [
        js("{}"),
        js(r#"{ "frame": "current" }"#),
        with_frame(js(r#"{ "_slipway_frame_admission": "current" }"#)),
    ] {
        let message = call_request(Value::from("malformed-vector"), TOOL_SCREENSHOT, arguments);
        let mut handler = FakeHandler::default();
        let sync = handle(&server, message.clone(), &mut handler).expect("sync parse error responds");
        let (client, runtime) = bounded_debug_bridge(1);
        let asynchronous = immediate(
            server.begin_bridge_value(to_library(&message), &client),
            "parse error",
        );
        assert_eq!(sync["error"], asynchronous["error"]);
        assert!(handler.calls.is_empty());
        assert!(runtime.take_one().expect("bridge readable").is_none());
    }
}

struct WrongAdmissionHandler;

impl SlipwayDebugCommandHandler for WrongAdmissionHandler {
    fn handle_debug_command(&mut self, command: DebugCommand) -> DebugReplyProduct {
        let correlation = command.frame_identity().clone();
        DebugReplyProduct::Screenshot(PresentedScreenshotProduct::Refusal(
            PresentedScreenshotRefusal {
                selector: PresentedScreenshotSelector::Exact {
                    expected_frame: correlation,
                },
                captured_frame: None,
                backend_id: None,
                code: "wrong-admission".to_string(),
                reason: "test handler changed selector admission".to_string(),
                diagnostics: Vec::new(),
            },
        ))
    }
}

#[test]
fn synchronous_handler_retains_admitted_screenshot_origin() {
    let server = DebugMcpServer::new(DebugMcpConfig::admitted());
    let message = call_request(Value::from("handler-origin"), TOOL_SCREENSHOT, frame_arguments());
    let response = handle_with_origin(
        &server,
        message,
        ScreenshotParseOrigin::RuntimeNormalized(RuntimeScreenshotSelector::Current),
        &mut WrongAdmissionHandler,
    )
    .expect("synchronous call responds");
    let payload = tool_payload(&response);
    assert_eq!(payload["product_kind"], "error");
    assert_eq!(payload["product"]["code"], "screenshot-admission-mismatch");
}

#[test]
fn tools_list_describes_screenshot_and_resize_honestly() {
    let server = DebugMcpServer::new(DebugMcpConfig::default());
    let tools = tools_list(&server);
    let screenshot = tools
        .iter()
        .find(|tool| tool["name"] == TOOL_SCREENSHOT)
        .expect("screenshot tool exists");
    let description = screenshot["description"]
        .as_str()
        .expect("screenshot description");
    assert!(
        description.contains("acquired surface texture"),
        "screenshot description must name direct presented capture: {description}"
    );
    assert!(
        !description.contains("offscreen"),
        "screenshot description must stay distinct from canonical render: {description}"
    );

    let resize = tools
        .iter()
        .find(|tool| tool["name"] == TOOL_RESIZE)
        .expect("resize tool exists");
    let description = resize["description"].as_str().expect("resize description");
    assert!(
        description.contains("resize-unsupported"),
        "resize description must state the refusal contract: {description}"
    );
}

const DENIED: [(&str, &str); 7] = [
    (TOOL_STATUS, "status-denied"),
    (TOOL_PROBE, "probe-denied"),
    (TOOL_RENDER, "render-denied"),
    (TOOL_SCREENSHOT, "screenshot-denied"),
    (TOOL_CONTROL, "control-denied"),
    (TOOL_PHYSICAL_CONTROL, "control-denied"),
    (TOOL_RESIZE, "resize-denied"),
];

#[test]
fn denied_status_probe_render_control_and_resize_return_refusal_content() {
    let server = DebugMcpServer::new(DebugMcpConfig::default());
    let mut handler = FakeHandler::default();

    for (tool, expected_code) in DENIED {
        let response = handle(
            &server,
            call_request(Value::from(tool), tool, frame_arguments()),
            &mut handler,
        )
        .expect("tools/call has response");
        let payload = tool_payload(&response);

        assert_eq!(payload["tool"], tool);
        assert_eq!(payload["admitted"], false);
        assert_eq!(payload["refused"], true);
        assert_eq!(payload["product_kind"], "refusal");
        assert_eq!(payload["refusal"]["code"], expected_code);
    }

    assert!(handler.calls.is_empty());
}

#[test]
fn begin_bridge_refused_status_probe_render_control_and_resize_do_not_touch_bridge() {
    let server = DebugMcpServer::new(DebugMcpConfig::default());
    let (client, runtime) = bounded_debug_bridge(3);

    for (tool, expected_code) in DENIED {
        let message = call_request(Value::from(tool), tool, frame_arguments()).to_string();
        let response = immediate(
            begin_bridge_message(&server, &message, &client),
            "refused tools/call",
        );
        let payload = tool_payload(&response);

        assert_eq!(payload["tool"], tool);
        assert_eq!(payload["admitted"], false);
        assert_eq!(payload["refused"], true);
        assert_eq!(payload["product_kind"], "refusal");
        assert_eq!(payload["refusal"]["code"], expected_code);
    }

    let mut handler = FakeHandler::default();
    let drained = runtime.drain_one(&mut handler).expect("drain succeeds");
    assert!(drained.is_none());
    assert!(handler.calls.is_empty());
}

fn expect_screenshot_command(command: &DebugCommand) {
    match &command.kind {
        DebugCommandKind::Screenshot { request } => {
            assert_eq!(
                request.selector,
                PresentedScreenshotSelector::Exact {
                    expected_frame: frame()
                }
            );
        }
        other => panic!("expected screenshot command, got {other:?}"),
    }
}

#[test]
fn admitted_screenshot_uses_distinct_command_and_method() {
    let server = DebugMcpServer::new(DebugMcpConfig::admitted());
    let mut handler = FakeHandler::default();

    let response = handle(
        &server,
        call_request(
            Value::from("shot-direct"),
            TOOL_SCREENSHOT,
            render_arguments_without_target(),
        ),
        &mut handler,
    )
    .expect("tools/call has response");
    let payload = tool_payload(&response);

    assert_eq!(handler.calls.len(), 1);
    expect_screenshot_command(&handler.calls[0]);
    assert_eq!(payload["tool"], TOOL_SCREENSHOT);
    assert_eq!(payload["bridge_method"], "screenshot");
    assert_eq!(payload["request_id"], "shot-direct");
    assert_eq!(payload["admitted"], true);
    assert_eq!(payload["refused"], true);
    assert_eq!(payload["product_kind"], "screenshot_refusal");
    assert_eq!(payload["product"]["admission"], "exact");
    assert_eq!(payload["product"]["selector"]["kind"], "exact");
    assert_eq!(
        payload["product"]["selector"]["expected_frame"],
        frame_json_value()
    );
    assert!(payload["product"]["captured_frame"].is_null());
}

#[test]
fn admitted_screenshot_refuses_non_root_target_before_handler() {
    let server = render_server();
    let mut handler = FakeHandler::default();
    let mut arguments = frame_arguments();
    arguments["target"] = Value::from("widget");
    let response = handle(
        &server,
        call_request(Value::from("shot-target"), TOOL_SCREENSHOT, arguments),
        &mut handler,
    )
    .expect("tools/call has response");
    let payload = tool_payload(&response);

    assert!(handler.calls.is_empty());
    assert_eq!(payload["refusal"]["code"], "screenshot-target-unsupported");
}

#[test]
fn admitted_render_preserves_explicit_target_and_rejects_bad_target() {
    let server = render_server();
    let mut handler = FakeHandler::default();

    handle(
        &server,
        call_request(Value::from("explicit"), TOOL_RENDER, render_arguments()),
        &mut handler,
    )
    .expect("explicit target call has response");
    match &handler.calls[0].kind {
        DebugCommandKind::Render { packet } => {
            assert_eq!(packet.target, "widget");
        }
        other => panic!("expected render command, got {other:?}"),
    }

    let mut arguments = frame_arguments();
    arguments["target"] = Value::from(123);
    let response = handle(
        &server,
        call_request(Value::from("bad-target"), TOOL_RENDER, arguments),
        &mut handler,
    )
    .expect("bad target returns response");
    assert_eq!(response["error"]["code"], -32602);
    assert_eq!(
        response["error"]["message"],
        "field `target` must be a string"
    );
}

fn pending_of(message: DebugMcpBridgeMessage, what: &str) -> slipway::begin::DebugMcpPendingToolCall {
    match message {
        DebugMcpBridgeMessage::Pending(pending) => pending,
        DebugMcpBridgeMessage::Immediate(response) => {
            panic!("{what} should be pending, got {response:?}")
        }
    }
}

#[test]
fn bridged_screenshot_uses_screenshot_method_and_payload_shape() {
    let server = render_server();
    let (client, runtime) = bounded_debug_bridge(1);
    let message = call_request(
        Value::from("shot-bridge"),
        TOOL_SCREENSHOT,
        render_arguments_without_target(),
    )
    .to_string();

    let pending = pending_of(
        begin_bridge_message(&server, &message, &client),
        "admitted screenshot",
    );

    assert_eq!(pending.tool_name(), TOOL_SCREENSHOT);
    assert_eq!(pending.method(), McpProbeMethod::Screenshot);
    assert_eq!(pending.request_id(), "shot-bridge");

    let mut handler = FakeHandler::default();
    runtime
        .drain_one(&mut handler)
        .expect("runtime drains")
        .expect("screenshot reply generated");
    expect_screenshot_command(&handler.calls[0]);
    let response = finish(&pending).expect("reply is available after app drain");
    let payload = tool_payload(&response);

    assert_eq!(payload["tool"], TOOL_SCREENSHOT);
    assert_eq!(payload["bridge_method"], "screenshot");
    assert_eq!(payload["product_kind"], "screenshot_refusal");
}

#[test]
fn bridged_screenshot_accepts_frame_only_and_default_target() {
    let server = render_server();
    let (client, runtime) = bounded_debug_bridge(1);
    let message = call_request(
        Value::from("shot-frame-only"),
        TOOL_SCREENSHOT,
        render_arguments_without_target(),
    )
    .to_string();

    let pending = pending_of(
        begin_bridge_message(&server, &message, &client),
        "admitted screenshot",
    );

    let mut handler = FakeHandler::default();
    runtime
        .drain_one(&mut handler)
        .expect("runtime drains")
        .expect("screenshot reply generated");
    expect_screenshot_command(&handler.calls[0]);
    let response = finish(&pending).expect("reply is available after app drain");
    let payload = tool_payload(&response);

    assert_eq!(payload["tool"], TOOL_SCREENSHOT);
    assert_eq!(payload["bridge_method"], "screenshot");
}

fn captured_pixels(selector: PresentedScreenshotSelector, bytes: Vec<u8>) -> PresentedPixels {
    let mut captured_frame = match &selector {
        PresentedScreenshotSelector::Exact { expected_frame } => expected_frame.clone(),
        PresentedScreenshotSelector::Current { request_context } => request_context.clone(),
    };
    captured_frame.frame_index += 1;
    PresentedPixels {
        selector,
        captured_frame,
        source: EvidenceSource::backend_presented("test-backend", presented_pixels_pass_id()),
        capture_path: PresentedCapturePath::DirectAcquiredSurfaceTextureCopy,
        source_format: PresentedSurfaceFormat::Rgba8UnormSrgb,
        transfer: PresentedTransferFunction::Srgb,
        alpha: PresentedAlphaMode::Opaque,
        width: 1,
        height: 1,
        bytes,
        diagnostics: Vec::new(),
    }
}

struct CapturedHandler;

impl SlipwayDebugCommandHandler for CapturedHandler {
    fn handle_debug_command(&mut self, command: DebugCommand) -> DebugReplyProduct {
        let DebugCommandKind::Screenshot { request } = command.kind else {
            panic!("captured handler only accepts screenshot commands")
        };
        DebugReplyProduct::Screenshot(PresentedScreenshotProduct::Captured(captured_pixels(
            request.selector,
            vec![17, 34, 51, 255],
        )))
    }
}

fn receipt_writer(pixels: &PresentedPixels) -> Result<ArtifactReceipt, ArtifactWriteFailure> {
    Ok(ArtifactReceipt {
        artifact_ref: format!("slipway-debug-renderer://presented/{}x{}", pixels.width, pixels.height),
        artifact_path: "/artifacts/presented.png".to_string(),
        pixel_hash: "fnv1a64:0000000000000000".to_string(),
    })
}

#[test]
fn presented_screenshot_finalizer_writes_artifact_without_serializing_raw_bytes() {
    let server = render_server();
    let mut handler = CapturedHandler;
    let response = server
        .handle_message(
            to_library(&call_request(
                Value::from("shot-artifact"),
                TOOL_SCREENSHOT,
                render_arguments_without_target(),
            )),
            &mut handler,
            &receipt_writer,
        )
        .map(|v| to_serde(&v))
        .expect("screenshot responds");
    let payload = tool_payload(&response);
    assert_eq!(payload["product_kind"], "presented_screenshot");
    assert_eq!(payload["bridge_method"], "screenshot");
    assert_eq!(payload["product"]["admission"], "exact");
    assert_eq!(payload["product"]["selector"]["kind"], "exact");
    assert_eq!(payload["product"]["width"], 1);
    assert!(payload["product"]["artifact_ref"]
        .as_str()
        .expect("artifact ref")
        .starts_with("slipway-debug-renderer://"));
    assert_eq!(payload["product"]["artifact_path"], "/artifacts/presented.png");
    assert!(!payload.to_string().contains("\"bytes\""));
}

fn invalid_rgba_writer(_pixels: &PresentedPixels) -> Result<ArtifactReceipt, ArtifactWriteFailure> {
    Err(ArtifactWriteFailure {
        invalid_rgba: true,
        detail: "byte length mismatch".to_string(),
    })
}

#[test]
fn presented_screenshot_with_unwritable_artifact_becomes_refusal() {
    let server = render_server();
    let message = call_request(
        Value::from("shot-no-store"),
        TOOL_SCREENSHOT,
        render_arguments_without_target(),
    );
    let write_failed = server
        .handle_message(to_library(&message), &mut CapturedHandler, &no_artifact)
        .map(|v| to_serde(&v))
        .expect("screenshot responds");
    let payload = tool_payload(&write_failed);
    assert_eq!(payload["product_kind"], "screenshot_refusal");
    assert_eq!(payload["refused"], true);
    assert_eq!(payload["product"]["captured_frame"]["frame_index"], 12);
    assert!(payload.to_string().contains("screenshot-artifact-write-failed"));
    assert!(!payload.to_string().contains("\"bytes\""));

    let invalid = server
        .handle_message(to_library(&message), &mut CapturedHandler, &invalid_rgba_writer)
        .map(|v| to_serde(&v))
        .expect("screenshot responds");
    let payload = tool_payload(&invalid);
    assert_eq!(payload["product_kind"], "screenshot_refusal");
    assert!(payload.to_string().contains("screenshot-artifact-invalid-rgba"));
}

#[test]
fn admitted_status_reaches_handler_and_returns_status_product() {
    let server = DebugMcpServer::new(DebugMcpConfig::admitted());
    let mut handler = FakeHandler::default();

    let response = handle(
        &server,
        call_request(Value::from("status-1"), TOOL_STATUS, frame_arguments()),
        &mut handler,
    )
    .expect("tools/call has response");
    let payload = tool_payload(&response);

    assert_eq!(handler.calls.len(), 1);
    assert_eq!(payload["tool"], TOOL_STATUS);
    assert_eq!(payload["request_id"], "status-1");
    assert_eq!(payload["admitted"], true);
    assert_eq!(payload["product_kind"], "status");
    assert_eq!(payload["product"]["detail"], "fake handler ready");
    assert_eq!(payload["product"]["revision"], 3);
    assert_eq!(payload["product"]["backend_id"], "fake-backend");
    assert_eq!(payload["product"]["trace_buffer_depth"], 1);
    assert_eq!(payload["product"]["trace_buffer_capacity"], 32);
    assert_eq!(payload["product"]["refused_debug_replies"], 2);
    assert_eq!(payload["product"]["unhandled_backend_input_traces"], 4);
    assert_eq!(payload["frame"], to_serde(&frame_json(&frame())));
}

fn admitted_probe_event_limit_call(arguments: Value) -> Result<Option<usize>, Value> {
    let server = DebugMcpServer::new(DebugMcpConfig::admitted());
    let mut handler = FakeHandler::default();
    let response = handle(
        &server,
        call_request(Value::from("probe-limit"), TOOL_PROBE, arguments),
        &mut handler,
    )
    .expect("tools/call has response");
    if response.get("error").is_some() {
        return Err(response);
    }
    assert_eq!(handler.calls.len(), 1);
    match &handler.calls[0].kind {
        DebugCommandKind::Probe { request, .. } => Ok(request.event_trace_limit),
        other => panic!("expected probe command, got {other:?}"),
    }
}

fn probe_arguments(extra: &str) -> Value {
    with_frame(js(&format!(r#"{{ "kinds": ["event"]{extra} }}"#)))
}

#[test]
fn admitted_probe_event_trace_limit_absent_means_runtime_default() {
    let limit = admitted_probe_event_limit_call(probe_arguments("")).expect("probe accepted");
    assert_eq!(limit, None);
}

#[test]
fn admitted_probe_event_trace_limit_accepts_canonical_and_aliases() {
    let canonical = admitted_probe_event_limit_call(probe_arguments(r#", "event_trace_limit": 2"#))
        .expect("canonical limit accepted");
    let camel = admitted_probe_event_limit_call(probe_arguments(r#", "eventTraceLimit": 3"#))
        .expect("camel alias accepted");
    let short = admitted_probe_event_limit_call(probe_arguments(r#", "eventLimit": 4"#))
        .expect("short alias accepted");

    assert_eq!(canonical, Some(2));
    assert_eq!(camel, Some(3));
    assert_eq!(short, Some(4));
}

#[test]
fn admitted_probe_event_trace_limit_accepts_identical_aliases() {
    let limit = admitted_probe_event_limit_call(probe_arguments(
        r#", "event_trace_limit": 5, "eventLimit": 5"#,
    ))
    .expect("identical aliases accepted");

    assert_eq!(limit, Some(5));
}

#[test]
fn admitted_probe_event_trace_limit_rejects_conflicting_aliases() {
    let response = admitted_probe_event_limit_call(probe_arguments(
        r#", "event_trace_limit": 5, "eventLimit": 6"#,
    ))
    .expect_err("conflicting aliases are invalid");

    assert_eq!(response["error"]["code"], -32602);
    assert!(response["error"]["message"]
        .as_str()
        .expect("message")
        .contains("conflicting event trace limit aliases"));
}

#[test]
fn admitted_probe_event_trace_limit_rejects_invalid_values() {
    for invalid in ["-1", "1.5", r#""2""#, "null", "1e40"] {
        let response = admitted_probe_event_limit_call(probe_arguments(&format!(
            r#", "event_trace_limit": {invalid}"#
        )))
        .expect_err("invalid limit is rejected");

        assert_eq!(response["error"]["code"], -32602);
        assert!(response["error"]["message"]
            .as_str()
            .expect("message")
            .contains("event_trace_limit"));
    }
}

#[test]
fn admitted_bridge_status_drains_and_finishes_as_direct_status_response() {
    let server = DebugMcpServer::new(DebugMcpConfig::admitted());
    let (client, runtime) = bounded_debug_bridge(1);
    let message = call_request(Value::from("status-bridge"), TOOL_STATUS, frame_arguments());

    let pending = pending_of(
        begin_bridge_message(&server, &message.to_string(), &client),
        "admitted status",
    );

    assert_eq!(
        pending.id(),
        Some(&JsonValue::String("status-bridge".to_string()))
    );
    assert_eq!(pending.tool_name(), TOOL_STATUS);
    assert_eq!(pending.method(), McpProbeMethod::Status);
    assert_eq!(pending.request_id(), "status-bridge");
    assert!(finish(&pending).is_none());

    let mut bridge_handler = FakeHandler::default();
    runtime
        .drain_one(&mut bridge_handler)
        .expect("runtime drains")
        .expect("status reply generated");

    let bridge_response = finish(&pending).expect("reply is available after app drain");

    let mut direct_handler = FakeHandler::default();
    let direct_response =
        handle(&server, message, &mut direct_handler).expect("direct status response");

    assert_eq!(bridge_handler.calls.len(), 1);
    assert_eq!(direct_handler.calls.len(), 1);
    assert_eq!(bridge_response, direct_response);
}

#[test]
fn admitted_control_without_trace_stays_diagnostics_product() {
    let server = control_server();
    let mut handler = FakeHandler::default();

    for (request_id, trace) in [("control", None), ("control-false", Some(false))] {
        let response = handle(
            &server,
            call_request(Value::from(request_id), TOOL_CONTROL, control_arguments(trace)),
            &mut handler,
        )
        .expect("control response");
        let payload = tool_payload(&response);

        match &handler.calls.last().expect("handler call").kind {
            DebugCommandKind::Control { trace, .. } => {
                assert!(!trace);
            }
            other => panic!("expected control command, got {other:?}"),
        }
        assert_eq!(payload["tool"], TOOL_CONTROL);
        assert_eq!(payload["request_id"], request_id);
        assert_eq!(payload["product_kind"], "diagnostics");
        assert_eq!(payload["product"]["count"], 1);
    }
    assert_eq!(handler.calls.len(), 2);
}

#[test]
fn admitted_control_with_trace_returns_structured_trace_json() {
    let server = control_server();
    let mut handler = FakeHandler::default();

    let response = handle(
        &server,
        call_request(
            Value::from("control-trace"),
            TOOL_CONTROL,
            control_arguments(Some(true)),
        ),
        &mut handler,
    )
    .expect("control trace response");
    let payload = tool_payload(&response);

    assert_eq!(handler.calls.len(), 1);
    match &handler.calls[0].kind {
        DebugCommandKind::Control { trace, .. } => {
            assert!(*trace);
        }
        other => panic!("expected control command, got {other:?}"),
    }
    assert_eq!(payload["product_kind"], "control_trace");
    assert_eq!(payload["product"]["request_id"], "control-trace");
    assert_eq!(payload["product"]["mode"], "semantic_direct");
    assert_eq!(payload["product"]["physical_equivalent"], false);
    assert_eq!(payload["product"]["routed_event_target"], "widget");
    assert_eq!(payload["product"]["event_summary"], "command:activate");
    assert_eq!(payload["product"]["handled"], true);
    assert_eq!(payload["product"]["revision_before"], 7);
    assert_eq!(payload["product"]["revision_after"], 8);
    let stages = payload["product"]["stages"]
        .as_array()
        .expect("control trace stages");
    assert_eq!(stages.len(), 4);
    assert_eq!(stages[0]["stage"], "generated");
    assert_eq!(stages[0]["actor"], "slipway-debug-control");
    assert_eq!(stages[0]["target"], "widget");
    assert_eq!(stages[1]["stage"], "routed");
    assert_eq!(stages[1]["actor"], "slipway-runtime");
    assert_eq!(stages[1]["target"], "widget");
    assert_eq!(stages[2]["stage"], "consumed");
    assert_eq!(stages[2]["actor"], "slipway-widget");
    assert_eq!(stages[2]["target"], "widget");
    assert_eq!(stages[3]["stage"], "reduced");
    assert_eq!(stages[3]["actor"], "fake-handler");
    assert_eq!(stages[3]["target"], "widget");
    assert_eq!(payload["product"]["messages"][0]["source"], "widget");
    assert_eq!(payload["product"]["messages"][0]["name"], "fake-message");
    assert_eq!(payload["product"]["messages"][0]["disposition"], "Consumed");
    assert_eq!(payload["product"]["result_identity"]["handled"], true);
    assert_eq!(
        payload["product"]["result_identity"]["emitted_messages"][0]["name"],
        "fake-message"
    );
    assert_eq!(
        payload["product"]["result_identity"]["diagnostics"][0]["code"],
        "traced"
    );
    assert_eq!(payload["product"]["diagnostics"][0]["code"], "traced");
}

fn coord(value: f32) -> Coord {
    Coord { bits: value.to_bits() }
}

#[test]
fn admitted_physical_control_submits_physical_command() {
    let server = control_server();
    let mut handler = FakeHandler::default();

    let response = handle(
        &server,
        call_request(
            Value::from("physical-control"),
            TOOL_PHYSICAL_CONTROL,
            physical_control_arguments(),
        ),
        &mut handler,
    )
    .expect("physical control response");
    let payload = tool_payload(&response);

    assert_eq!(handler.calls.len(), 1);
    match &handler.calls[0].kind {
        DebugCommandKind::PhysicalControl { operation, trace, .. } => {
            assert!(*trace);
            match operation {
                DebugPhysicalControl::Pointer { position, kind, .. } => {
                    assert_eq!(*position, Point { x: coord(8.0), y: coord(9.0) });
                    assert_eq!(*kind, PointerEventKind::Press);
                }
                other => panic!("expected pointer physical control, got {other:?}"),
            }
        }
        other => panic!("expected physical control command, got {other:?}"),
    }
    assert_eq!(payload["tool"], TOOL_PHYSICAL_CONTROL);
    assert_eq!(payload["bridge_method"], "control");
    assert_eq!(payload["product_kind"], "diagnostics");
}

#[test]
fn admitted_physical_text_control_submits_declaration_resolved_operation() {
    let server = control_server();
    let mut handler = FakeHandler::default();

    let response = handle(
        &server,
        call_request(
            Value::from("physical-text"),
            TOOL_PHYSICAL_CONTROL,
            physical_text_control_arguments(),
        ),
        &mut handler,
    )
    .expect("physical text response");
    let payload = tool_payload(&response);

    assert_eq!(handler.calls.len(), 1);
    match &handler.calls[0].kind {
        DebugCommandKind::PhysicalControl { operation, trace, .. } => {
            assert!(*trace);
            match operation {
                DebugPhysicalControl::Text { selector, text } => {
                    assert_eq!(text, "abc");
                    assert_eq!(
                        selector,
                        &DebugPhysicalControlDeclarationSelector::Target {
                            target: "search".to_string()
                        }
                    );
                }
                other => panic!("expected text physical control, got {other:?}"),
            }
        }
        other => panic!("expected physical control command, got {other:?}"),
    }
    assert_eq!(payload["tool"], TOOL_PHYSICAL_CONTROL);
    assert_eq!(payload["bridge_method"], "control");
    assert_eq!(payload["product_kind"], "diagnostics");
}

#[test]
fn bridged_control_with_trace_submits_traced_command_and_finishes_trace_json() {
    let server = control_server();
    let (client, runtime) = bounded_debug_bridge(1);
    let message = call_request(
        Value::from("bridge-control-trace"),
        TOOL_CONTROL,
        control_arguments(Some(true)),
    )
    .to_string();

    let pending = pending_of(
        begin_bridge_message(&server, &message, &client),
        "admitted traced control",
    );
    let mut handler = FakeHandler::default();
    runtime
        .drain_one(&mut handler)
        .expect("runtime drains")
        .expect("control trace reply generated");
    let response = finish(&pending).expect("reply is available after drain");
    let payload = tool_payload(&response);

    match &handler.calls[0].kind {
        DebugCommandKind::Control { trace, .. } => assert!(*trace),
        other => panic!("expected control command, got {other:?}"),
    }
    assert_eq!(payload["product_kind"], "control_trace");
    assert_eq!(payload["product"]["request_id"], "bridge-control-trace");
    assert_eq!(payload["product"]["messages"][0]["disposition"], "Consumed");
    assert_eq!(
        payload["product"]["result_identity"]["emitted_messages"][0]["name"],
        "fake-message"
    );
}

#[test]
fn pending_bridge_status_finish_before_app_drain_returns_none() {
    let server = DebugMcpServer::new(DebugMcpConfig::admitted());
    let (client, _runtime) = bounded_debug_bridge(1);
    let message =
        call_request(Value::from("status-pending"), TOOL_STATUS, frame_arguments()).to_string();

    let pending = pending_of(
        begin_bridge_message(&server, &message, &client),
        "admitted status",
    );

    let response = pending
        .try_finish(&no_artifact)
        .expect("nonblocking finish succeeds");
    assert!(response.is_none());
}

#[test]
fn runtime_mcp_transport_requires_app_endpoint_response() {
    let (client, endpoint) = bounded_runtime_mcp(1);
    let handle = client
        .submit(request(Value::from("ping"), "ping", js("{}")).to_string())
        .expect("request queued");

    assert!(handle
        .try_recv(&no_artifact)
        .expect("reply channel readable")
        .is_none());

    let runtime_request = endpoint
        .try_recv()
        .expect("endpoint readable")
        .expect("request available");
    let server = DebugMcpServer::new(DebugMcpConfig::default());
    let (bridge_client, _bridge_runtime) = bounded_debug_bridge(1);
    let response = match begin_bridge_message(&server, runtime_request.request(), &bridge_client) {
        DebugMcpBridgeMessage::Immediate(response) => response,
        DebugMcpBridgeMessage::Pending(_) => panic!("ping must not submit to bridge"),
    };
    runtime_request
        .respond(response)
        .expect("endpoint responds");

    let response = handle
        .recv(&no_artifact)
        .expect("transport receives")
        .expect("ping returns response");
    assert_eq!(to_serde(&response)["result"], js("{}"));
}

#[test]
fn runtime_mcp_transport_is_bounded() {
    let (client, _endpoint) = bounded_runtime_mcp(1);
    let _first = client.submit("one".to_string()).expect("first request queued");
    let second = client
        .submit("two".to_string())
        .err()
        .expect("second request rejected");
    assert_eq!(second, DebugMcpRuntimeTransportError::RequestQueueFull);
}

#[test]
fn enabled_but_idle_runtime_transport_creates_no_response_work() {
    let (_client, endpoint) = bounded_runtime_mcp(1);
    assert!(endpoint
        .try_recv()
        .expect("idle endpoint is readable")
        .is_none());
}

#[test]
fn presented_screenshot_response_work_finalizes_on_receiving_side() {
    let (client, endpoint) = bounded_runtime_mcp(1);
    let handle = client
        .submit("deferred screenshot".to_string())
        .expect("request queued");
    let request = endpoint
        .try_recv()
        .expect("endpoint readable")
        .expect("request available");
    let requested_frame = frame();
    let mut pixels = captured_pixels(
        PresentedScreenshotSelector::Exact { expected_frame: requested_frame.clone() },
        vec![4, 3, 2, 255],
    );
    pixels.source_format = PresentedSurfaceFormat::Rgba8Unorm;
    pixels.transfer = PresentedTransferFunction::Linear;
    let reply = DebugReply {
        request_id: "deferred-screenshot".to_string(),
        frame: requested_frame,
        product: DebugReplyProduct::Screenshot(PresentedScreenshotProduct::Captured(pixels)),
    };
    request
        .respond_work(DebugMcpResponseWork::PresentedScreenshot {
            rpc_id: Some(JsonValue::String("deferred-screenshot".to_string())),
            tool: TOOL_SCREENSHOT.to_string(),
            method: McpProbeMethod::Screenshot,
            reply,
        })
        .expect("response work queued without finalizing");

    let response = handle
        .recv(&receipt_writer)
        .expect("response work finalizes")
        .expect("screenshot returns response");
    let payload = tool_payload(&to_serde(&response));
    assert_eq!(payload["product"]["artifact_path"], "/artifacts/presented.png");
    assert_eq!(payload["product_kind"], "presented_screenshot");
}

#[test]
fn ready_response_work_finalizes_to_its_response() {
    let ready = finalize_response_work(
        DebugMcpResponseWork::Ready(Some(JsonValue::String("done".to_string()))),
        &no_artifact,
    );
    assert_eq!(ready, Some(JsonValue::String("done".to_string())));
    assert_eq!(
        finalize_response_work(DebugMcpResponseWork::Ready(None), &no_artifact),
        None
    );
}

#[test]
fn text_composition_parser_accepts_bounded_multibyte_scalar_ranges() {
    let operation = js(r#"{
        "type": "text_composition",
        "target": "editor",
        "updates": [
            {
                "preedit_text": "한a",
                "cursor_range": { "anchor": 1, "focus": 2 }
            }
        ],
        "commit": "한"
    }"#);
    let parsed = parse_physical_control(&to_library(&operation)).expect("valid composition parses");
    let DebugPhysicalControl::TextComposition { selector, updates, commit } = parsed else {
        panic!("expected text composition operation")
    };
    assert_eq!(
        selector,
        DebugPhysicalControlDeclarationSelector::Target {
            target: "editor".to_string()
        }
    );
    assert_eq!(updates.len(), 1);
    assert_eq!(updates[0].cursor_range.as_ref().expect("range").focus, 2);
    assert_eq!(commit, "한");
}

#[test]
fn text_composition_serializer_preserves_end_and_derived_provenance() {
    let event = TextCompositionEvent {
        target: "editor".to_string(),
        target_slot: None,
        phase: TextCompositionPhase::End,
        preedit_text: String::new(),
        cursor_range: None,
    };
    let dispatch_evidence = DeclaredEventDispatchEvidence {
        source: EvidenceSource::backend_presented(
            "egui",
            "physical-input/debug-injected/composition",
        ),
        frame: frame(),
        kind: DeclaredEventDispatchKind::Text,
        input_position: None,
        input_position_space: None,
        candidate_regions: vec!["editor-region".to_string()],
        selected_region: Some("editor-region".to_string()),
        refusal_reason: None,
        generated_event: Some(InputEvent::TextComposition(event.clone())),
        route: None,
        capture_event: false,
        diagnostics: Vec::new(),
    };
    let trace = DebugCompositionTrace {
        request_id: "composition-json".to_string(),
        frame: frame(),
        backend_id: "egui".to_string(),
        target: "editor".to_string(),
        selected_region: "editor-region".to_string(),
        focused_before: true,
        focused_after: true,
        phases: vec![DebugCompositionPhaseTrace {
            phase: TextCompositionPhase::End,
            backend_event: "derived-end".to_string(),
            provenance: CompositionPhaseProvenance::Derived {
                from: TextCompositionPhase::Commit,
            },
            event,
            ingress_observation: DebugCompositionIngressObservation::Derived {
                from_sequence_index: 0,
            },
            dispatch_evidence,
            app_handled: false,
            result_identity: Some(EventResultIdentity {
                handled: false,
                emitted_messages: Vec::new(),
                change_shapes: Vec::new(),
                diagnostics: Vec::new(),
            }),
        }],
        commit_mutation: None,
        completed: false,
        failure: None,
    };

    let json = to_serde(&composition_trace_summary(&trace));
    assert_eq!(json["phases"][0]["phase"], "end");
    assert_eq!(json["phases"][0]["provenance"]["kind"], "derived");
    assert_eq!(json["phases"][0]["provenance"]["from"], "commit");
}

#[test]
fn text_composition_parser_rejects_update_byte_and_scalar_bounds_before_leasing() {
    let server = DebugMcpServer::new(DebugMcpConfig::admitted());
    let (client, runtime) = bounded_debug_bridge(1);
    let invalid = call_request(
        Value::from("composition-invalid"),
        TOOL_PHYSICAL_CONTROL,
        with_frame(js(r#"{
            "operation": {
                "type": "text_composition",
                "target": "editor",
                "updates": [{
                    "preedit_text": "한",
                    "cursor_range": { "anchor": 0, "focus": 3 }
                }],
                "commit": "한"
            }
        }"#)),
    )
    .to_string();
    let response = immediate(
        begin_bridge_message(&server, &invalid, &client),
        "invalid composition",
    );
    assert_eq!(response["error"]["code"], -32602);
    assert!(runtime.take_one().expect("bridge readable").is_none());

    let too_many = (0..=MAX_COMPOSITION_UPDATES)
        .map(|_| js(r#"{ "preedit_text": "x" }"#))
        .collect::<Vec<_>>();
    let mut operation = js(r#"{ "type": "text_composition", "target": "editor", "commit": "x" }"#);
    operation["updates"] = Value::Array(too_many);
    assert!(parse_physical_control(&to_library(&operation)).is_err());

    let mut long_update = js("{}");
    long_update["preedit_text"] = Value::from("x".repeat(MAX_COMPOSITION_UTF8_BYTES));
    operation["updates"] = Value::Array(vec![long_update]);
    assert!(parse_physical_control(&to_library(&operation)).is_err());
}

#[test]
fn unknown_tool_and_malformed_arguments_are_handled() {
    let server = DebugMcpServer::new(DebugMcpConfig::default());
    let mut handler = FakeHandler::default();

    let unknown = handle(
        &server,
        call_request(Value::from("bad-tool"), "slipway.debug.unknown", js("{}")),
        &mut handler,
    )
    .expect("unknown tool has response");
    assert_eq!(unknown["error"]["code"], -32602);
    assert!(unknown["error"]["message"]
        .as_str()
        .expect("message")
        .contains("unknown debug tool"));

    let malformed = handle(
        &server,
        call_request(
            Value::from("bad-args"),
            TOOL_STATUS,
            js(r#"{ "frame": "not-object" }"#),
        ),
        &mut handler,
    )
    .expect("malformed call has response");
    assert_eq!(malformed["error"]["code"], -32602);
    assert!(malformed["error"]["message"]
        .as_str()
        .expect("message")
        .contains("frame"));
    assert!(handler.calls.is_empty());
}
