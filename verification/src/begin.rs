//! The bridged form of the debug server: tool calls are checked and refused
//! here, and admitted commands are submitted to a debug bridge whose replies
//! finish the calls later.
use vstd::prelude::*;
use crate::reply::DebugReplyProduct;
use crate::bridge::{DebugBridgeClient, DebugBridgeError, DebugRequestHandle};
use crate::command::{DebugCommand, DebugCommandKind, DebugPhysicalControl};
use crate::event_params::{composition_scan, event_slot, input_event_val, physical_updates, physical_val, utf8_len};
use crate::input::InputEvent;
use crate::dispatch::{
    answer_tree, arguments_of, call_answered, control_err, message_answered, physical_control_err,
    tool_named, tools_call_answered, DebugTool,
};
use crate::event_params::{parse_input_event, parse_physical_control};
use crate::json::{json_as_str, json_get, json_is_object, array, tree, JsonTree, JsonValue, ObjectBuilder};
use crate::mcp::{DebugMcpConfig, DebugMcpServer};
use crate::params::{frame_val, parse_frame_from_arguments, parse_probe_request, probe_request_err, probe_request_matches, slot_matches};
use crate::products::{
    json_rpc_error, json_rpc_result, refusal_payload, refusal_payload_tree, reply_payload,
    reply_payload_tree, rpc_error_tree, rpc_result_tree, screenshot_refusal_payload,
    screenshot_refusal_payload_tree, tool_result, tool_result_tree, opt_tree,
};
use crate::reply::{DebugReply, McpProbeMethod};
use crate::rpc::{array_val, opt_bool_val, string_val, object_err, object_val, opt_string_err, opt_string_val, optional_string_field, quoted, required_object_field, RpcError, INVALID_PARAMS};
use crate::schema::{default_tools, default_tools_tree, initialize_result, initialize_tree};
use crate::screenshot::{correlation_of, PresentedPixels};
use crate::server::{
    finalize_screenshot_reply_payload, finalized_tree, request_id_string, request_id_text,
    screenshot_reply_checked, ArtifactReceipt, ArtifactWriteFailure,
};
use crate::text::{owned, str_eq};
use crate::tool_params::{
    arguments_frame_err, parse_control_trace_flag, parse_presented_screenshot_request,
    parse_render_frame, parse_render_packet, render_frame_err, render_frame_val,
    render_packet_err, render_packet_frame_val, render_packet_target, screenshot_request_err, screenshot_request_val, ScreenshotParseOrigin,
};
use crate::dispatch::opt_json_tree;

verus! {

/// A tool call submitted to the bridge, waiting for its reply.
pub struct DebugMcpPendingToolCall {
    id: Option<JsonValue>,
    tool: String,
    method: McpProbeMethod,
    handle: DebugRequestHandle,
}

/// What beginning a bridged message gives: an answer now, or a pending tool call.
pub enum DebugMcpBridgeMessage {
    Immediate(Option<JsonValue>),
    Pending(DebugMcpPendingToolCall),
}

/// Work left to answer a message: a finished answer, or a presented
/// screenshot reply whose artifact is still to be written.
pub enum DebugMcpResponseWork {
    Ready(Option<JsonValue>),
    PresentedScreenshot { rpc_id: Option<JsonValue>, tool: String, method: McpProbeMethod, reply: DebugReply },
}

pub open spec fn tool_name(tool: DebugTool) -> Seq<char> {
    match tool {
        DebugTool::Status => "slipway.debug.status"@,
        DebugTool::Probe => "slipway.debug.probe"@,
        DebugTool::Render => "slipway.debug.render"@,
        DebugTool::Screenshot => "slipway.debug.screenshot"@,
        DebugTool::Control => "slipway.debug.control"@,
        DebugTool::PhysicalControl => "slipway.debug.physical_control"@,
        DebugTool::Resize => "slipway.debug.resize"@,
    }
}

pub open spec fn tool_method(tool: DebugTool) -> McpProbeMethod {
    match tool {
        DebugTool::Status => McpProbeMethod::Status,
        DebugTool::Probe => McpProbeMethod::Probe,
        DebugTool::Render => McpProbeMethod::Render,
        DebugTool::Screenshot => McpProbeMethod::Screenshot,
        DebugTool::Control => McpProbeMethod::Control,
        DebugTool::PhysicalControl => McpProbeMethod::Control,
        DebugTool::Resize => McpProbeMethod::Resize,
    }
}

/// Where a tool call stops before reaching the runtime: invalid arguments, a
/// refusal payload, or admission.
pub enum ToolGate {
    Invalid(Seq<char>),
    Refused(JsonTree),
    Admitted,
}

pub open spec fn frame_gate(admitted: bool, tool: DebugTool, request_id: Seq<char>, args: JsonValue, code: Seq<char>, message: Seq<char>, extra_err: Option<Seq<char>>) -> ToolGate {
    if arguments_frame_err(args) is Some {
        ToolGate::Invalid(arguments_frame_err(args)->0)
    } else if !admitted {
        ToolGate::Refused(refusal_payload_tree(tool_name(tool), tool_method(tool), request_id, frame_val(object_val(args, "frame"@)), code, message))
    } else if extra_err is Some {
        ToolGate::Invalid(extra_err->0)
    } else {
        ToolGate::Admitted
    }
}

pub open spec fn tool_gate(config: DebugMcpConfig, request_id: Seq<char>, tool: DebugTool, args: JsonValue, origin: ScreenshotParseOrigin) -> ToolGate {
    match tool {
        DebugTool::Status => frame_gate(config.allow_status, tool, request_id, args, "status-denied"@,
            "debug status is not admitted by this server configuration"@, None),
        DebugTool::Probe => frame_gate(config.allow_probe, tool, request_id, args, "probe-denied"@,
            "debug probe is not admitted by this server configuration"@, probe_request_err(args)),
        DebugTool::Render => if render_frame_err(args) is Some {
            ToolGate::Invalid(render_frame_err(args)->0)
        } else if !config.allow_render {
            ToolGate::Refused(refusal_payload_tree("slipway.debug.render"@, McpProbeMethod::Render, request_id, render_frame_val(args),
                "render-denied"@, "debug render is not admitted by this server configuration"@))
        } else if render_packet_err(args) is Some {
            ToolGate::Invalid(render_packet_err(args)->0)
        } else {
            ToolGate::Admitted
        },
        DebugTool::Screenshot => {
            let selector = screenshot_request_val(args, origin).selector;
            if screenshot_request_err(args) is Some {
                ToolGate::Invalid(screenshot_request_err(args)->0)
            } else if !config.allow_screenshot {
                ToolGate::Refused(screenshot_refusal_payload_tree(request_id, selector, "screenshot-denied"@,
                    "presented screenshot capture is not admitted by this server configuration"@))
            } else if opt_string_err(args, "target"@) is Some {
                ToolGate::Invalid(opt_string_err(args, "target"@)->0)
            } else if opt_string_val(args, "target"@) is Some
                && (opt_string_val(args, "target"@)->0)@ != correlation_of(selector).surface_instance_id@ {
                ToolGate::Refused(screenshot_refusal_payload_tree(request_id, selector, "screenshot-target-unsupported"@,
                    "presented screenshot captures only the root surface instance"@))
            } else {
                ToolGate::Admitted
            }
        },
        DebugTool::Control => frame_gate(config.allow_control, tool, request_id, args, "control-denied"@,
            "debug control is not admitted by this server configuration"@, control_err(args)),
        DebugTool::PhysicalControl => frame_gate(config.allow_control, tool, request_id, args, "control-denied"@,
            "physical debug control is not admitted by this server configuration"@, physical_control_err(args)),
        DebugTool::Resize => frame_gate(config.allow_resize, tool, request_id, args, "resize-denied"@,
            "debug resize is not admitted by this server configuration"@, None),
    }
}

/// An input event is the one a JSON event describes.
pub open spec fn input_event_parsed(e: InputEvent, v: JsonValue) -> bool {
    slot_matches(event_slot(e), v) && e == input_event_val(v, event_slot(e))
}

/// A physical operation is the one a JSON operation describes, with the
/// composition updates it lists.
pub open spec fn physical_parsed(op: DebugPhysicalControl, v: JsonValue) -> bool {
    &&& op == physical_val(v, physical_updates(op))
    &&& op is TextComposition ==> (composition_scan(array_val(v, "updates"@), utf8_len(string_val(v, "commit"@)@))
        matches Ok(acc) && acc.1 == physical_updates(op)@)
}

/// The trace flag of a control call: `trace` when given, and off otherwise.
pub open spec fn trace_flag(args: JsonValue) -> bool {
    match opt_bool_val(args, "trace"@) {
        Some(b) => b,
        None => false,
    }
}

/// The command an admitted tool call hands on: the tool's command kind under
/// the call's request id, built from the call's arguments.
pub open spec fn tool_command(request_id: Seq<char>, tool: DebugTool, args: JsonValue, origin: ScreenshotParseOrigin, c: DebugCommand) -> bool {
    let frame = frame_val(object_val(args, "frame"@));
    &&& c.request_id@ == request_id
    &&& match tool {
        DebugTool::Status => c.kind == DebugCommandKind::Status { frame },
        DebugTool::Probe => c.kind matches DebugCommandKind::Probe { frame: f, request } && f == frame
            && probe_request_matches(request, args),
        DebugTool::Render => c.kind matches DebugCommandKind::Render { packet } && packet.frame == render_packet_frame_val(args)
            && packet.target == render_packet_target(args) && packet.paint_ops == 0 && packet.diagnostics@.len() == 0,
        DebugTool::Screenshot => c.kind == DebugCommandKind::Screenshot { request: screenshot_request_val(args, origin) },
        DebugTool::Control => c.kind matches DebugCommandKind::Control { frame: f, event, trace } && f == frame
            && input_event_parsed(event, object_val(args, "event"@)) && trace == trace_flag(args),
        DebugTool::PhysicalControl => c.kind matches DebugCommandKind::PhysicalControl { frame: f, operation, trace } && f == frame
            && physical_parsed(operation, object_val(args, "operation"@)) && trace,
        DebugTool::Resize => c.kind == DebugCommandKind::Resize { frame },
    }
}

/// Where a tool call's checks leave it: a refusal payload, or the command to hand on.
pub enum ToolDecision {
    Refused(JsonValue),
    Command(DebugCommand),
}

/// A tool call decided: invalid arguments, the refusal the checks give, or
/// the command an admitted call hands on.
pub open spec fn decided(config: DebugMcpConfig, request_id: Seq<char>, tool: DebugTool, args: JsonValue, origin: ScreenshotParseOrigin, r: Result<ToolDecision, RpcError>) -> bool {
    match r {
        Err(e) => e.code == INVALID_PARAMS && tool_gate(config, request_id, tool, args, origin) == ToolGate::Invalid(e.message@),
        Ok(ToolDecision::Refused(p)) => tool_gate(config, request_id, tool, args, origin) == ToolGate::Refused(tree(p)),
        Ok(ToolDecision::Command(c)) => tool_gate(config, request_id, tool, args, origin) == ToolGate::Admitted
            && tool_command(request_id, tool, args, origin, c),
    }
}

/// The name of a debug tool.
pub fn tool_label(tool: DebugTool) -> (r: &'static str)
    ensures
        r@ == tool_name(tool),
{
    match tool {
        DebugTool::Status => "slipway.debug.status",
        DebugTool::Probe => "slipway.debug.probe",
        DebugTool::Render => "slipway.debug.render",
        DebugTool::Screenshot => "slipway.debug.screenshot",
        DebugTool::Control => "slipway.debug.control",
        DebugTool::PhysicalControl => "slipway.debug.physical_control",
        DebugTool::Resize => "slipway.debug.resize",
    }
}

/// The bridge method a debug tool travels through.
pub fn tool_bridge_method(tool: DebugTool) -> (r: McpProbeMethod)
    ensures
        r == tool_method(tool),
{
    match tool {
        DebugTool::Status => McpProbeMethod::Status,
        DebugTool::Probe => McpProbeMethod::Probe,
        DebugTool::Render => McpProbeMethod::Render,
        DebugTool::Screenshot => McpProbeMethod::Screenshot,
        DebugTool::Control => McpProbeMethod::Control,
        DebugTool::PhysicalControl => McpProbeMethod::Control,
        DebugTool::Resize => McpProbeMethod::Resize,
    }
}

impl DebugMcpServer {
    /// Checks a tool call's arguments against the configuration: the
    /// refusal payload of a tool that is not admitted or whose target does
    /// not match, or the command an admitted call hands on.
    pub fn decide_tool_call(&self, request_id: &str, tool: DebugTool, arguments: &JsonValue, origin: ScreenshotParseOrigin) -> (r: Result<ToolDecision, RpcError>)
        ensures
            decided(self.config_view(), request_id@, tool, *arguments, origin, r),
    {
        let config = self.config();
        match tool {
            DebugTool::Status => {
                let frame = parse_frame_from_arguments(arguments)?;
                if !config.allow_status {
                    return Ok(ToolDecision::Refused(refusal_payload("slipway.debug.status", McpProbeMethod::Status, request_id, &frame,
                        "status-denied", "debug status is not admitted by this server configuration")));
                }
                Ok(ToolDecision::Command(DebugCommand::status(request_id, frame)))
            },
            DebugTool::Probe => {
                let frame = parse_frame_from_arguments(arguments)?;
                if !config.allow_probe {
                    return Ok(ToolDecision::Refused(refusal_payload("slipway.debug.probe", McpProbeMethod::Probe, request_id, &frame,
                        "probe-denied", "debug probe is not admitted by this server configuration")));
                }
                let request = parse_probe_request(arguments)?;
                Ok(ToolDecision::Command(DebugCommand::probe(request_id, frame, request)))
            },
            DebugTool::Render => {
                let frame = parse_render_frame(arguments)?;
                if !config.allow_render {
                    return Ok(ToolDecision::Refused(refusal_payload("slipway.debug.render", McpProbeMethod::Render, request_id, &frame,
                        "render-denied", "debug render is not admitted by this server configuration")));
                }
                let packet = parse_render_packet(arguments)?;
                Ok(ToolDecision::Command(DebugCommand::render(request_id, packet)))
            },
            DebugTool::Screenshot => {
                let request = parse_presented_screenshot_request(arguments, origin)?;
                if !config.allow_screenshot {
                    return Ok(ToolDecision::Refused(screenshot_refusal_payload(request_id, &request.selector,
                        "screenshot-denied", "presented screenshot capture is not admitted by this server configuration")));
                }
                let target = optional_string_field(arguments, "target")?;
                let mismatched = match target {
                    Some(t) => !str_eq(t.as_str(), request.selector.correlation_frame().surface_instance_id.as_str()),
                    None => false,
                };
                if mismatched {
                    return Ok(ToolDecision::Refused(screenshot_refusal_payload(request_id, &request.selector,
                        "screenshot-target-unsupported", "presented screenshot captures only the root surface instance")));
                }
                Ok(ToolDecision::Command(DebugCommand::screenshot(request_id, request)))
            },
            DebugTool::Control => {
                let frame = parse_frame_from_arguments(arguments)?;
                if !config.allow_control {
                    return Ok(ToolDecision::Refused(refusal_payload("slipway.debug.control", McpProbeMethod::Control, request_id, &frame,
                        "control-denied", "debug control is not admitted by this server configuration")));
                }
                let event = parse_input_event(required_object_field(arguments, "event")?)?;
                let trace = parse_control_trace_flag(arguments)?;
                let command = if trace {
                    DebugCommand::control_with_trace(request_id, frame, event)
                } else {
                    DebugCommand::control(request_id, frame, event)
                };
                Ok(ToolDecision::Command(command))
            },
            DebugTool::PhysicalControl => {
                let frame = parse_frame_from_arguments(arguments)?;
                if !config.allow_control {
                    return Ok(ToolDecision::Refused(refusal_payload("slipway.debug.physical_control", McpProbeMethod::Control, request_id, &frame,
                        "control-denied", "physical debug control is not admitted by this server configuration")));
                }
                let operation = parse_physical_control(required_object_field(arguments, "operation")?)?;
                Ok(ToolDecision::Command(DebugCommand::physical_control_with_trace(request_id, frame, operation)))
            },
            DebugTool::Resize => {
                let frame = parse_frame_from_arguments(arguments)?;
                if !config.allow_resize {
                    return Ok(ToolDecision::Refused(refusal_payload("slipway.debug.resize", McpProbeMethod::Resize, request_id, &frame,
                        "resize-denied", "debug resize is not admitted by this server configuration")));
                }
                Ok(ToolDecision::Command(DebugCommand::resize(request_id, frame)))
            },
        }
    }
}

/// The configuration flag that admits a tool; both control tools share one.
pub open spec fn tool_allowed(config: DebugMcpConfig, tool: DebugTool) -> bool {
    match tool {
        DebugTool::Status => config.allow_status,
        DebugTool::Probe => config.allow_probe,
        DebugTool::Render => config.allow_render,
        DebugTool::Screenshot => config.allow_screenshot,
        DebugTool::Control | DebugTool::PhysicalControl => config.allow_control,
        DebugTool::Resize => config.allow_resize,
    }
}

/// The code a tool that is not admitted is refused with.
pub open spec fn denial_code(tool: DebugTool) -> Seq<char> {
    match tool {
        DebugTool::Status => "status-denied"@,
        DebugTool::Probe => "probe-denied"@,
        DebugTool::Render => "render-denied"@,
        DebugTool::Screenshot => "screenshot-denied"@,
        DebugTool::Control | DebugTool::PhysicalControl => "control-denied"@,
        DebugTool::Resize => "resize-denied"@,
    }
}

/// The message a tool that is not admitted is refused with.
pub open spec fn denial_message(tool: DebugTool) -> Seq<char> {
    match tool {
        DebugTool::Status => "debug status is not admitted by this server configuration"@,
        DebugTool::Probe => "debug probe is not admitted by this server configuration"@,
        DebugTool::Render => "debug render is not admitted by this server configuration"@,
        DebugTool::Screenshot => "presented screenshot capture is not admitted by this server configuration"@,
        DebugTool::Control => "debug control is not admitted by this server configuration"@,
        DebugTool::PhysicalControl => "physical debug control is not admitted by this server configuration"@,
        DebugTool::Resize => "debug resize is not admitted by this server configuration"@,
    }
}

/// Whether the part of a tool's arguments read before admission is well formed:
/// the frame, the render frame, or the whole screenshot request.
pub open spec fn reads_before_admission(tool: DebugTool, args: JsonValue) -> bool {
    match tool {
        DebugTool::Render => render_frame_err(args) is None,
        DebugTool::Screenshot => screenshot_request_err(args) is None,
        _ => arguments_frame_err(args) is None,
    }
}

/// The refusal payload of a tool that is not admitted: the tool's denial code
/// and message, under the frame (or screenshot selector) the call names.
pub open spec fn denial_payload(tool: DebugTool, request_id: Seq<char>, args: JsonValue, origin: ScreenshotParseOrigin) -> JsonTree {
    match tool {
        DebugTool::Screenshot => screenshot_refusal_payload_tree(request_id, screenshot_request_val(args, origin).selector,
            denial_code(tool), denial_message(tool)),
        DebugTool::Render => refusal_payload_tree(tool_name(tool), tool_method(tool), request_id, render_frame_val(args),
            denial_code(tool), denial_message(tool)),
        _ => refusal_payload_tree(tool_name(tool), tool_method(tool), request_id, frame_val(object_val(args, "frame"@)),
            denial_code(tool), denial_message(tool)),
    }
}

/// A tool the configuration does not admit, called with a frame that reads,
/// is answered with its denial payload and stops before the runtime, so its
/// command is neither handed to a handler nor submitted to a bridge.
pub proof fn lemma_denied_tool_is_refused(
    config: DebugMcpConfig,
    request_id: Seq<char>,
    tool: DebugTool,
    args: JsonValue,
    origin: ScreenshotParseOrigin,
    answers: spec_fn(DebugCommand, DebugReplyProduct) -> bool,
    writes: spec_fn(PresentedPixels, Result<ArtifactReceipt, ArtifactWriteFailure>) -> bool,
    r: Result<JsonTree, Seq<char>>,
)
    requires
        !tool_allowed(config, tool),
        reads_before_admission(tool, args),
        call_answered(config, request_id, tool, args, origin, answers, writes, r),
    ensures
        tool_gate(config, request_id, tool, args, origin) == ToolGate::Refused(denial_payload(tool, request_id, args, origin)),
        r == Ok::<JsonTree, Seq<char>>(tool_result_tree(denial_payload(tool, request_id, args, origin))),
{
}

/// Whether a tool call is admitted depends on the tool's own configuration
/// flag only: two configurations that agree on it check the call alike,
/// whatever the other tools' flags say.
pub proof fn lemma_gate_reads_only_the_tools_flag(
    a: DebugMcpConfig,
    b: DebugMcpConfig,
    request_id: Seq<char>,
    tool: DebugTool,
    args: JsonValue,
    origin: ScreenshotParseOrigin,
)
    requires
        tool_allowed(a, tool) == tool_allowed(b, tool),
    ensures
        tool_gate(a, request_id, tool, args, origin) == tool_gate(b, request_id, tool, args, origin),
{
}

/// A tool the configuration admits is never refused on account of the
/// configuration: with its flag set, the only refusal left is a screenshot
/// whose target is not the root surface instance.
pub proof fn lemma_allowed_tool_is_not_denied(
    config: DebugMcpConfig,
    request_id: Seq<char>,
    tool: DebugTool,
    args: JsonValue,
    origin: ScreenshotParseOrigin,
)
    requires
        tool_allowed(config, tool),
    ensures
        tool_gate(config, request_id, tool, args, origin) is Refused ==> tool == DebugTool::Screenshot
            && opt_string_val(args, "target"@) is Some
            && (opt_string_val(args, "target"@)->0)@ != correlation_of(screenshot_request_val(args, origin).selector).surface_instance_id@,
        tool != DebugTool::Screenshot ==> !(tool_gate(config, request_id, tool, args, origin) is Refused),
{
}

pub open spec fn bridge_error_label(e: DebugBridgeError) -> Seq<char> {
    match e {
        DebugBridgeError::CommandQueueFull => "CommandQueueFull"@,
        DebugBridgeError::CommandQueueDisconnected => "CommandQueueDisconnected"@,
        DebugBridgeError::ReplyQueueEmpty => "ReplyQueueEmpty"@,
        DebugBridgeError::ReplyQueueFull => "ReplyQueueFull"@,
        DebugBridgeError::ReplyQueueDisconnected => "ReplyQueueDisconnected"@,
    }
}

pub fn bridge_error_text(e: DebugBridgeError) -> (r: &'static str)
    ensures
        r@ == bridge_error_label(e),
{
    match e {
        DebugBridgeError::CommandQueueFull => "CommandQueueFull",
        DebugBridgeError::CommandQueueDisconnected => "CommandQueueDisconnected",
        DebugBridgeError::ReplyQueueEmpty => "ReplyQueueEmpty",
        DebugBridgeError::ReplyQueueFull => "ReplyQueueFull",
        DebugBridgeError::ReplyQueueDisconnected => "ReplyQueueDisconnected",
    }
}

impl DebugMcpPendingToolCall {
    pub closed spec fn id_view(&self) -> Option<JsonTree> {
        opt_json_tree(self.id)
    }

    pub closed spec fn tool_view(&self) -> Seq<char> {
        self.tool@
    }

    pub closed spec fn method_view(&self) -> McpProbeMethod {
        self.method
    }

    pub closed spec fn request_id_view(&self) -> Seq<char> {
        self.handle.awaited_id()@
    }

    /// The command submitted to the bridge for this call.
    pub closed spec fn command_view(&self) -> DebugCommand {
        self.handle.submitted_command()
    }

    pub fn id(&self) -> (r: Option<&JsonValue>)
        ensures
            opt_json_tree(match r {
                Some(v) => Some(*v),
                None => None,
            }) == self.id_view(),
    {
        match &self.id {
            Some(v) => Some(v),
            None => None,
        }
    }

    pub fn tool_name(&self) -> (r: &str)
        ensures
            r@ == self.tool_view(),
    {
        self.tool.as_str()
    }

    pub fn method(&self) -> (r: McpProbeMethod)
        ensures
            r == self.method_view(),
    {
        self.method
    }

    pub fn request_id(&self) -> (r: &str)
        ensures
            r@ == self.request_id_view(),
    {
        self.handle.request_id()
    }

    /// The bridge's reply to the call, if it has arrived.
    pub(crate) fn pending_reply(&self) -> (r: Result<Option<DebugReply>, DebugBridgeError>)
        ensures
            r matches Err(e) ==> e == DebugBridgeError::ReplyQueueDisconnected,
    {
        self.handle.try_recv()
    }
}

/// A submitted tool call: pending under the call's id, tool, method and
/// request id with the command the tool builds from its arguments as the
/// submitted command, or answered with the bridge's submit failure.
pub open spec fn submitted(id: Option<JsonValue>, tool: DebugTool, request_id: Seq<char>, args: JsonValue, origin: ScreenshotParseOrigin, m: DebugMcpBridgeMessage) -> bool {
    match m {
        DebugMcpBridgeMessage::Pending(p) => p.id_view() == opt_json_tree(id) && p.tool_view() == tool_name(tool)
            && p.method_view() == tool_method(tool) && p.request_id_view() == request_id
            && tool_command(request_id, tool, args, origin, p.command_view()),
        DebugMcpBridgeMessage::Immediate(v) => exists|e: DebugBridgeError|
            (e == DebugBridgeError::CommandQueueFull || e == DebugBridgeError::CommandQueueDisconnected)
                && opt_json_tree(v) == Some(rpc_error_tree(id, -32000i64, "debug bridge submit failed: "@ + #[trigger] bridge_error_label(e))),
    }
}

/// What beginning a tool call gives: the error or refusal answer now, or the
/// submission of the admitted command.
pub open spec fn begun(config: DebugMcpConfig, id: Option<JsonValue>, tool: DebugTool, args: JsonValue, origin: ScreenshotParseOrigin, m: DebugMcpBridgeMessage) -> bool {
    let request_id = request_id_text(id);
    match tool_gate(config, request_id, tool, args, origin) {
        ToolGate::Invalid(message) => m matches DebugMcpBridgeMessage::Immediate(Some(v)) && tree(v) == rpc_error_tree(id, INVALID_PARAMS, message),
        ToolGate::Refused(payload) => m matches DebugMcpBridgeMessage::Immediate(Some(v)) && tree(v) == rpc_result_tree(id, tool_result_tree(payload)),
        ToolGate::Admitted => submitted(id, tool, request_id, args, origin, m),
    }
}

fn submit_bridge_tool(id: Option<JsonValue>, tool: &str, method: McpProbeMethod, command: DebugCommand, bridge: &DebugBridgeClient) -> (r: DebugMcpBridgeMessage)
    ensures
        match r {
            DebugMcpBridgeMessage::Pending(p) => p.id_view() == opt_json_tree(id) && p.tool_view() == tool@
                && p.method_view() == method && p.request_id_view() == command.request_id@
                && p.command_view() == command,
            DebugMcpBridgeMessage::Immediate(v) => exists|e: DebugBridgeError|
                (e == DebugBridgeError::CommandQueueFull || e == DebugBridgeError::CommandQueueDisconnected)
                    && opt_json_tree(v) == Some(rpc_error_tree(id, -32000i64, "debug bridge submit failed: "@ + #[trigger] bridge_error_label(e))),
        },
{
    let ghost request_id = command.request_id;
    match bridge.submit(command) {
        Ok(handle) => DebugMcpBridgeMessage::Pending(DebugMcpPendingToolCall { id, tool: owned(tool), method, handle }),
        Err(e) => {
            let mut m = owned("debug bridge submit failed: ");
            m.append(bridge_error_text(e));
            let v = json_rpc_error(id, -32000, m.as_str());
            assert(bridge_error_label(e) == bridge_error_label(e));
            DebugMcpBridgeMessage::Immediate(Some(v))
        },
    }
}

fn refused_now(id: Option<JsonValue>, payload: JsonValue) -> (r: Result<DebugMcpBridgeMessage, RpcError>)
    ensures
        r matches Ok(DebugMcpBridgeMessage::Immediate(Some(v))) && tree(v) == rpc_result_tree(id, tool_result_tree(tree(payload))),
{
    Ok(DebugMcpBridgeMessage::Immediate(Some(json_rpc_result(id, tool_result(payload)))))
}

/// A begin step's result: an invalid-arguments error, or a bridge message.
pub open spec fn begin_outcome(config: DebugMcpConfig, id: Option<JsonValue>, tool: DebugTool, args: JsonValue, origin: ScreenshotParseOrigin, r: Result<DebugMcpBridgeMessage, RpcError>) -> bool {
    let request_id = request_id_text(id);
    match r {
        Err(e) => e.code == INVALID_PARAMS && tool_gate(config, request_id, tool, args, origin) == ToolGate::Invalid(e.message@),
        Ok(m) => match tool_gate(config, request_id, tool, args, origin) {
            ToolGate::Invalid(_) => false,
            ToolGate::Refused(payload) => m matches DebugMcpBridgeMessage::Immediate(Some(v)) && tree(v) == rpc_result_tree(id, tool_result_tree(payload)),
            ToolGate::Admitted => submitted(id, tool, request_id, args, origin, m),
        },
    }
}

impl DebugMcpServer {
    fn begin_bridge_tool(
        &self,
        id: Option<JsonValue>,
        request_id: &str,
        tool: DebugTool,
        arguments: &JsonValue,
        origin: ScreenshotParseOrigin,
        bridge: &DebugBridgeClient,
    ) -> (r: Result<DebugMcpBridgeMessage, RpcError>)
        requires
            request_id@ == request_id_text(id),
        ensures
            begin_outcome(self.config_view(), id, tool, *arguments, origin, r),
    {
        match self.decide_tool_call(request_id, tool, arguments, origin)? {
            ToolDecision::Refused(payload) => refused_now(id, payload),
            ToolDecision::Command(command) => Ok(submit_bridge_tool(id, tool_label(tool), tool_bridge_method(tool), command, bridge)),
        }
    }
}


pub open spec fn immediate(m: DebugMcpBridgeMessage, t: Option<JsonTree>) -> bool {
    m matches DebugMcpBridgeMessage::Immediate(v) && opt_json_tree(v) == t
}

/// What beginning a bridged `tools/call` gives.
pub open spec fn bridge_tools_call_answered(
    config: DebugMcpConfig,
    id: Option<JsonValue>,
    params: Option<JsonValue>,
    origin: ScreenshotParseOrigin,
    m: DebugMcpBridgeMessage,
) -> bool {
    let params_error = Some(rpc_error_tree(id, INVALID_PARAMS, "tools/call params must be an object"@));
    let name_error = Some(rpc_error_tree(id, INVALID_PARAMS, "tools/call params.name must be a string"@));
    match params {
        None => immediate(m, params_error),
        Some(p) => if !json_is_object(p) {
            immediate(m, params_error)
        } else {
            match json_get(p, "name"@) {
                None => immediate(m, name_error),
                Some(n) => match json_as_str(n) {
                    None => immediate(m, name_error),
                    Some(name) => match tool_named(name) {
                        None => immediate(m, Some(rpc_error_tree(id, INVALID_PARAMS, quoted("unknown debug tool `"@, name, "`"@)))),
                        Some(tool) => begun(config, id, tool, arguments_of(p), origin, m),
                    },
                },
            }
        },
    }
}

/// What beginning a bridged JSON-RPC message gives: the same immediate
/// answers as the direct server, and tool calls begun on the bridge.
pub open spec fn bridge_message_answered(
    config: DebugMcpConfig,
    message: JsonValue,
    origin: ScreenshotParseOrigin,
    m: DebugMcpBridgeMessage,
) -> bool {
    let id = json_get(message, "id"@);
    let method = match json_get(message, "method"@) {
        Some(x) => json_as_str(x),
        None => None,
    };
    match method {
        None => immediate(m, Some(rpc_error_tree(id, -32600i64, "missing JSON-RPC method"@))),
        Some(name) => if name == "notifications/initialized"@ {
            immediate(m, None)
        } else if name == "initialize"@ {
            immediate(m, Some(rpc_result_tree(id, initialize_tree())))
        } else if name == "ping"@ {
            immediate(m, Some(rpc_result_tree(id, JsonTree::Object(Seq::empty()))))
        } else if name == "tools/list"@ {
            immediate(m, Some(rpc_result_tree(id, JsonTree::Object(Seq::empty().push(("tools"@, JsonTree::Array(default_tools_tree())))))))
        } else if name == "tools/call"@ {
            bridge_tools_call_answered(config, id, json_get(message, "params"@), origin, m)
        } else {
            immediate(m, Some(rpc_error_tree(id, -32601i64, quoted("unsupported JSON-RPC method `"@, name, "`"@))))
        },
    }
}

/// Which selector a runtime that normalized a screenshot request chose, as a parse origin.
pub open spec fn origin_of(screenshot: Option<crate::tool_params::RuntimeScreenshotSelector>) -> ScreenshotParseOrigin {
    match screenshot {
        Some(s) => ScreenshotParseOrigin::RuntimeNormalized(s),
        None => ScreenshotParseOrigin::Direct,
    }
}

impl DebugMcpServer {
    fn begin_bridge_tools_call(
        &self,
        id: Option<JsonValue>,
        params: Option<&JsonValue>,
        origin: ScreenshotParseOrigin,
        bridge: &DebugBridgeClient,
    ) -> (r: DebugMcpBridgeMessage)
        ensures
            bridge_tools_call_answered(self.config_view(), id, match params {
                Some(p) => Some(*p),
                None => None,
            }, origin, r),
    {
        let p = match params {
            Some(p) => {
                if !p.is_object() {
                    return DebugMcpBridgeMessage::Immediate(Some(json_rpc_error(id, INVALID_PARAMS, "tools/call params must be an object")));
                }
                p
            },
            None => return DebugMcpBridgeMessage::Immediate(Some(json_rpc_error(id, INVALID_PARAMS, "tools/call params must be an object"))),
        };
        let name = match p.get("name") {
            Some(n) => match n.as_str() {
                Some(s) => s,
                None => return DebugMcpBridgeMessage::Immediate(Some(json_rpc_error(id, INVALID_PARAMS, "tools/call params.name must be a string"))),
            },
            None => return DebugMcpBridgeMessage::Immediate(Some(json_rpc_error(id, INVALID_PARAMS, "tools/call params.name must be a string"))),
        };
        let null = JsonValue::Null;
        let arguments = match p.get("arguments") {
            Some(a) => a,
            None => &null,
        };
        let request_id = request_id_string(match &id {
            Some(v) => Some(v),
            None => None,
        });
        let tool = if str_eq(name, "slipway.debug.status") {
            DebugTool::Status
        } else if str_eq(name, "slipway.debug.probe") {
            DebugTool::Probe
        } else if str_eq(name, "slipway.debug.render") {
            DebugTool::Render
        } else if str_eq(name, "slipway.debug.screenshot") {
            DebugTool::Screenshot
        } else if str_eq(name, "slipway.debug.control") {
            DebugTool::Control
        } else if str_eq(name, "slipway.debug.physical_control") {
            DebugTool::PhysicalControl
        } else if str_eq(name, "slipway.debug.resize") {
            DebugTool::Resize
        } else {
            return DebugMcpBridgeMessage::Immediate(Some(json_rpc_error(id, INVALID_PARAMS, crate::rpc::concat3("unknown debug tool `", name, "`").as_str())));
        };
        let error_id = match &id {
            Some(v) => Some(v.duplicate()),
            None => None,
        };
        match self.begin_bridge_tool(id, request_id.as_str(), tool, arguments, origin, bridge) {
            Ok(m) => m,
            Err(e) => DebugMcpBridgeMessage::Immediate(Some(json_rpc_error(error_id, e.code, e.message.as_str()))),
        }
    }

    /// Begins a message on the bridge, parsing screenshot selectors as `origin` says.
    pub fn begin_bridge_value_with_origin(&self, message: JsonValue, origin: ScreenshotParseOrigin, bridge: &DebugBridgeClient) -> (r: DebugMcpBridgeMessage)
        ensures
            bridge_message_answered(self.config_view(), message, origin, r),
    {
        let id = match message.get("id") {
            Some(v) => Some(v.duplicate()),
            None => None,
        };
        proof {
            if let Some(v) = json_get(message, "id"@) {
                crate::dispatch::lemma_request_id_text_by_tree(v, id->0);
            }
        }
        let method = match message.get("method") {
            Some(m) => match m.as_str() {
                Some(s) => s,
                None => return DebugMcpBridgeMessage::Immediate(Some(json_rpc_error(id, -32600, "missing JSON-RPC method"))),
            },
            None => return DebugMcpBridgeMessage::Immediate(Some(json_rpc_error(id, -32600, "missing JSON-RPC method"))),
        };
        if str_eq(method, "notifications/initialized") {
            DebugMcpBridgeMessage::Immediate(None)
        } else if str_eq(method, "initialize") {
            DebugMcpBridgeMessage::Immediate(Some(json_rpc_result(id, initialize_result())))
        } else if str_eq(method, "ping") {
            DebugMcpBridgeMessage::Immediate(Some(json_rpc_result(id, ObjectBuilder::new().build())))
        } else if str_eq(method, "tools/list") {
            let mut b = ObjectBuilder::new();
            b.put("tools", array(default_tools()));
            DebugMcpBridgeMessage::Immediate(Some(json_rpc_result(id, b.build())))
        } else if str_eq(method, "tools/call") {
            self.begin_bridge_tools_call(id, message.get("params"), origin, bridge)
        } else {
            DebugMcpBridgeMessage::Immediate(Some(json_rpc_error(id, -32601, crate::rpc::concat3("unsupported JSON-RPC method `", method, "`").as_str())))
        }
    }

    /// Begins a message on the bridge: immediate answers now, admitted tool calls pending.
    pub fn begin_bridge_value(&self, message: JsonValue, bridge: &DebugBridgeClient) -> (r: DebugMcpBridgeMessage)
        ensures
            bridge_message_answered(self.config_view(), message, ScreenshotParseOrigin::Direct, r),
    {
        self.begin_bridge_value_with_origin(message, ScreenshotParseOrigin::Direct, bridge)
    }

    /// Begins a message whose screenshot selector a runtime has already normalized.
    pub fn begin_runtime_bridge_value(
        &self,
        message: JsonValue,
        screenshot: Option<crate::tool_params::RuntimeScreenshotSelector>,
        bridge: &DebugBridgeClient,
    ) -> (r: DebugMcpBridgeMessage)
        ensures
            bridge_message_answered(self.config_view(), message, origin_of(screenshot), r),
    {
        let origin = match screenshot {
            Some(s) => ScreenshotParseOrigin::RuntimeNormalized(s),
            None => ScreenshotParseOrigin::Direct,
        };
        self.begin_bridge_value_with_origin(message, origin, bridge)
    }
}


/// Whether `tools/call` params name a tool whose checks pass, so that the
/// call is handed to the runtime.
pub open spec fn call_reaches_runtime(config: DebugMcpConfig, id: Option<JsonValue>, params: Option<JsonValue>, origin: ScreenshotParseOrigin) -> bool {
    match params {
        Some(p) => json_is_object(p) && match json_get(p, "name"@) {
            Some(n) => match json_as_str(n) {
                Some(name) => match tool_named(name) {
                    Some(tool) => tool_gate(config, request_id_text(id), tool, arguments_of(p), origin) == ToolGate::Admitted,
                    None => false,
                },
                None => false,
            },
            None => false,
        },
        None => false,
    }
}

/// Whether a message is a tool call that passes its tool's checks and so is
/// handed to the runtime.
pub open spec fn reaches_runtime(config: DebugMcpConfig, message: JsonValue, origin: ScreenshotParseOrigin) -> bool {
    match json_get(message, "method"@) {
        Some(mv) => json_as_str(mv) == Some("tools/call"@)
            && call_reaches_runtime(config, json_get(message, "id"@), json_get(message, "params"@), origin),
        None => false,
    }
}

/// The answer a tool gives where its checks stop it.
pub open spec fn gate_answer(gate: ToolGate) -> Result<JsonTree, Seq<char>> {
    match gate {
        ToolGate::Invalid(message) => Err(message),
        ToolGate::Refused(payload) => Ok(tool_result_tree(payload)),
        ToolGate::Admitted => Err(Seq::empty()),
    }
}

proof fn lemma_call_answered_by_gate(
    config: DebugMcpConfig,
    request_id: Seq<char>,
    tool: DebugTool,
    args: JsonValue,
    origin: ScreenshotParseOrigin,
    answers: spec_fn(DebugCommand, DebugReplyProduct) -> bool,
    writes: spec_fn(PresentedPixels, Result<ArtifactReceipt, ArtifactWriteFailure>) -> bool,
    r: Result<JsonTree, Seq<char>>,
)
    requires
        call_answered(config, request_id, tool, args, origin, answers, writes, r),
        tool_gate(config, request_id, tool, args, origin) != ToolGate::Admitted,
    ensures
        r == gate_answer(tool_gate(config, request_id, tool, args, origin)),
{
}

/// A message that is not handed to the runtime is answered on the bridge
/// exactly as the direct server answers it: the same parse errors, the same
/// refusals and the same protocol results, at once and without a pending call.
pub proof fn lemma_bridge_answers_as_direct_before_runtime(
    config: DebugMcpConfig,
    message: JsonValue,
    origin: ScreenshotParseOrigin,
    answers: spec_fn(DebugCommand, DebugReplyProduct) -> bool,
    writes: spec_fn(PresentedPixels, Result<ArtifactReceipt, ArtifactWriteFailure>) -> bool,
    t: Option<JsonTree>,
    m: DebugMcpBridgeMessage,
)
    requires
        message_answered(config, message, origin, answers, writes, t),
        bridge_message_answered(config, message, origin, m),
        !reaches_runtime(config, message, origin),
    ensures
        immediate(m, t),
{
    let id = json_get(message, "id"@);
    if let Some(mv) = json_get(message, "method"@) {
        if json_as_str(mv) == Some("tools/call"@) {
            if let Some(p) = json_get(message, "params"@) {
                if json_is_object(p) {
                    if let Some(n) = json_get(p, "name"@) {
                        if let Some(name) = json_as_str(n) {
                            if let Some(tool) = tool_named(name) {
                                let rid = request_id_text(id);
                                let args = arguments_of(p);
                                reveal_strlit("tools/call");
                                reveal_strlit("notifications/initialized");
                                reveal_strlit("initialize");
                                reveal_strlit("ping");
                                reveal_strlit("tools/list");
                                assert("tools/call"@ != "notifications/initialized"@);
                                assert("tools/call"@[0] != "initialize"@[0]);
                                assert("tools/call"@ != "ping"@);
                                assert("tools/call"@[6] != "tools/list"@[6]);
                                assert(tools_call_answered(config, id, Some(p), origin, answers, writes, t->0));
                                let r = choose|r: Result<JsonTree, Seq<char>>|
                                    #[trigger] call_answered(config, rid, tool, args, origin, answers, writes, r) && t->0 == answer_tree(id, r);
                                lemma_call_answered_by_gate(config, rid, tool, args, origin, answers, writes, r);
                            }
                        }
                    }
                }
            }
        }
    }
}

} // verus!
