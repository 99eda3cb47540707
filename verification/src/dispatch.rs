//! JSON-RPC dispatch of the debug MCP server and the seven debug tools.
use vstd::prelude::*;
use crate::begin::{call_reaches_runtime, reaches_runtime, tool_bridge_method, tool_command, tool_gate, tool_label, tool_method, tool_name, ToolDecision, ToolGate};
use crate::command::DebugCommand;
use crate::event_params::{input_event_err, parse_input_event, parse_physical_control, physical_err};
use crate::frame::FrameIdentity;
use crate::json::{json_as_str, json_get, json_is_object, array, tree, JsonTree, JsonValue, ObjectBuilder};
use crate::mcp::{DebugMcpConfig, DebugMcpServer};
use crate::params::{frame_err, frame_val, parse_frame_from_arguments, parse_probe_request, probe_request_err};
use crate::products::{
    json_rpc_error, json_rpc_result, refusal_payload, refusal_payload_tree, reply_payload,
    reply_payload_tree, rpc_error_tree, rpc_result_tree, screenshot_refusal_payload,
    screenshot_refusal_payload_tree, tool_result, tool_result_tree,
};
use crate::reply::{handler_answers, DebugReply, DebugReplyProduct, McpProbeMethod, SlipwayDebugCommandHandler};
use crate::rpc::{
    object_err, object_val, opt_bool_err, opt_string_err, opt_string_val, optional_string_field,
    quoted, required_object_field, RpcError, INVALID_PARAMS,
};
use crate::schema::{default_tools, default_tools_tree, initialize_result, initialize_tree};
use crate::screenshot::{admission_of, correlation_of, PresentedPixels, PresentedScreenshotAdmission};
use crate::server::{
    finalize_screenshot_reply_payload, finalized_tree, handler_checked, handler_reply,
    handler_reply_of, request_id_string, request_id_text, screenshot_reply_checked, artifact_written, writer_gives,
    ArtifactReceipt, ArtifactWriteFailure,
};
use crate::text::{owned, str_eq};
use crate::tool_params::{
    arguments_frame_err, parse_control_trace_flag, parse_presented_screenshot_request,
    parse_render_frame, parse_render_packet, render_frame_err, render_frame_val,
    render_packet_err, render_packet_frame_val, screenshot_request_err, screenshot_request_val,
    ScreenshotParseOrigin,
};

verus! {

/// The seven debug tools.
#[derive(Clone, Copy, Debug, PartialEq, Eq, Structural)]
pub enum DebugTool {
    Status,
    Probe,
    Render,
    Screenshot,
    Control,
    PhysicalControl,
    Resize,
}

pub open spec fn tool_named(name: Seq<char>) -> Option<DebugTool> {
    if name == "slipway.debug.status"@ {
        Some(DebugTool::Status)
    } else if name == "slipway.debug.probe"@ {
        Some(DebugTool::Probe)
    } else if name == "slipway.debug.render"@ {
        Some(DebugTool::Render)
    } else if name == "slipway.debug.screenshot"@ {
        Some(DebugTool::Screenshot)
    } else if name == "slipway.debug.control"@ {
        Some(DebugTool::Control)
    } else if name == "slipway.debug.physical_control"@ {
        Some(DebugTool::PhysicalControl)
    } else if name == "slipway.debug.resize"@ {
        Some(DebugTool::Resize)
    } else {
        None
    }
}

pub open spec fn control_err(args: JsonValue) -> Option<Seq<char>> {
    crate::rpc::first(
        object_err(args, "event"@),
        crate::rpc::first(input_event_err(object_val(args, "event"@)), opt_bool_err(args, "trace"@)),
    )
}

pub open spec fn physical_control_err(args: JsonValue) -> Option<Seq<char>> {
    crate::rpc::first(object_err(args, "operation"@), physical_err(object_val(args, "operation"@)))
}

/// What a tool answers for the handler's reply to its command: the reply's
/// payload, or for a screenshot the finalized payload of the checked reply
/// with what the artifact writer gave for its pixels.
pub open spec fn tool_answer(
    tool: DebugTool,
    reply: DebugReply,
    writes: spec_fn(PresentedPixels, Result<ArtifactReceipt, ArtifactWriteFailure>) -> bool,
    r: Result<JsonTree, Seq<char>>,
) -> bool {
    if tool == DebugTool::Screenshot {
        exists|checked: DebugReply, artifact: Result<ArtifactReceipt, ArtifactWriteFailure>|
            #![trigger screenshot_reply_checked(reply, checked), finalized_tree("slipway.debug.screenshot"@, McpProbeMethod::Screenshot, checked, artifact)]
            screenshot_reply_checked(reply, checked) && artifact_written(writes, checked, artifact)
                && r == Ok::<JsonTree, Seq<char>>(tool_result_tree(finalized_tree("slipway.debug.screenshot"@, McpProbeMethod::Screenshot, checked, artifact)))
    } else {
        r == Ok::<JsonTree, Seq<char>>(tool_result_tree(reply_payload_tree(tool_name(tool), tool_method(tool), reply, true)))
    }
}

/// What a debug tool call answers: invalid arguments, the refusal of a tool
/// the configuration does not admit or whose target does not match, or the
/// answer for the handler's reply to the command the tool builds from its
/// arguments.
pub open spec fn call_answered(
    config: DebugMcpConfig,
    request_id: Seq<char>,
    tool: DebugTool,
    args: JsonValue,
    origin: ScreenshotParseOrigin,
    answers: spec_fn(DebugCommand, DebugReplyProduct) -> bool,
    writes: spec_fn(PresentedPixels, Result<ArtifactReceipt, ArtifactWriteFailure>) -> bool,
    r: Result<JsonTree, Seq<char>>,
) -> bool {
    match tool_gate(config, request_id, tool, args, origin) {
        ToolGate::Invalid(message) => r == Err::<JsonTree, Seq<char>>(message),
        ToolGate::Refused(payload) => r == Ok::<JsonTree, Seq<char>>(tool_result_tree(payload)),
        ToolGate::Admitted => exists|c: DebugCommand, reply: DebugReply|
            #[trigger] tool_command(request_id, tool, args, origin, c) && #[trigger] handler_reply_of(answers, c, reply)
                && tool_answer(tool, reply, writes, r),
    }
}

/// A writer of which nothing is known; tools other than the screenshot do not call one.
pub open spec fn no_writer() -> spec_fn(PresentedPixels, Result<ArtifactReceipt, ArtifactWriteFailure>) -> bool {
    |px: PresentedPixels, a: Result<ArtifactReceipt, ArtifactWriteFailure>| true
}

/// Tools other than the screenshot answer the same whatever the writer.
proof fn lemma_call_answered_without_writer(
    config: DebugMcpConfig,
    request_id: Seq<char>,
    tool: DebugTool,
    args: JsonValue,
    origin: ScreenshotParseOrigin,
    answers: spec_fn(DebugCommand, DebugReplyProduct) -> bool,
    writes: spec_fn(PresentedPixels, Result<ArtifactReceipt, ArtifactWriteFailure>) -> bool,
    r: Result<JsonTree, Seq<char>>,
)
    requires
        tool != DebugTool::Screenshot,
        call_answered(config, request_id, tool, args, origin, answers, no_writer(), r),
    ensures
        call_answered(config, request_id, tool, args, origin, answers, writes, r),
{
    if tool_gate(config, request_id, tool, args, origin) == ToolGate::Admitted {
        let (c, reply) = choose|c: DebugCommand, reply: DebugReply|
            #[trigger] tool_command(request_id, tool, args, origin, c) && #[trigger] handler_reply_of(answers, c, reply)
                && tool_answer(tool, reply, no_writer(), r);
        assert(tool_answer(tool, reply, writes, r));
    }
}

/// Tools other than the screenshot read no screenshot selector, so they
/// answer the same whatever the parse origin.
proof fn lemma_call_answered_any_origin(
    config: DebugMcpConfig,
    request_id: Seq<char>,
    tool: DebugTool,
    args: JsonValue,
    answers: spec_fn(DebugCommand, DebugReplyProduct) -> bool,
    writes: spec_fn(PresentedPixels, Result<ArtifactReceipt, ArtifactWriteFailure>) -> bool,
    r: Result<JsonTree, Seq<char>>,
    origin: ScreenshotParseOrigin,
)
    requires
        tool != DebugTool::Screenshot,
        call_answered(config, request_id, tool, args, ScreenshotParseOrigin::Direct, answers, writes, r),
    ensures
        call_answered(config, request_id, tool, args, origin, answers, writes, r),
{
    assert(tool_gate(config, request_id, tool, args, origin) == tool_gate(config, request_id, tool, args, ScreenshotParseOrigin::Direct));
    if tool_gate(config, request_id, tool, args, origin) == ToolGate::Admitted {
        let (c, reply) = choose|c: DebugCommand, reply: DebugReply|
            #[trigger] tool_command(request_id, tool, args, ScreenshotParseOrigin::Direct, c) && #[trigger] handler_reply_of(answers, c, reply)
                && tool_answer(tool, reply, writes, r);
        assert(tool_command(request_id, tool, args, origin, c));
    }
}

pub open spec fn outcome(r: Result<JsonValue, RpcError>) -> Result<JsonTree, Seq<char>> {
    match r {
        Ok(v) => Ok(tree(v)),
        Err(e) => Err(e.message@),
    }
}

pub open spec fn invalid_only(r: Result<JsonValue, RpcError>) -> bool {
    r matches Err(e) ==> e.code == INVALID_PARAMS
}

impl DebugMcpServer {
    /// A tool other than the screenshot: decided, then refused or handed to the handler.
    fn call_handled_tool<H: SlipwayDebugCommandHandler>(&self, request_id: &str, tool: DebugTool, arguments: &JsonValue, handler: &mut H) -> (r: Result<JsonValue, RpcError>)
        requires
            tool != DebugTool::Screenshot,
        ensures
            invalid_only(r),
            call_answered(self.config_view(), request_id@, tool, *arguments, ScreenshotParseOrigin::Direct, handler_answers(*old(handler)), no_writer(), outcome(r)),
            tool_gate(self.config_view(), request_id@, tool, *arguments, ScreenshotParseOrigin::Direct) != ToolGate::Admitted
                ==> *final(handler) == *old(handler),
    {
        match self.decide_tool_call(request_id, tool, arguments, ScreenshotParseOrigin::Direct)? {
            ToolDecision::Refused(payload) => Ok(tool_result(payload)),
            ToolDecision::Command(command) => {
                let ghost c = command;
                let reply = handler_reply(handler, command);
                assert(tool_command(request_id@, tool, *arguments, ScreenshotParseOrigin::Direct, c) && handler_reply_of(handler_answers(*old(handler)), c, reply));
                Ok(tool_result(reply_payload(tool_label(tool), tool_bridge_method(tool), &reply, true)))
            },
        }
    }

    fn call_status<H: SlipwayDebugCommandHandler>(&self, request_id: &str, arguments: &JsonValue, handler: &mut H) -> (r: Result<JsonValue, RpcError>)
        ensures
            invalid_only(r),
            call_answered(self.config_view(), request_id@, DebugTool::Status, *arguments, ScreenshotParseOrigin::Direct, handler_answers(*old(handler)), no_writer(), outcome(r)),
            tool_gate(self.config_view(), request_id@, DebugTool::Status, *arguments, ScreenshotParseOrigin::Direct) != ToolGate::Admitted
                ==> *final(handler) == *old(handler),
    {
        self.call_handled_tool(request_id, DebugTool::Status, arguments, handler)
    }

    fn call_probe<H: SlipwayDebugCommandHandler>(&self, request_id: &str, arguments: &JsonValue, handler: &mut H) -> (r: Result<JsonValue, RpcError>)
        ensures
            invalid_only(r),
            call_answered(self.config_view(), request_id@, DebugTool::Probe, *arguments, ScreenshotParseOrigin::Direct, handler_answers(*old(handler)), no_writer(), outcome(r)),
            tool_gate(self.config_view(), request_id@, DebugTool::Probe, *arguments, ScreenshotParseOrigin::Direct) != ToolGate::Admitted
                ==> *final(handler) == *old(handler),
    {
        self.call_handled_tool(request_id, DebugTool::Probe, arguments, handler)
    }

    fn call_render<H: SlipwayDebugCommandHandler>(&self, request_id: &str, arguments: &JsonValue, handler: &mut H) -> (r: Result<JsonValue, RpcError>)
        ensures
            invalid_only(r),
            call_answered(self.config_view(), request_id@, DebugTool::Render, *arguments, ScreenshotParseOrigin::Direct, handler_answers(*old(handler)), no_writer(), outcome(r)),
            tool_gate(self.config_view(), request_id@, DebugTool::Render, *arguments, ScreenshotParseOrigin::Direct) != ToolGate::Admitted
                ==> *final(handler) == *old(handler),
    {
        self.call_handled_tool(request_id, DebugTool::Render, arguments, handler)
    }

    fn call_screenshot<H: SlipwayDebugCommandHandler, W: Fn(&PresentedPixels) -> Result<ArtifactReceipt, ArtifactWriteFailure>>(
        &self,
        request_id: &str,
        arguments: &JsonValue,
        origin: ScreenshotParseOrigin,
        handler: &mut H,
        write_artifact: &W,
    ) -> (r: Result<JsonValue, RpcError>)
        requires
            forall|px: &PresentedPixels| #[trigger] write_artifact.requires((px,)),
        ensures
            invalid_only(r),
            call_answered(self.config_view(), request_id@, DebugTool::Screenshot, *arguments, origin, handler_answers(*old(handler)), writer_gives(*write_artifact), outcome(r)),
            tool_gate(self.config_view(), request_id@, DebugTool::Screenshot, *arguments, origin) != ToolGate::Admitted
                ==> *final(handler) == *old(handler),
    {
        match self.decide_tool_call(request_id, DebugTool::Screenshot, arguments, origin)? {
            ToolDecision::Refused(payload) => Ok(tool_result(payload)),
            ToolDecision::Command(command) => {
                let ghost c = command;
                let reply = handler_reply(handler, command);
                let ghost handled = reply;
                let payload = finalize_screenshot_reply_payload("slipway.debug.screenshot", McpProbeMethod::Screenshot, reply, write_artifact);
                proof {
                    let (k, a) = choose|k: DebugReply, a: Result<ArtifactReceipt, ArtifactWriteFailure>|
                        screenshot_reply_checked(handled, k) && artifact_written(writer_gives(*write_artifact), k, a)
                            && tree(payload) == finalized_tree("slipway.debug.screenshot"@, McpProbeMethod::Screenshot, k, a);
                    assert(screenshot_reply_checked(handled, k));
                    assert(finalized_tree("slipway.debug.screenshot"@, McpProbeMethod::Screenshot, k, a) == tree(payload));
                    assert(tool_answer(DebugTool::Screenshot, handled, writer_gives(*write_artifact), Ok::<JsonTree, Seq<char>>(tool_result_tree(tree(payload)))));
                    assert(tool_command(request_id@, DebugTool::Screenshot, *arguments, origin, c) && handler_reply_of(handler_answers(*old(handler)), c, handled));
                }
                Ok(tool_result(payload))
            },
        }
    }

    fn call_control<H: SlipwayDebugCommandHandler>(&self, request_id: &str, arguments: &JsonValue, handler: &mut H) -> (r: Result<JsonValue, RpcError>)
        ensures
            invalid_only(r),
            call_answered(self.config_view(), request_id@, DebugTool::Control, *arguments, ScreenshotParseOrigin::Direct, handler_answers(*old(handler)), no_writer(), outcome(r)),
            tool_gate(self.config_view(), request_id@, DebugTool::Control, *arguments, ScreenshotParseOrigin::Direct) != ToolGate::Admitted
                ==> *final(handler) == *old(handler),
    {
        self.call_handled_tool(request_id, DebugTool::Control, arguments, handler)
    }

    fn call_physical_control<H: SlipwayDebugCommandHandler>(&self, request_id: &str, arguments: &JsonValue, handler: &mut H) -> (r: Result<JsonValue, RpcError>)
        ensures
            invalid_only(r),
            call_answered(self.config_view(), request_id@, DebugTool::PhysicalControl, *arguments, ScreenshotParseOrigin::Direct, handler_answers(*old(handler)), no_writer(), outcome(r)),
            tool_gate(self.config_view(), request_id@, DebugTool::PhysicalControl, *arguments, ScreenshotParseOrigin::Direct) != ToolGate::Admitted
                ==> *final(handler) == *old(handler),
    {
        self.call_handled_tool(request_id, DebugTool::PhysicalControl, arguments, handler)
    }

    fn call_resize<H: SlipwayDebugCommandHandler>(&self, request_id: &str, arguments: &JsonValue, handler: &mut H) -> (r: Result<JsonValue, RpcError>)
        ensures
            invalid_only(r),
            call_answered(self.config_view(), request_id@, DebugTool::Resize, *arguments, ScreenshotParseOrigin::Direct, handler_answers(*old(handler)), no_writer(), outcome(r)),
            tool_gate(self.config_view(), request_id@, DebugTool::Resize, *arguments, ScreenshotParseOrigin::Direct) != ToolGate::Admitted
                ==> *final(handler) == *old(handler),
    {
        self.call_handled_tool(request_id, DebugTool::Resize, arguments, handler)
    }
}


pub open spec fn answer_tree(id: Option<JsonValue>, r: Result<JsonTree, Seq<char>>) -> JsonTree {
    match r {
        Ok(x) => rpc_result_tree(id, x),
        Err(m) => rpc_error_tree(id, INVALID_PARAMS, m),
    }
}

pub open spec fn arguments_of(params: JsonValue) -> JsonValue {
    match json_get(params, "arguments"@) {
        Some(a) => a,
        None => JsonValue::Null,
    }
}

/// What `tools/call` answers: errors for malformed params or an unknown tool,
/// and otherwise the tool's answer under the request id of the call.
pub open spec fn tools_call_answered(
    config: DebugMcpConfig,
    id: Option<JsonValue>,
    params: Option<JsonValue>,
    origin: ScreenshotParseOrigin,
    answers: spec_fn(DebugCommand, DebugReplyProduct) -> bool,
    writes: spec_fn(PresentedPixels, Result<ArtifactReceipt, ArtifactWriteFailure>) -> bool,
    t: JsonTree,
) -> bool {
    let params_error = rpc_error_tree(id, INVALID_PARAMS, "tools/call params must be an object"@);
    let name_error = rpc_error_tree(id, INVALID_PARAMS, "tools/call params.name must be a string"@);
    match params {
        None => t == params_error,
        Some(p) => if !json_is_object(p) {
            t == params_error
        } else {
            match json_get(p, "name"@) {
                None => t == name_error,
                Some(n) => match json_as_str(n) {
                    None => t == name_error,
                    Some(name) => match tool_named(name) {
                        None => t == rpc_error_tree(id, INVALID_PARAMS, quoted("unknown debug tool `"@, name, "`"@)),
                        Some(tool) => exists|r: Result<JsonTree, Seq<char>>|
                            #[trigger] call_answered(config, request_id_text(id), tool, arguments_of(p), origin, answers, writes, r)
                                && t == answer_tree(id, r),
                    },
                },
            }
        },
    }
}

pub proof fn lemma_request_id_text_by_tree(a: JsonValue, b: JsonValue)
    requires
        tree(a) == tree(b),
    ensures
        request_id_text(Some(a)) == request_id_text(Some(b)),
{
    match a {
        JsonValue::String(s) => {
            assert(tree(b) == JsonTree::Str(s@));
            match b {
                JsonValue::String(t) => {},
                JsonValue::Text(_) => {},
                JsonValue::Array(_) => {},
                JsonValue::Object(_) => {},
                _ => {},
            }
        },
        _ => {
            match b {
                JsonValue::String(t) => {
                    assert(tree(a) == JsonTree::Str(t@));
                },
                _ => {},
            }
        },
    }
}

/// What a JSON-RPC message is answered with: nothing for the initialized
/// notification, the initialize result, an empty ping result, the tool list,
/// a tool call's answer, or an error for a missing or unsupported method.
pub open spec fn message_answered(
    config: DebugMcpConfig,
    message: JsonValue,
    origin: ScreenshotParseOrigin,
    answers: spec_fn(DebugCommand, DebugReplyProduct) -> bool,
    writes: spec_fn(PresentedPixels, Result<ArtifactReceipt, ArtifactWriteFailure>) -> bool,
    r: Option<JsonTree>,
) -> bool {
    let id = json_get(message, "id"@);
    let method = match json_get(message, "method"@) {
        Some(m) => json_as_str(m),
        None => None,
    };
    match method {
        None => r == Some(rpc_error_tree(id, -32600i64, "missing JSON-RPC method"@)),
        Some(m) => if m == "notifications/initialized"@ {
            r is None
        } else if m == "initialize"@ {
            r == Some(rpc_result_tree(id, initialize_tree()))
        } else if m == "ping"@ {
            r == Some(rpc_result_tree(id, JsonTree::Object(Seq::empty())))
        } else if m == "tools/list"@ {
            r == Some(rpc_result_tree(id, JsonTree::Object(Seq::empty().push(("tools"@, JsonTree::Array(default_tools_tree()))))))
        } else if m == "tools/call"@ {
            r matches Some(t) && tools_call_answered(config, id, json_get(message, "params"@), origin, answers, writes, t)
        } else {
            r == Some(rpc_error_tree(id, -32601i64, quoted("unsupported JSON-RPC method `"@, m, "`"@)))
        },
    }
}

pub open spec fn opt_json_tree(r: Option<JsonValue>) -> Option<JsonTree> {
    match r {
        Some(v) => Some(tree(v)),
        None => None,
    }
}

impl DebugMcpServer {
    fn handle_tools_call<H: SlipwayDebugCommandHandler, W: Fn(&PresentedPixels) -> Result<ArtifactReceipt, ArtifactWriteFailure>>(
        &self,
        id: Option<JsonValue>,
        params: Option<&JsonValue>,
        origin: ScreenshotParseOrigin,
        handler: &mut H,
        write_artifact: &W,
    ) -> (r: JsonValue)
        requires
            forall|px: &PresentedPixels| #[trigger] write_artifact.requires((px,)),
        ensures
            tools_call_answered(self.config_view(), id, match params {
                Some(p) => Some(*p),
                None => None,
            }, origin, handler_answers(*old(handler)), writer_gives(*write_artifact), tree(r)),
            !call_reaches_runtime(self.config_view(), id, match params {
                Some(p) => Some(*p),
                None => None,
            }, origin) ==> *final(handler) == *old(handler),
    {
        let p = match params {
            Some(p) => {
                if !p.is_object() {
                    return json_rpc_error(id, INVALID_PARAMS, "tools/call params must be an object");
                }
                p
            },
            None => return json_rpc_error(id, INVALID_PARAMS, "tools/call params must be an object"),
        };
        let name = match p.get("name") {
            Some(n) => match n.as_str() {
                Some(s) => s,
                None => return json_rpc_error(id, INVALID_PARAMS, "tools/call params.name must be a string"),
            },
            None => return json_rpc_error(id, INVALID_PARAMS, "tools/call params.name must be a string"),
        };
        let null = JsonValue::Null;
        let arguments = match p.get("arguments") {
            Some(a) => a,
            None => &null,
        };
        let request_id = request_id_string(match &id {
            Some(v) => Some(v),
            None => None,
        });
        let rid = request_id.as_str();
        let ghost tool: DebugTool;
        let result = if str_eq(name, "slipway.debug.status") {
            proof { tool = DebugTool::Status; }
            self.call_status(rid, arguments, handler)
        } else if str_eq(name, "slipway.debug.probe") {
            proof { tool = DebugTool::Probe; }
            self.call_probe(rid, arguments, handler)
        } else if str_eq(name, "slipway.debug.render") {
            proof { tool = DebugTool::Render; }
            self.call_render(rid, arguments, handler)
        } else if str_eq(name, "slipway.debug.screenshot") {
            proof { tool = DebugTool::Screenshot; }
            self.call_screenshot(rid, arguments, origin, handler, write_artifact)
        } else if str_eq(name, "slipway.debug.control") {
            proof { tool = DebugTool::Control; }
            self.call_control(rid, arguments, handler)
        } else if str_eq(name, "slipway.debug.physical_control") {
            proof { tool = DebugTool::PhysicalControl; }
            self.call_physical_control(rid, arguments, handler)
        } else if str_eq(name, "slipway.debug.resize") {
            proof { tool = DebugTool::Resize; }
            self.call_resize(rid, arguments, handler)
        } else {
            return json_rpc_error(id, INVALID_PARAMS, crate::rpc::concat3("unknown debug tool `", name, "`").as_str());
        };
        proof {
            if tool != DebugTool::Screenshot {
                lemma_call_answered_without_writer(self.config_view(), request_id_text(id), tool, arguments_of(*p),
                    ScreenshotParseOrigin::Direct, handler_answers(*old(handler)), writer_gives(*write_artifact), outcome(result));
                lemma_call_answered_any_origin(self.config_view(), request_id_text(id), tool, arguments_of(*p),
                    handler_answers(*old(handler)), writer_gives(*write_artifact), outcome(result), origin);
            }
            assert(call_answered(self.config_view(), request_id_text(id), tool, arguments_of(*p), origin, handler_answers(*old(handler)), writer_gives(*write_artifact), outcome(result)));
        }
        match result {
            Ok(v) => json_rpc_result(id, v),
            Err(e) => json_rpc_error(id, e.code, e.message.as_str()),
        }
    }

    /// Answers one JSON-RPC message, parsing screenshot selectors as `origin` says.
    pub fn handle_message_with_origin<H: SlipwayDebugCommandHandler, W: Fn(&PresentedPixels) -> Result<ArtifactReceipt, ArtifactWriteFailure>>(
        &self,
        message: JsonValue,
        origin: ScreenshotParseOrigin,
        handler: &mut H,
        write_artifact: &W,
    ) -> (r: Option<JsonValue>)
        requires
            forall|px: &PresentedPixels| #[trigger] write_artifact.requires((px,)),
        ensures
            message_answered(self.config_view(), message, origin, handler_answers(*old(handler)), writer_gives(*write_artifact), opt_json_tree(r)),
            !reaches_runtime(self.config_view(), message, origin) ==> *final(handler) == *old(handler),
    {
        let id = match message.get("id") {
            Some(v) => Some(v.duplicate()),
            None => None,
        };
        proof {
            if let Some(v) = json_get(message, "id"@) {
                lemma_request_id_text_by_tree(v, id->0);
            }
        }
        let method = match message.get("method") {
            Some(m) => match m.as_str() {
                Some(s) => s,
                None => return Some(json_rpc_error(id, -32600, "missing JSON-RPC method")),
            },
            None => return Some(json_rpc_error(id, -32600, "missing JSON-RPC method")),
        };
        if str_eq(method, "notifications/initialized") {
            None
        } else if str_eq(method, "initialize") {
            Some(json_rpc_result(id, initialize_result()))
        } else if str_eq(method, "ping") {
            Some(json_rpc_result(id, ObjectBuilder::new().build()))
        } else if str_eq(method, "tools/list") {
            let mut b = ObjectBuilder::new();
            b.put("tools", array(default_tools()));
            Some(json_rpc_result(id, b.build()))
        } else if str_eq(method, "tools/call") {
            Some(self.handle_tools_call(id, message.get("params"), origin, handler, write_artifact))
        } else {
            Some(json_rpc_error(id, -32601, crate::rpc::concat3("unsupported JSON-RPC method `", method, "`").as_str()))
        }
    }

    /// Answers one JSON-RPC message; presented screenshot artifacts are written with `write_artifact`.
    pub fn handle_message<H: SlipwayDebugCommandHandler, W: Fn(&PresentedPixels) -> Result<ArtifactReceipt, ArtifactWriteFailure>>(
        &self,
        message: JsonValue,
        handler: &mut H,
        write_artifact: &W,
    ) -> (r: Option<JsonValue>)
        requires
            forall|px: &PresentedPixels| #[trigger] write_artifact.requires((px,)),
        ensures
            message_answered(self.config_view(), message, ScreenshotParseOrigin::Direct, handler_answers(*old(handler)), writer_gives(*write_artifact), opt_json_tree(r)),
            !reaches_runtime(self.config_view(), message, ScreenshotParseOrigin::Direct) ==> *final(handler) == *old(handler),
    {
        self.handle_message_with_origin(message, ScreenshotParseOrigin::Direct, handler, write_artifact)
    }
}

} // verus!
