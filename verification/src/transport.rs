//! Finishing bridged tool calls, and the bounded runtime transport that
//! carries MCP request text to the app runtime and response work back.
use vstd::prelude::*;
use crate::reply::DebugReplyProduct;
use crate::command::DebugCommand;
use crossbeam_channel::{Receiver, Sender};
use crate::begin::{begun, bridge_message_answered, tool_command, tool_gate, DebugMcpBridgeMessage, DebugMcpPendingToolCall, DebugMcpResponseWork, ToolGate};
use crate::dispatch::{arguments_of, call_answered, message_answered, tool_named, tools_call_answered};
use crate::json::{json_as_str, json_get};
use crate::mcp::DebugMcpConfig;
use crate::server::{handler_reply_of, request_id_text};
use crate::tool_params::ScreenshotParseOrigin;
use crate::bridge::{channel, recv, try_recv, try_send, DebugBridgeError, ReceiveDisconnected, SendFailure};
use crate::dispatch::{answer_tree, opt_json_tree, tool_answer, DebugTool};
use crate::begin::{tool_method, tool_name};
use crate::json::{tree, JsonTree, JsonValue};
use crate::products::{json_rpc_result, reply_payload, reply_payload_tree, rpc_result_tree, tool_result, tool_result_tree};
use crate::reply::{DebugReply, McpProbeMethod};
use crate::screenshot::PresentedPixels;
use crate::server::{
    finalize_screenshot_reply_payload, finalized_tree, screenshot_reply_checked, ArtifactReceipt,
    ArtifactWriteFailure, artifact_written, writer_gives,
};

verus! {

/// The finished answer of a bridged tool call, given the reply it received.
pub open spec fn finished_work(id: Option<JsonTree>, tool: Seq<char>, method: McpProbeMethod, reply: DebugReply, work: DebugMcpResponseWork) -> bool {
    if method == McpProbeMethod::Screenshot {
        work matches DebugMcpResponseWork::PresentedScreenshot { rpc_id, tool: t, method: m, reply: r }
            && opt_json_tree(rpc_id) == id && t@ == tool && m == method && r == reply
    } else {
        work matches DebugMcpResponseWork::Ready(Some(v)) && Some(tree(v)) == match id {
            Some(i) => Some(JsonTree::Object(Seq::empty().push(("jsonrpc"@, JsonTree::Str("2.0"@))).push(("id"@, i)).push(("result"@, tool_result_tree(reply_payload_tree(tool, method, reply, true)))))),
            None => Some(JsonTree::Object(Seq::empty().push(("jsonrpc"@, JsonTree::Str("2.0"@))).push(("id"@, JsonTree::Null)).push(("result"@, tool_result_tree(reply_payload_tree(tool, method, reply, true)))))),
        }
    }
}

/// A JSON-RPC result under a call's id, `null` when the call had none.
pub open spec fn result_under(id: Option<JsonTree>, result: JsonTree) -> JsonTree {
    JsonTree::Object(Seq::empty().push(("jsonrpc"@, JsonTree::Str("2.0"@))).push(("id"@, match id {
        Some(i) => i,
        None => JsonTree::Null,
    })).push(("result"@, result)))
}

/// The answer a bridged tool call finishes with, given the reply it received:
/// the reply's payload, or for a screenshot the finalized payload of the
/// checked reply with what the artifact writer gave for its pixels.
pub open spec fn finished_answer(id: Option<JsonTree>, tool: Seq<char>, method: McpProbeMethod, reply: DebugReply, writes: spec_fn(PresentedPixels, Result<ArtifactReceipt, ArtifactWriteFailure>) -> bool, t: JsonTree) -> bool {
    if method == McpProbeMethod::Screenshot {
        exists|checked: DebugReply, artifact: Result<ArtifactReceipt, ArtifactWriteFailure>|
            #![trigger screenshot_reply_checked(reply, checked), finalized_tree(tool, method, checked, artifact)]
            screenshot_reply_checked(reply, checked) && artifact_written(writes, checked, artifact)
                && t == result_under(id, tool_result_tree(finalized_tree(tool, method, checked, artifact)))
    } else {
        t == result_under(id, tool_result_tree(reply_payload_tree(tool, method, reply, true)))
    }
}

proof fn lemma_result_under_opt(v: Option<JsonValue>, id: Option<JsonTree>, result: JsonTree)
    requires
        opt_json_tree(v) == id,
    ensures
        rpc_result_tree(v, result) == result_under(id, result),
{
}

/// Given the same reply and the same artifact writer, a call begun on the
/// bridge finishes with exactly the answer the direct server gives for that reply.
pub proof fn lemma_bridged_call_finishes_as_direct(id: Option<JsonValue>, tool: DebugTool, reply: DebugReply, writes: spec_fn(PresentedPixels, Result<ArtifactReceipt, ArtifactWriteFailure>) -> bool, t: JsonTree)
    ensures
        finished_answer(opt_json_tree(id), tool_name(tool), tool_method(tool), reply, writes, t)
            <==> exists|r: Result<JsonTree, Seq<char>>| #[trigger] tool_answer(tool, reply, writes, r) && t == answer_tree(id, r),
{
    if tool == DebugTool::Screenshot {
        if finished_answer(opt_json_tree(id), tool_name(tool), tool_method(tool), reply, writes, t) {
            let (c, a) = choose|c: DebugReply, a: Result<ArtifactReceipt, ArtifactWriteFailure>|
                #![trigger screenshot_reply_checked(reply, c), finalized_tree(tool_name(tool), tool_method(tool), c, a)]
                screenshot_reply_checked(reply, c) && artifact_written(writes, c, a)
                    && t == result_under(opt_json_tree(id), tool_result_tree(finalized_tree(tool_name(tool), tool_method(tool), c, a)));
            let r = Ok::<JsonTree, Seq<char>>(tool_result_tree(finalized_tree("slipway.debug.screenshot"@, McpProbeMethod::Screenshot, c, a)));
            lemma_result_under_opt(id, opt_json_tree(id), tool_result_tree(finalized_tree("slipway.debug.screenshot"@, McpProbeMethod::Screenshot, c, a)));
            assert(tool_answer(tool, reply, writes, r));
        }
        if exists|r: Result<JsonTree, Seq<char>>| #[trigger] tool_answer(tool, reply, writes, r) && t == answer_tree(id, r) {
            let r = choose|r: Result<JsonTree, Seq<char>>| #[trigger] tool_answer(tool, reply, writes, r) && t == answer_tree(id, r);
            let (c, a) = choose|c: DebugReply, a: Result<ArtifactReceipt, ArtifactWriteFailure>|
                #![trigger screenshot_reply_checked(reply, c), finalized_tree("slipway.debug.screenshot"@, McpProbeMethod::Screenshot, c, a)]
                screenshot_reply_checked(reply, c) && artifact_written(writes, c, a)
                    && r == Ok::<JsonTree, Seq<char>>(tool_result_tree(finalized_tree("slipway.debug.screenshot"@, McpProbeMethod::Screenshot, c, a)));
            lemma_result_under_opt(id, opt_json_tree(id), tool_result_tree(finalized_tree("slipway.debug.screenshot"@, McpProbeMethod::Screenshot, c, a)));
            assert(screenshot_reply_checked(reply, c));
        }
    } else {
        let r = Ok::<JsonTree, Seq<char>>(tool_result_tree(reply_payload_tree(tool_name(tool), tool_method(tool), reply, true)));
        lemma_result_under_opt(id, opt_json_tree(id), tool_result_tree(reply_payload_tree(tool_name(tool), tool_method(tool), reply, true)));
        assert(tool_method(tool) != McpProbeMethod::Screenshot);
        assert(tool_answer(tool, reply, writes, r));
    }
}

/// A tool call begun on the bridge that finishes with a reply the direct
/// server's handler could give for the submitted command answers exactly what
/// the direct server answers the same message with, under the same artifact writer.
pub proof fn lemma_bridged_message_answers_as_direct(
    config: DebugMcpConfig,
    message: JsonValue,
    origin: ScreenshotParseOrigin,
    answers: spec_fn(DebugCommand, DebugReplyProduct) -> bool,
    writes: spec_fn(PresentedPixels, Result<ArtifactReceipt, ArtifactWriteFailure>) -> bool,
    pending: DebugMcpPendingToolCall,
    reply: DebugReply,
    t: JsonTree,
)
    requires
        bridge_message_answered(config, message, origin, DebugMcpBridgeMessage::Pending(pending)),
        handler_reply_of(answers, pending.command_view(), reply),
        finished_answer(pending.id_view(), pending.tool_view(), pending.method_view(), reply, writes, t),
    ensures
        message_answered(config, message, origin, answers, writes, Some(t)),
{
    let id = json_get(message, "id"@);
    let m = json_as_str(json_get(message, "method"@)->0)->0;
    reveal_strlit("tools/call");
    reveal_strlit("notifications/initialized");
    reveal_strlit("initialize");
    reveal_strlit("ping");
    reveal_strlit("tools/list");
    assert(m == "tools/call"@);
    let p = json_get(message, "params"@)->0;
    let name = json_as_str(json_get(p, "name"@)->0)->0;
    let tool = tool_named(name)->0;
    let rid = request_id_text(id);
    let args = arguments_of(p);
    assert(begun(config, id, tool, args, origin, DebugMcpBridgeMessage::Pending(pending)));
    assert(tool_gate(config, rid, tool, args, origin) == ToolGate::Admitted);
    lemma_bridged_call_finishes_as_direct(id, tool, reply, writes, t);
    let r = choose|r: Result<JsonTree, Seq<char>>| #[trigger] tool_answer(tool, reply, writes, r) && t == answer_tree(id, r);
    assert(tool_command(rid, tool, args, origin, pending.command_view()) && handler_reply_of(answers, pending.command_view(), reply));
    assert(call_answered(config, rid, tool, args, origin, answers, writes, r));
    assert(tools_call_answered(config, id, Some(p), origin, answers, writes, t));
}

impl DebugMcpPendingToolCall {
    /// The work that answers the call once the bridge has its reply: a
    /// screenshot reply still to be finalized, or the finished answer.
    pub fn try_finish_work(&self) -> (r: Result<Option<DebugMcpResponseWork>, DebugBridgeError>)
        ensures
            r matches Ok(Some(work)) ==> exists|reply: DebugReply| #[trigger] finished_work(self.id_view(), self.tool_view(), self.method_view(), reply, work),
            r matches Err(e) ==> e == DebugBridgeError::ReplyQueueDisconnected,
    {
        let reply = match self.pending_reply()? {
            Some(reply) => reply,
            None => return Ok(None),
        };
        let ghost received = reply;
        let id = match self.id() {
            Some(v) => Some(v.duplicate()),
            None => None,
        };
        let work = if self.method() == McpProbeMethod::Screenshot {
            DebugMcpResponseWork::PresentedScreenshot { rpc_id: id, tool: crate::text::owned(self.tool_name()), method: self.method(), reply }
        } else {
            DebugMcpResponseWork::Ready(Some(json_rpc_result(id, tool_result(reply_payload(self.tool_name(), self.method(), &reply, true)))))
        };
        assert(finished_work(self.id_view(), self.tool_view(), self.method_view(), received, work));
        Ok(Some(work))
    }

    /// The answer of the call once the bridge has its reply; a screenshot's
    /// artifact is written with `write_artifact`.
    pub fn try_finish<W: Fn(&PresentedPixels) -> Result<ArtifactReceipt, ArtifactWriteFailure>>(&self, write_artifact: &W) -> (r: Result<Option<JsonValue>, DebugBridgeError>)
        requires
            forall|px: &PresentedPixels| #[trigger] write_artifact.requires((px,)),
        ensures
            r matches Ok(Some(v)) ==> exists|reply: DebugReply|
                #[trigger] finished_answer(self.id_view(), self.tool_view(), self.method_view(), reply, writer_gives(*write_artifact), tree(v)),
            r matches Err(e) ==> e == DebugBridgeError::ReplyQueueDisconnected,
    {
        match self.try_finish_work()? {
            Some(work) => {
                let ghost w = work;
                let finished = finalize_response_work(work, write_artifact);
                proof {
                    let reply = choose|reply: DebugReply| #[trigger] finished_work(self.id_view(), self.tool_view(), self.method_view(), reply, w);
                    match w {
                        DebugMcpResponseWork::Ready(v) => {
                            assert(finished_answer(self.id_view(), self.tool_view(), self.method_view(), reply, writer_gives(*write_artifact), tree(finished->0)));
                        },
                        DebugMcpResponseWork::PresentedScreenshot { rpc_id, tool, method, reply: rp } => {
                            let (c, a) = choose|c: DebugReply, a: Result<ArtifactReceipt, ArtifactWriteFailure>|
                                #![trigger screenshot_reply_checked(rp, c), finalized_tree(tool@, method, c, a)]
                                screenshot_reply_checked(rp, c) && artifact_written(writer_gives(*write_artifact), c, a)
                                    && (finished matches Some(v) && tree(v) == rpc_result_tree(rpc_id, tool_result_tree(finalized_tree(tool@, method, c, a))));
                            lemma_result_under_opt(rpc_id, self.id_view(), tool_result_tree(finalized_tree(tool@, method, c, a)));
                            assert(screenshot_reply_checked(reply, c));
                            assert(finished_answer(self.id_view(), self.tool_view(), self.method_view(), reply, writer_gives(*write_artifact), tree(finished->0)));
                        },
                    }
                }
                Ok(finished)
            },
            None => Ok(None),
        }
    }
}

/// What response work finalizes to: the ready answer, or the finalized
/// screenshot payload under the work's id.
pub open spec fn finalized_work(work: DebugMcpResponseWork, writes: spec_fn(PresentedPixels, Result<ArtifactReceipt, ArtifactWriteFailure>) -> bool, r: Option<JsonValue>) -> bool {
    match work {
        DebugMcpResponseWork::Ready(v) => opt_json_tree(r) == opt_json_tree(v),
        DebugMcpResponseWork::PresentedScreenshot { rpc_id, tool, method, reply } =>
            exists|checked: DebugReply, artifact: Result<ArtifactReceipt, ArtifactWriteFailure>|
                #![trigger screenshot_reply_checked(reply, checked), finalized_tree(tool@, method, checked, artifact)]
                screenshot_reply_checked(reply, checked) && artifact_written(writes, checked, artifact)
                    && (r matches Some(v) && tree(v) == rpc_result_tree(rpc_id, tool_result_tree(finalized_tree(tool@, method, checked, artifact)))),
    }
}

/// Finalizes response work; a screenshot's artifact is written with `write_artifact`.
pub fn finalize_response_work<W: Fn(&PresentedPixels) -> Result<ArtifactReceipt, ArtifactWriteFailure>>(work: DebugMcpResponseWork, write_artifact: &W) -> (r: Option<JsonValue>)
    requires
        forall|px: &PresentedPixels| #[trigger] write_artifact.requires((px,)),
    ensures
        finalized_work(work, writer_gives(*write_artifact), r),
{
    match work {
        DebugMcpResponseWork::Ready(v) => v,
        DebugMcpResponseWork::PresentedScreenshot { rpc_id, tool, method, reply } => {
            let ghost (t, m, rp) = (tool, method, reply);
            let payload = finalize_screenshot_reply_payload(tool.as_str(), method, reply, write_artifact);
            proof {
                let (c, a) = choose|c: DebugReply, a: Result<ArtifactReceipt, ArtifactWriteFailure>|
                    screenshot_reply_checked(rp, c) && artifact_written(writer_gives(*write_artifact), c, a)
                        && tree(payload) == finalized_tree(t@, m, c, a);
                assert(screenshot_reply_checked(rp, c));
                assert(finalized_tree(t@, m, c, a) == tree(payload));
            }
            Some(json_rpc_result(rpc_id, tool_result(payload)))
        },
    }
}

#[derive(Clone, Copy, Debug, PartialEq, Eq, Structural)]
pub enum DebugMcpRuntimeTransportError {
    RequestQueueFull,
    RequestQueueDisconnected,
    ResponseQueueEmpty,
    ResponseQueueFull,
    ResponseQueueDisconnected,
}

pub open spec fn transport_error_label(e: DebugMcpRuntimeTransportError) -> Seq<char> {
    match e {
        DebugMcpRuntimeTransportError::RequestQueueFull => "RequestQueueFull"@,
        DebugMcpRuntimeTransportError::RequestQueueDisconnected => "RequestQueueDisconnected"@,
        DebugMcpRuntimeTransportError::ResponseQueueEmpty => "ResponseQueueEmpty"@,
        DebugMcpRuntimeTransportError::ResponseQueueFull => "ResponseQueueFull"@,
        DebugMcpRuntimeTransportError::ResponseQueueDisconnected => "ResponseQueueDisconnected"@,
    }
}

/// The message of the I/O error a transport failure becomes on stdio.
pub fn runtime_transport_error_text(e: DebugMcpRuntimeTransportError) -> (r: String)
    ensures
        r@ == "runtime MCP transport error: "@ + transport_error_label(e),
{
    let mut m = crate::text::owned("runtime MCP transport error: ");
    m.append(match e {
        DebugMcpRuntimeTransportError::RequestQueueFull => "RequestQueueFull",
        DebugMcpRuntimeTransportError::RequestQueueDisconnected => "RequestQueueDisconnected",
        DebugMcpRuntimeTransportError::ResponseQueueEmpty => "ResponseQueueEmpty",
        DebugMcpRuntimeTransportError::ResponseQueueFull => "ResponseQueueFull",
        DebugMcpRuntimeTransportError::ResponseQueueDisconnected => "ResponseQueueDisconnected",
    });
    m
}

/// One MCP request for the app runtime, with the channel its response goes back on.
pub struct DebugMcpRuntimeRequest {
    request: String,
    response_tx: Sender<DebugMcpResponseWork>,
}

/// Submits request text to the app runtime; clones share the queue.
pub struct DebugMcpRuntimeClient {
    request_tx: Sender<DebugMcpRuntimeRequest>,
}

/// The app runtime's side of the transport.
pub struct DebugMcpRuntimeEndpoint {
    request_rx: Receiver<DebugMcpRuntimeRequest>,
}

/// Waits for the response to one submitted request.
pub struct DebugMcpRuntimeResponseHandle {
    response_rx: Receiver<DebugMcpResponseWork>,
}

/// A transport whose request queue holds at least one and at most `max(capacity, 1)` requests.
pub fn bounded_runtime_mcp(capacity: usize) -> (r: (DebugMcpRuntimeClient, DebugMcpRuntimeEndpoint))
    requires
        capacity < 0x4000_0000,
{
    let cap = if capacity < 1 { 1 } else { capacity };
    let (request_tx, request_rx) = channel(cap);
    (DebugMcpRuntimeClient { request_tx }, DebugMcpRuntimeEndpoint { request_rx })
}

impl DebugMcpRuntimeClient {
    /// Queues request text without blocking.
    pub fn submit(&self, request: String) -> (r: Result<DebugMcpRuntimeResponseHandle, DebugMcpRuntimeTransportError>)
        ensures
            r matches Err(e) ==> e == DebugMcpRuntimeTransportError::RequestQueueFull
                || e == DebugMcpRuntimeTransportError::RequestQueueDisconnected,
    {
        let (response_tx, response_rx) = channel(1);
        match try_send(&self.request_tx, DebugMcpRuntimeRequest { request, response_tx }) {
            Ok(()) => Ok(DebugMcpRuntimeResponseHandle { response_rx }),
            Err(SendFailure::Full) => Err(DebugMcpRuntimeTransportError::RequestQueueFull),
            Err(SendFailure::Disconnected) => Err(DebugMcpRuntimeTransportError::RequestQueueDisconnected),
        }
    }
}

impl DebugMcpRuntimeEndpoint {
    /// The next waiting request, if any.
    pub fn try_recv(&self) -> (r: Result<Option<DebugMcpRuntimeRequest>, DebugMcpRuntimeTransportError>)
        ensures
            r matches Err(e) ==> e == DebugMcpRuntimeTransportError::RequestQueueDisconnected,
    {
        match try_recv(&self.request_rx) {
            Ok(request) => Ok(request),
            Err(ReceiveDisconnected) => Err(DebugMcpRuntimeTransportError::RequestQueueDisconnected),
        }
    }
}

impl DebugMcpRuntimeRequest {
    pub closed spec fn text(&self) -> Seq<char> {
        self.request@
    }

    pub fn request(&self) -> (r: &str)
        ensures
            r@ == self.text(),
    {
        self.request.as_str()
    }

    pub fn into_request(self) -> (r: String)
        ensures
            r@ == self.text(),
    {
        self.request
    }

    /// Sends a finished response.
    pub fn respond(self, response: Option<JsonValue>) -> (r: Result<(), DebugMcpRuntimeTransportError>)
        ensures
            r matches Err(e) ==> e == DebugMcpRuntimeTransportError::ResponseQueueFull
                || e == DebugMcpRuntimeTransportError::ResponseQueueDisconnected,
    {
        self.respond_work(DebugMcpResponseWork::Ready(response))
    }

    /// Sends response work, to be finalized by the receiver.
    pub fn respond_work(self, work: DebugMcpResponseWork) -> (r: Result<(), DebugMcpRuntimeTransportError>)
        ensures
            r matches Err(e) ==> e == DebugMcpRuntimeTransportError::ResponseQueueFull
                || e == DebugMcpRuntimeTransportError::ResponseQueueDisconnected,
    {
        match try_send(&self.response_tx, work) {
            Ok(()) => Ok(()),
            Err(SendFailure::Full) => Err(DebugMcpRuntimeTransportError::ResponseQueueFull),
            Err(SendFailure::Disconnected) => Err(DebugMcpRuntimeTransportError::ResponseQueueDisconnected),
        }
    }
}

impl DebugMcpRuntimeResponseHandle {
    /// The finalized response, once the runtime has sent it.
    pub fn try_recv<W: Fn(&PresentedPixels) -> Result<ArtifactReceipt, ArtifactWriteFailure>>(&self, write_artifact: &W) -> (r: Result<Option<Option<JsonValue>>, DebugMcpRuntimeTransportError>)
        requires
            forall|px: &PresentedPixels| #[trigger] write_artifact.requires((px,)),
        ensures
            r matches Err(e) ==> e == DebugMcpRuntimeTransportError::ResponseQueueDisconnected,
    {
        match try_recv(&self.response_rx) {
            Ok(Some(work)) => Ok(Some(finalize_response_work(work, write_artifact))),
            Ok(None) => Ok(None),
            Err(ReceiveDisconnected) => Err(DebugMcpRuntimeTransportError::ResponseQueueDisconnected),
        }
    }

    /// Waits for the response and finalizes it.
    pub fn recv<W: Fn(&PresentedPixels) -> Result<ArtifactReceipt, ArtifactWriteFailure>>(&self, write_artifact: &W) -> (r: Result<Option<JsonValue>, DebugMcpRuntimeTransportError>)
        requires
            forall|px: &PresentedPixels| #[trigger] write_artifact.requires((px,)),
        ensures
            r matches Err(e) ==> e == DebugMcpRuntimeTransportError::ResponseQueueDisconnected,
    {
        match recv(&self.response_rx) {
            Ok(work) => Ok(finalize_response_work(work, write_artifact)),
            Err(ReceiveDisconnected) => Err(DebugMcpRuntimeTransportError::ResponseQueueDisconnected),
        }
    }
}

} // verus!
