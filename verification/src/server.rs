//! The debug MCP server: JSON-RPC dispatch, the debug tools, and the
//! finalization of presented screenshots.
use vstd::prelude::*;
use crate::command::{command_admission, command_frame, DebugCommand};
use crate::evidence::DebugFailure;
use crate::frame::FrameIdentity;
use crate::json::{json_as_str, json_get, json_is_object, string_value, tree, JsonTree, JsonValue, ObjectBuilder};
use crate::json_text::{json_text, push_json_text};
use crate::payload::{
    admission_name, alpha_name, capture_path_name, diagnostics_summary, diagnostics_tree,
    evidence_source_summary, frame_json, frame_tree, presented_alpha_name,
    presented_capture_path_name, presented_surface_format_name, presented_transfer_name,
    screenshot_admission_name, screenshot_selector_json, selector_tree, source_tree,
    surface_format_name, transfer_name,
};
use crate::products::{
    call_envelope, reply_payload, reply_payload_tree, screenshot_refusal_summary,
    screenshot_refusal_tree,
};
use crate::reply::{handler_answers, DebugReply, DebugReplyProduct, McpProbeMethod, SlipwayDebugCommandHandler};
use crate::screenshot::{
    admission_of, correlation_of, screenshot_violation, validate_presented_screenshot_product,
    violation_message, PresentedPixels, PresentedScreenshotAdmission, PresentedScreenshotProduct,
};
use crate::json::{opt_str_tree, opt_string_value};
use crate::text::owned;

verus! {

/// The request id a tool call is correlated by: a string id as is, any other
/// id as its JSON text, and `notification` without an id.
pub open spec fn request_id_text(id: Option<JsonValue>) -> Seq<char> {
    match id {
        None => "notification"@,
        Some(v) => match v {
            JsonValue::String(s) => s@,
            _ => match json_text(tree(v)) {
                Some(t) => t,
                None => "null"@,
            },
        },
    }
}

pub fn request_id_string(id: Option<&JsonValue>) -> (r: String)
    ensures
        r@ == request_id_text(match id {
            Some(v) => Some(*v),
            None => None,
        }),
{
    match id {
        None => owned("notification"),
        Some(JsonValue::String(s)) => s.clone(),
        Some(v) => {
            let mut out = String::new();
            if push_json_text(&mut out, v) {
                assert(out@ =~= json_text(tree(*v))->0);
                out
            } else {
                owned("null")
            }
        },
    }
}

/// What a handler's product becomes once screenshot products are checked
/// against the command that asked for them.
pub open spec fn handler_checked(
    frame: FrameIdentity,
    admission: Option<PresentedScreenshotAdmission>,
    product: DebugReplyProduct,
    result: DebugReplyProduct,
) -> bool {
    match product {
        DebugReplyProduct::Screenshot(s) => match admission {
            None => result matches DebugReplyProduct::Error(f) && f.code@ == "screenshot-admission-missing"@
                && f.message@ == "screenshot product returned for a non-screenshot command"@
                && f.dispatch_evidence is None,
            Some(a) => match screenshot_violation(frame, a, s) {
                None => result == product,
                Some(code) => result matches DebugReplyProduct::Error(f) && f.code@ == code
                    && violation_message(frame, a, s) == Some(f.message@) && f.dispatch_evidence is None,
            },
        },
        _ => result == product,
    }
}

/// Checks a handler's product for a command: screenshot products must be
/// admitted and valid for the command's frame.
pub fn check_handler_product(
    frame: &FrameIdentity,
    admission: Option<PresentedScreenshotAdmission>,
    product: DebugReplyProduct,
) -> (r: DebugReplyProduct)
    ensures
        handler_checked(*frame, admission, product, r),
{
    match &product {
        DebugReplyProduct::Screenshot(s) => match admission {
            None => DebugReplyProduct::Error(DebugFailure::new(
                "screenshot-admission-missing",
                "screenshot product returned for a non-screenshot command",
            )),
            Some(a) => match validate_presented_screenshot_product(frame, a, s) {
                Ok(()) => product,
                Err(f) => DebugReplyProduct::Error(f),
            },
        },
        _ => product,
    }
}

/// The reply the handler gives a command: its request id and frame, and a
/// product the handler answers the command with, as checked for the command.
pub open spec fn handler_reply_of(
    answers: spec_fn(DebugCommand, DebugReplyProduct) -> bool,
    command: DebugCommand,
    reply: DebugReply,
) -> bool {
    &&& reply.request_id == command.request_id
    &&& reply.frame == command_frame(command.kind)
    &&& exists|p: DebugReplyProduct| #[trigger] answers(command, p)
        && handler_checked(reply.frame, command_admission(command.kind), p, reply.product)
}

/// Hands a command to the handler and checks what it returns.
pub fn handler_reply<H: SlipwayDebugCommandHandler>(handler: &mut H, command: DebugCommand) -> (r: DebugReply)
    ensures
        handler_reply_of(handler_answers(*old(handler)), command, r),
{
    let ghost original = command;
    let request_id = command.request_id.clone();
    let frame = command.frame_identity().duplicate();
    let admission = command.screenshot_admission();
    let product = handler.handle_debug_command(command);
    let ghost handled = product;
    let checked = check_handler_product(&frame, admission, product);
    let r = DebugReply { request_id, frame, product: checked };
    assert(handler_answers(*old(handler))(original, handled));
    r
}

/// Where a presented screenshot artifact was written.
#[derive(Clone, Debug, PartialEq, Eq)]
pub struct ArtifactReceipt {
    pub artifact_ref: String,
    pub artifact_path: String,
    pub pixel_hash: String,
}

/// Why a presented screenshot artifact could not be written: whether the
/// pixels themselves were not valid RGBA8, and a description.
#[derive(Clone, Debug, PartialEq, Eq)]
pub struct ArtifactWriteFailure {
    pub invalid_rgba: bool,
    pub detail: String,
}

/// The provider under which presented screenshot artifacts are referenced.
pub open spec fn presented_provider_id() -> Seq<char> {
    "slipway-debug-renderer.presented.v1"@
}

/// The receipt of presented pixels written to `artifact_path`: the artifact is
/// referenced under the presented provider, the captured surface instance and
/// frame, and the pixel hash of the bytes.
pub fn presented_artifact_receipt(pixels: &PresentedPixels, artifact_path: String) -> (r: ArtifactReceipt)
    ensures
        r.pixel_hash@ == crate::renderer::pixel_hash_text(pixels.width, pixels.height, pixels.bytes@),
        r.artifact_ref@ == crate::renderer::artifact_ref_text(presented_provider_id(),
            pixels.captured_frame.surface_instance_id@, pixels.captured_frame, r.pixel_hash@),
        r.artifact_path == artifact_path,
{
    let hash = crate::renderer::pixel_hash(pixels.width, pixels.height, pixels.bytes.as_slice());
    let reference = crate::renderer::artifact_ref("slipway-debug-renderer.presented.v1",
        pixels.captured_frame.surface_instance_id.as_str(), &pixels.captured_frame, hash.as_str());
    ArtifactReceipt { artifact_ref: reference, artifact_path, pixel_hash: hash }
}

/// A screenshot reply whose product has been checked against the reply frame.
pub open spec fn screenshot_reply_checked(reply: DebugReply, result: DebugReply) -> bool {
    &&& result.request_id == reply.request_id
    &&& result.frame == reply.frame
    &&& match reply.product {
        DebugReplyProduct::Screenshot(s) => {
            let a = admission_of(crate::screenshot::product_selector(s));
            match screenshot_violation(reply.frame, a, s) {
                None => result.product == reply.product,
                Some(code) => result.product matches DebugReplyProduct::Error(f) && f.code@ == code
                    && violation_message(reply.frame, a, s) == Some(f.message@)
                    && f.dispatch_evidence is None,
            }
        },
        _ => result.product == reply.product,
    }
}

/// Checks a screenshot product against the frame of its own reply and the admission of its own selector.
pub fn validated_screenshot_reply(reply: DebugReply) -> (r: DebugReply)
    ensures
        screenshot_reply_checked(reply, r),
{
    let DebugReply { request_id, frame, product } = reply;
    let failure = match &product {
        DebugReplyProduct::Screenshot(s) => {
            let admitted = match s {
                PresentedScreenshotProduct::Captured(px) => px.selector.admission(),
                PresentedScreenshotProduct::Refusal(rf) => rf.selector.admission(),
            };
            match validate_presented_screenshot_product(&frame, admitted, s) {
                Ok(()) => None,
                Err(f) => Some(f),
            }
        },
        _ => None,
    };
    match failure {
        Some(f) => DebugReply { request_id, frame, product: DebugReplyProduct::Error(f) },
        None => DebugReply { request_id, frame, product },
    }
}

pub open spec fn presented_tree(px: PresentedPixels, rc: ArtifactReceipt) -> JsonTree {
    JsonTree::Object(Seq::empty().push(("admission"@, JsonTree::Str(admission_name(admission_of(px.selector))))).push(("requested_frame"@, frame_tree(correlation_of(px.selector)))).push(("selector"@, selector_tree(px.selector))).push(("captured_frame"@, frame_tree(px.captured_frame))).push(("source"@, source_tree(px.source))).push(("capture_path"@, JsonTree::Str(capture_path_name(px.capture_path)))).push(("source_format"@, JsonTree::Str(surface_format_name(px.source_format)))).push(("transfer"@, JsonTree::Str(transfer_name(px.transfer)))).push(("alpha"@, JsonTree::Str(alpha_name(px.alpha)))).push(("width"@, JsonTree::UInt(px.width as u64))).push(("height"@, JsonTree::UInt(px.height as u64))).push(("artifact_ref"@, JsonTree::Str(rc.artifact_ref@))).push(("artifact_path"@, JsonTree::Str(rc.artifact_path@))).push(("pixel_hash"@, JsonTree::Str(rc.pixel_hash@))).push(("diagnostics"@, diagnostics_tree(px.diagnostics@))))
}

pub open spec fn artifact_failure_code(f: ArtifactWriteFailure) -> Seq<char> {
    if f.invalid_rgba {
        "screenshot-artifact-invalid-rgba"@
    } else {
        "screenshot-artifact-write-failed"@
    }
}

pub open spec fn artifact_failure_tree(px: PresentedPixels, f: ArtifactWriteFailure) -> JsonTree {
    JsonTree::Object(Seq::empty().push(("admission"@, JsonTree::Str(admission_name(admission_of(px.selector))))).push(("requested_frame"@, frame_tree(correlation_of(px.selector)))).push(("selector"@, selector_tree(px.selector))).push(("captured_frame"@, frame_tree(px.captured_frame))).push(("backend_id"@, opt_str_tree(px.source.backend_id))).push(("code"@, JsonTree::Str(artifact_failure_code(f)))).push(("reason"@, JsonTree::Str("presented screenshot artifact finalization failed: "@ + f.detail@))).push(("diagnostics"@, diagnostics_tree(px.diagnostics@))))
}

/// The payload of a checked screenshot reply, given what writing its artifact gave.
pub open spec fn finalized_tree(
    tool: Seq<char>,
    method: McpProbeMethod,
    reply: DebugReply,
    artifact: Result<ArtifactReceipt, ArtifactWriteFailure>,
) -> JsonTree {
    match reply.product {
        DebugReplyProduct::Screenshot(PresentedScreenshotProduct::Captured(px)) => match artifact {
            Ok(rc) => JsonTree::Object(
                call_envelope(tool, method, reply.request_id@, reply.frame, true, false, "presented_screenshot"@)
                    .push(("product"@, presented_tree(px, rc))),
            ),
            Err(f) => JsonTree::Object(
                call_envelope(tool, method, reply.request_id@, reply.frame, true, true, "screenshot_refusal"@)
                    .push(("product"@, artifact_failure_tree(px, f))),
            ),
        },
        DebugReplyProduct::Screenshot(PresentedScreenshotProduct::Refusal(rf)) => JsonTree::Object(
            call_envelope(tool, method, reply.request_id@, reply.frame, true, true, "screenshot_refusal"@)
                .push(("product"@, screenshot_refusal_tree(rf))),
        ),
        _ => reply_payload_tree(tool, method, reply, true),
    }
}

fn envelope_builder(tool: &str, method: McpProbeMethod, reply: &DebugReply, refused: bool, kind: &str) -> (r: ObjectBuilder)
    ensures
        r.entries() == call_envelope(tool@, method, reply.request_id@, reply.frame, true, refused, kind@),
{
    let mut b = ObjectBuilder::new();
    b.put("method", string_value("tools/call"));
    b.put("tool", string_value(tool));
    b.put("bridge_method", string_value(crate::payload::bridge_method_name(method)));
    b.put("request_id", string_value(reply.request_id.as_str()));
    b.put("frame", frame_json(&reply.frame));
    b.put("admitted", JsonValue::Bool(true));
    b.put("refused", JsonValue::Bool(refused));
    b.put("product_kind", string_value(kind));
    b
}

/// The payload of a checked screenshot reply: a captured screenshot with the
/// artifact it was written to, a refusal when the artifact could not be
/// written, a handler refusal, or the reply as it stands.
pub fn finalized_screenshot_payload(
    tool: &str,
    method: McpProbeMethod,
    reply: &DebugReply,
    artifact: &Result<ArtifactReceipt, ArtifactWriteFailure>,
) -> (r: JsonValue)
    ensures
        tree(r) == finalized_tree(tool@, method, *reply, *artifact),
{
    match &reply.product {
        DebugReplyProduct::Screenshot(PresentedScreenshotProduct::Captured(px)) => match artifact {
            Ok(rc) => {
                let mut p = ObjectBuilder::new();
                p.put("admission", string_value(screenshot_admission_name(px.selector.admission())));
                p.put("requested_frame", frame_json(px.selector.correlation_frame()));
                p.put("selector", screenshot_selector_json(&px.selector));
                p.put("captured_frame", frame_json(&px.captured_frame));
                p.put("source", evidence_source_summary(&px.source));
                p.put("capture_path", string_value(presented_capture_path_name(px.capture_path)));
                p.put("source_format", string_value(presented_surface_format_name(px.source_format)));
                p.put("transfer", string_value(presented_transfer_name(px.transfer)));
                p.put("alpha", string_value(presented_alpha_name(px.alpha)));
                p.put("width", JsonValue::UInt(px.width as u64));
                p.put("height", JsonValue::UInt(px.height as u64));
                p.put("artifact_ref", string_value(rc.artifact_ref.as_str()));
                p.put("artifact_path", string_value(rc.artifact_path.as_str()));
                p.put("pixel_hash", string_value(rc.pixel_hash.as_str()));
                p.put("diagnostics", diagnostics_summary(&px.diagnostics));
                let mut b = envelope_builder(tool, method, reply, false, "presented_screenshot");
                b.put("product", p.build());
                b.build()
            },
            Err(f) => {
                let mut reason = owned("presented screenshot artifact finalization failed: ");
                reason.append(f.detail.as_str());
                let mut p = ObjectBuilder::new();
                p.put("admission", string_value(screenshot_admission_name(px.selector.admission())));
                p.put("requested_frame", frame_json(px.selector.correlation_frame()));
                p.put("selector", screenshot_selector_json(&px.selector));
                p.put("captured_frame", frame_json(&px.captured_frame));
                p.put("backend_id", opt_string_value(&px.source.backend_id));
                p.put("code", string_value(if f.invalid_rgba {
                    "screenshot-artifact-invalid-rgba"
                } else {
                    "screenshot-artifact-write-failed"
                }));
                p.put("reason", JsonValue::String(reason));
                p.put("diagnostics", diagnostics_summary(&px.diagnostics));
                let mut b = envelope_builder(tool, method, reply, true, "screenshot_refusal");
                b.put("product", p.build());
                b.build()
            },
        },
        DebugReplyProduct::Screenshot(PresentedScreenshotProduct::Refusal(rf)) => {
            let mut b = envelope_builder(tool, method, reply, true, "screenshot_refusal");
            b.put("product", screenshot_refusal_summary(rf));
            b.build()
        },
        _ => reply_payload(tool, method, reply, true),
    }
}

/// What an artifact writer may give for presented pixels.
pub open spec fn writer_gives<W: Fn(&PresentedPixels) -> Result<ArtifactReceipt, ArtifactWriteFailure>>(w: W) -> spec_fn(PresentedPixels, Result<ArtifactReceipt, ArtifactWriteFailure>) -> bool {
    |px: PresentedPixels, a: Result<ArtifactReceipt, ArtifactWriteFailure>| w.ensures((&px,), a)
}

/// The artifact result of a checked reply: for captured pixels, what the
/// writer gave for them; a reply without captured pixels writes nothing and
/// its payload does not depend on this result.
pub open spec fn artifact_written(
    writes: spec_fn(PresentedPixels, Result<ArtifactReceipt, ArtifactWriteFailure>) -> bool,
    checked: DebugReply,
    artifact: Result<ArtifactReceipt, ArtifactWriteFailure>,
) -> bool {
    checked.product matches DebugReplyProduct::Screenshot(PresentedScreenshotProduct::Captured(px)) ==> writes(px, artifact)
}

/// Checks a screenshot reply, writes the artifact of a valid capture with
/// `write_artifact`, and builds the payload from whatever the write gave.
pub fn finalize_screenshot_reply_payload<W: Fn(&PresentedPixels) -> Result<ArtifactReceipt, ArtifactWriteFailure>>(
    tool: &str,
    method: McpProbeMethod,
    reply: DebugReply,
    write_artifact: &W,
) -> (r: JsonValue)
    requires
        forall|px: &PresentedPixels| #[trigger] write_artifact.requires((px,)),
    ensures
        exists|checked: DebugReply, artifact: Result<ArtifactReceipt, ArtifactWriteFailure>|
            screenshot_reply_checked(reply, checked) && artifact_written(writer_gives(*write_artifact), checked, artifact)
                && tree(r) == finalized_tree(tool@, method, checked, artifact),
{
    let checked = validated_screenshot_reply(reply);
    let artifact = match &checked.product {
        DebugReplyProduct::Screenshot(PresentedScreenshotProduct::Captured(px)) => write_artifact(px),
        _ => Err(ArtifactWriteFailure { invalid_rgba: false, detail: String::new() }),
    };
    finalized_screenshot_payload(tool, method, &checked, &artifact)
}

} // verus!
