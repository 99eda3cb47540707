//! Reading the arguments of whole tool calls: screenshot requests, render
//! frames and packets, the control trace flag and request ids.
use vstd::prelude::*;
use crate::command::RenderPacket;
use crate::frame::FrameIdentity;
use crate::json::{json_get, json_is_object, JsonValue};
use crate::params::{frame_err, frame_val, parse_frame, parse_frame_from_arguments};
use crate::rpc::{
    first, object_err, object_val, opt_bool_err, opt_bool_val, opt_string_err, opt_string_val,
    optional_bool_field, optional_string_field, parsed, required_object_field, RpcError,
    INVALID_PARAMS,
};
use crate::screenshot::{PresentedScreenshotRequest, PresentedScreenshotSelector};
use crate::text::{owned, u64_to_decimal};

verus! {

/// Which selector a runtime that normalized a screenshot request chose.
#[derive(Clone, Copy, Debug, PartialEq, Eq, Structural)]
pub enum RuntimeScreenshotSelector {
    Exact,
    Current,
}

/// Where a screenshot request came from: directly from a client, or from a
/// runtime that already normalized its selector.
#[derive(Clone, Copy, Debug, PartialEq, Eq, Structural)]
pub enum ScreenshotParseOrigin {
    Direct,
    RuntimeNormalized(RuntimeScreenshotSelector),
}

pub open spec fn screenshot_request_err(v: JsonValue) -> Option<Seq<char>> {
    if !json_is_object(v) {
        Some("tool arguments must be an object"@)
    } else if json_get(v, "_slipway_frame_admission"@) is Some {
        Some("field `_slipway_frame_admission` is not supported"@)
    } else {
        first(object_err(v, "frame"@), frame_err(object_val(v, "frame"@)))
    }
}

pub open spec fn screenshot_selector_for(frame: FrameIdentity, origin: ScreenshotParseOrigin) -> PresentedScreenshotSelector {
    match origin {
        ScreenshotParseOrigin::RuntimeNormalized(RuntimeScreenshotSelector::Current) => PresentedScreenshotSelector::Current { request_context: frame },
        _ => PresentedScreenshotSelector::Exact { expected_frame: frame },
    }
}

pub open spec fn screenshot_request_val(v: JsonValue, origin: ScreenshotParseOrigin) -> PresentedScreenshotRequest {
    PresentedScreenshotRequest { selector: screenshot_selector_for(frame_val(object_val(v, "frame"@)), origin) }
}

/// A presented screenshot request. Direct requests and runtime-normalized
/// exact requests select the exact frame; runtime-normalized current requests
/// take the frame as request context. Clients cannot supply an admission of
/// their own.
pub fn parse_presented_screenshot_request(arguments: &JsonValue, origin: ScreenshotParseOrigin) -> (r: Result<PresentedScreenshotRequest, RpcError>)
    ensures
        parsed(r, screenshot_request_err(*arguments), screenshot_request_val(*arguments, origin)),
{
    if !arguments.is_object() {
        return Err(RpcError::invalid_params(owned("tool arguments must be an object")));
    }
    if arguments.get("_slipway_frame_admission").is_some() {
        return Err(RpcError::invalid_params(owned("field `_slipway_frame_admission` is not supported")));
    }
    let frame = parse_frame(required_object_field(arguments, "frame")?)?;
    let selector = match origin {
        ScreenshotParseOrigin::RuntimeNormalized(RuntimeScreenshotSelector::Current) => PresentedScreenshotSelector::Current { request_context: frame },
        _ => PresentedScreenshotSelector::Exact { expected_frame: frame },
    };
    Ok(PresentedScreenshotRequest { selector })
}

pub open spec fn arguments_frame_err(v: JsonValue) -> Option<Seq<char>> {
    first(object_err(v, "frame"@), frame_err(object_val(v, "frame"@)))
}

pub open spec fn render_frame_err(v: JsonValue) -> Option<Seq<char>> {
    if arguments_frame_err(v) is None {
        None
    } else {
        let packet = object_val(v, "packet"@);
        first(object_err(v, "packet"@), first(object_err(packet, "frame"@), frame_err(object_val(packet, "frame"@))))
    }
}

pub open spec fn render_frame_val(v: JsonValue) -> FrameIdentity {
    if arguments_frame_err(v) is None {
        frame_val(object_val(v, "frame"@))
    } else {
        frame_val(object_val(object_val(v, "packet"@), "frame"@))
    }
}

/// The frame of a render call: the arguments' own `frame`, or else the frame of their `packet`.
pub fn parse_render_frame(arguments: &JsonValue) -> (r: Result<FrameIdentity, RpcError>)
    ensures
        parsed(r, render_frame_err(*arguments), render_frame_val(*arguments)),
{
    match parse_frame_from_arguments(arguments) {
        Ok(frame) => Ok(frame),
        Err(_) => {
            let packet = required_object_field(arguments, "packet")?;
            parse_frame(required_object_field(packet, "frame")?)
        },
    }
}

/// The packet of a render call: the `packet` member, or the arguments themselves.
pub open spec fn packet_json(v: JsonValue) -> JsonValue {
    match json_get(v, "packet"@) {
        Some(p) => p,
        None => v,
    }
}

pub open spec fn render_packet_frame_err(v: JsonValue) -> Option<Seq<char>> {
    match json_get(packet_json(v), "frame"@) {
        Some(f) => frame_err(f),
        None => arguments_frame_err(v),
    }
}

pub open spec fn render_packet_frame_val(v: JsonValue) -> FrameIdentity {
    match json_get(packet_json(v), "frame"@) {
        Some(f) => frame_val(f),
        None => frame_val(object_val(v, "frame"@)),
    }
}

pub open spec fn render_packet_err(v: JsonValue) -> Option<Seq<char>> {
    first(render_packet_frame_err(v), opt_string_err(packet_json(v), "target"@))
}

pub open spec fn render_packet_target(v: JsonValue) -> String {
    match opt_string_val(packet_json(v), "target"@) {
        Some(t) => t,
        None => render_packet_frame_val(v).surface_instance_id,
    }
}

/// A render packet for the described frame and target (by default the frame's
/// surface instance), with no paint operations and no diagnostics yet.
pub fn parse_render_packet(arguments: &JsonValue) -> (r: Result<RenderPacket, RpcError>)
    ensures
        match r {
            Ok(p) => render_packet_err(*arguments) is None
                && p.frame == render_packet_frame_val(*arguments)
                && p.target == render_packet_target(*arguments)
                && p.paint_ops == 0
                && p.diagnostics@.len() == 0,
            Err(e) => e.code == INVALID_PARAMS && render_packet_err(*arguments) == Some(e.message@),
        },
{
    let packet = match arguments.get("packet") {
        Some(p) => p,
        None => arguments,
    };
    let frame = match packet.get("frame") {
        Some(f) => parse_frame(f)?,
        None => parse_frame_from_arguments(arguments)?,
    };
    let target = match optional_string_field(packet, "target")? {
        Some(t) => t.clone(),
        None => frame.surface_instance_id.clone(),
    };
    Ok(RenderPacket { target, frame, paint_ops: 0, diagnostics: Vec::new() })
}

/// Whether a control call asked for a trace; absent means no.
pub fn parse_control_trace_flag(arguments: &JsonValue) -> (r: Result<bool, RpcError>)
    ensures
        parsed(r, opt_bool_err(*arguments, "trace"@), match opt_bool_val(*arguments, "trace"@) {
            Some(b) => b,
            None => false,
        }),
{
    match optional_bool_field(arguments, "trace")? {
        Some(b) => Ok(b),
        None => Ok(false),
    }
}

} // verus!
