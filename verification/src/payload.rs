//! The JSON the debug tools answer with: names of closed vocabularies,
//! geometry, frames, evidence sources and diagnostics.
use vstd::prelude::*;
use crate::evidence::{
    DebugFailure, DeclaredEventDispatchKind, Diagnostic, DiagnosticSeverity, DispatchPositionSpace,
    EvidenceSource,
};
use crate::frame::{Coord, FrameIdentity, Point, Rect};
use crate::input::{
    KeyEventKind, KeyLocation, Modifiers, PointerButton, PointerDeviceKind, PointerEventKind,
    TextCompositionPhase, TextEditKind, TextSelectionRange, WidgetSlotAddress,
};
use crate::json::{
    map_array, array, opt_str_tree, opt_string_value, push_value, str_tree, string_value, strings_tree,
    strings_value, tree, trees, JsonTree, JsonValue, ObjectBuilder,
};
use crate::reply::{DebugControlMode, DebugControlTraceStageKind, McpProbeMethod, MessageDisposition};
use crate::screenshot::{
    PresentedAlphaMode, PresentedCapturePath, PresentedScreenshotAdmission,
    PresentedScreenshotSelector, PresentedSurfaceFormat, PresentedTransferFunction,
};

verus! {

pub open spec fn capture_path_name(path: PresentedCapturePath) -> Seq<char> {
    match path {
        PresentedCapturePath::DirectAcquiredSurfaceTextureCopy => "direct_acquired_surface_texture_copy"@,
    }
}

pub fn presented_capture_path_name(path: PresentedCapturePath) -> (r: &'static str)
    ensures
        r@ == capture_path_name(path),
{
    match path {
        PresentedCapturePath::DirectAcquiredSurfaceTextureCopy => "direct_acquired_surface_texture_copy",
    }
}

pub open spec fn surface_format_name(format: PresentedSurfaceFormat) -> Seq<char> {
    match format {
        PresentedSurfaceFormat::Rgba8Unorm => "rgba8_unorm"@,
        PresentedSurfaceFormat::Rgba8UnormSrgb => "rgba8_unorm_srgb"@,
        PresentedSurfaceFormat::Bgra8Unorm => "bgra8_unorm"@,
        PresentedSurfaceFormat::Bgra8UnormSrgb => "bgra8_unorm_srgb"@,
    }
}

pub fn presented_surface_format_name(format: PresentedSurfaceFormat) -> (r: &'static str)
    ensures
        r@ == surface_format_name(format),
{
    match format {
        PresentedSurfaceFormat::Rgba8Unorm => "rgba8_unorm",
        PresentedSurfaceFormat::Rgba8UnormSrgb => "rgba8_unorm_srgb",
        PresentedSurfaceFormat::Bgra8Unorm => "bgra8_unorm",
        PresentedSurfaceFormat::Bgra8UnormSrgb => "bgra8_unorm_srgb",
    }
}

pub open spec fn transfer_name(transfer: PresentedTransferFunction) -> Seq<char> {
    match transfer {
        PresentedTransferFunction::Linear => "linear"@,
        PresentedTransferFunction::Srgb => "srgb"@,
    }
}

pub fn presented_transfer_name(transfer: PresentedTransferFunction) -> (r: &'static str)
    ensures
        r@ == transfer_name(transfer),
{
    match transfer {
        PresentedTransferFunction::Linear => "linear",
        PresentedTransferFunction::Srgb => "srgb",
    }
}

pub open spec fn alpha_name(alpha: PresentedAlphaMode) -> Seq<char> {
    match alpha {
        PresentedAlphaMode::Opaque => "opaque"@,
        PresentedAlphaMode::Premultiplied => "premultiplied"@,
    }
}

pub fn presented_alpha_name(alpha: PresentedAlphaMode) -> (r: &'static str)
    ensures
        r@ == alpha_name(alpha),
{
    match alpha {
        PresentedAlphaMode::Opaque => "opaque",
        PresentedAlphaMode::Premultiplied => "premultiplied",
    }
}

pub open spec fn admission_name(admission: PresentedScreenshotAdmission) -> Seq<char> {
    match admission {
        PresentedScreenshotAdmission::Exact => "exact"@,
        PresentedScreenshotAdmission::Current => "current"@,
    }
}

pub fn screenshot_admission_name(admission: PresentedScreenshotAdmission) -> (r: &'static str)
    ensures
        r@ == admission_name(admission),
{
    match admission {
        PresentedScreenshotAdmission::Exact => "exact",
        PresentedScreenshotAdmission::Current => "current",
    }
}

pub open spec fn mode_name(mode: DebugControlMode) -> Seq<char> {
    match mode {
        DebugControlMode::SemanticDirect => "semantic_direct"@,
        DebugControlMode::PhysicalEquivalent => "physical_equivalent"@,
    }
}

pub fn control_trace_mode_name(mode: DebugControlMode) -> (r: &'static str)
    ensures
        r@ == mode_name(mode),
{
    match mode {
        DebugControlMode::SemanticDirect => "semantic_direct",
        DebugControlMode::PhysicalEquivalent => "physical_equivalent",
    }
}

pub open spec fn stage_name(stage: DebugControlTraceStageKind) -> Seq<char> {
    match stage {
        DebugControlTraceStageKind::Generated => "generated"@,
        DebugControlTraceStageKind::Routed => "routed"@,
        DebugControlTraceStageKind::Consumed => "consumed"@,
        DebugControlTraceStageKind::Ignored => "ignored"@,
        DebugControlTraceStageKind::Reduced => "reduced"@,
    }
}

pub fn control_trace_stage_name(stage: DebugControlTraceStageKind) -> (r: &'static str)
    ensures
        r@ == stage_name(stage),
{
    match stage {
        DebugControlTraceStageKind::Generated => "generated",
        DebugControlTraceStageKind::Routed => "routed",
        DebugControlTraceStageKind::Consumed => "consumed",
        DebugControlTraceStageKind::Ignored => "ignored",
        DebugControlTraceStageKind::Reduced => "reduced",
    }
}

pub open spec fn method_name(method: McpProbeMethod) -> Seq<char> {
    match method {
        McpProbeMethod::Status => "status"@,
        McpProbeMethod::Probe => "probe"@,
        McpProbeMethod::Render => "render"@,
        McpProbeMethod::Screenshot => "screenshot"@,
        McpProbeMethod::Control => "control"@,
        McpProbeMethod::Resize => "resize"@,
    }
}

pub fn bridge_method_name(method: McpProbeMethod) -> (r: &'static str)
    ensures
        r@ == method_name(method),
{
    match method {
        McpProbeMethod::Status => "status",
        McpProbeMethod::Probe => "probe",
        McpProbeMethod::Render => "render",
        McpProbeMethod::Screenshot => "screenshot",
        McpProbeMethod::Control => "control",
        McpProbeMethod::Resize => "resize",
    }
}

pub open spec fn phase_name(phase: TextCompositionPhase) -> Seq<char> {
    match phase {
        TextCompositionPhase::Start => "start"@,
        TextCompositionPhase::Update => "update"@,
        TextCompositionPhase::Commit => "commit"@,
        TextCompositionPhase::End => "end"@,
        TextCompositionPhase::Cancel => "cancel"@,
    }
}

pub fn composition_phase_name(phase: TextCompositionPhase) -> (r: &'static str)
    ensures
        r@ == phase_name(phase),
{
    match phase {
        TextCompositionPhase::Start => "start",
        TextCompositionPhase::Update => "update",
        TextCompositionPhase::Commit => "commit",
        TextCompositionPhase::End => "end",
        TextCompositionPhase::Cancel => "cancel",
    }
}

pub open spec fn dispatch_kind_name(kind: DeclaredEventDispatchKind) -> Seq<char> {
    match kind {
        DeclaredEventDispatchKind::Pointer => "pointer"@,
        DeclaredEventDispatchKind::Wheel => "wheel"@,
        DeclaredEventDispatchKind::Scroll => "scroll"@,
        DeclaredEventDispatchKind::Focus => "focus"@,
        DeclaredEventDispatchKind::Keyboard => "keyboard"@,
        DeclaredEventDispatchKind::Text => "text"@,
        DeclaredEventDispatchKind::Command => "command"@,
    }
}

pub fn declared_dispatch_kind_name(kind: DeclaredEventDispatchKind) -> (r: &'static str)
    ensures
        r@ == dispatch_kind_name(kind),
{
    match kind {
        DeclaredEventDispatchKind::Pointer => "pointer",
        DeclaredEventDispatchKind::Wheel => "wheel",
        DeclaredEventDispatchKind::Scroll => "scroll",
        DeclaredEventDispatchKind::Focus => "focus",
        DeclaredEventDispatchKind::Keyboard => "keyboard",
        DeclaredEventDispatchKind::Text => "text",
        DeclaredEventDispatchKind::Command => "command",
    }
}

/// The variant names of the closed vocabularies, as their debug renderings spell them.
pub open spec fn severity_label(s: DiagnosticSeverity) -> Seq<char> {
    match s {
        DiagnosticSeverity::Info => "Info"@,
        DiagnosticSeverity::Warning => "Warning"@,
        DiagnosticSeverity::Error => "Error"@,
        DiagnosticSeverity::Unsupported => "Unsupported"@,
    }
}

pub fn severity_text(s: DiagnosticSeverity) -> (r: &'static str)
    ensures
        r@ == severity_label(s),
{
    match s {
        DiagnosticSeverity::Info => "Info",
        DiagnosticSeverity::Warning => "Warning",
        DiagnosticSeverity::Error => "Error",
        DiagnosticSeverity::Unsupported => "Unsupported",
    }
}

pub open spec fn disposition_label(d: MessageDisposition) -> Seq<char> {
    match d {
        MessageDisposition::Consumed => "Consumed"@,
        MessageDisposition::Ignored => "Ignored"@,
        MessageDisposition::ReductionUnavailable => "ReductionUnavailable"@,
    }
}

pub fn disposition_text(d: MessageDisposition) -> (r: &'static str)
    ensures
        r@ == disposition_label(d),
{
    match d {
        MessageDisposition::Consumed => "Consumed",
        MessageDisposition::Ignored => "Ignored",
        MessageDisposition::ReductionUnavailable => "ReductionUnavailable",
    }
}

// Geometry.
pub open spec fn point_tree(p: Point) -> JsonTree {
    JsonTree::Object(Seq::empty().push(("x"@, JsonTree::Float32(p.x.bits))).push(("y"@, JsonTree::Float32(p.y.bits))))
}

pub fn point_json(point: Point) -> (r: JsonValue)
    ensures
        tree(r) == point_tree(point),
{
    let mut o = ObjectBuilder::new();
    o.put("x", JsonValue::Float32(point.x.bits));
    o.put("y", JsonValue::Float32(point.y.bits));
    o.build()
}

pub open spec fn rect_tree(r: Rect) -> JsonTree {
    JsonTree::Object(
        Seq::empty().push(("origin"@, point_tree(r.origin))).push((
                "size"@,
                JsonTree::Object(
                    Seq::empty().push(("width"@, JsonTree::Float32(r.size.width.bits))).push(("height"@, JsonTree::Float32(r.size.height.bits))),
                ),
            )),
    )
}

pub fn rect_json(rect: &Rect) -> (r: JsonValue)
    ensures
        tree(r) == rect_tree(*rect),
{
    let mut size = ObjectBuilder::new();
    size.put("width", JsonValue::Float32(rect.size.width.bits));
    size.put("height", JsonValue::Float32(rect.size.height.bits));
    let mut o = ObjectBuilder::new();
    o.put("origin", point_json(rect.origin));
    o.put("size", size.build());
    o.build()
}

pub open spec fn frame_tree(f: FrameIdentity) -> JsonTree {
    JsonTree::Object(
        Seq::empty().push(("surface_id"@, JsonTree::Str(f.surface_id@))).push(("surface_instance_id"@, JsonTree::Str(f.surface_instance_id@))).push(("revision"@, JsonTree::UInt(f.revision))).push(("frame_index"@, JsonTree::UInt(f.frame_index))).push(("viewport"@, rect_tree(f.viewport))),
    )
}

pub fn frame_json(frame: &FrameIdentity) -> (r: JsonValue)
    ensures
        tree(r) == frame_tree(*frame),
{
    let mut o = ObjectBuilder::new();
    o.put("surface_id", string_value(frame.surface_id.as_str()));
    o.put("surface_instance_id", string_value(frame.surface_instance_id.as_str()));
    o.put("revision", JsonValue::UInt(frame.revision));
    o.put("frame_index", JsonValue::UInt(frame.frame_index));
    o.put("viewport", rect_json(&frame.viewport));
    o.build()
}

pub open spec fn selector_tree(s: PresentedScreenshotSelector) -> JsonTree {
    match s {
        PresentedScreenshotSelector::Exact { expected_frame } => JsonTree::Object(
            Seq::empty().push(("kind"@, JsonTree::Str("exact"@))).push(("expected_frame"@, frame_tree(expected_frame))),
        ),
        PresentedScreenshotSelector::Current { request_context } => JsonTree::Object(
            Seq::empty().push(("kind"@, JsonTree::Str("current"@))).push(("request_context"@, frame_tree(request_context))),
        ),
    }
}

pub fn screenshot_selector_json(selector: &PresentedScreenshotSelector) -> (r: JsonValue)
    ensures
        tree(r) == selector_tree(*selector),
{
    let mut o = ObjectBuilder::new();
    match selector {
        PresentedScreenshotSelector::Exact { expected_frame } => {
            o.put("kind", string_value("exact"));
            o.put("expected_frame", frame_json(expected_frame));
        },
        PresentedScreenshotSelector::Current { request_context } => {
            o.put("kind", string_value("current"));
            o.put("request_context", frame_json(request_context));
        },
    }
    o.build()
}

pub open spec fn source_tree(s: EvidenceSource) -> JsonTree {
    JsonTree::Object(
        Seq::empty().push(("label"@, JsonTree::Str(s.label@))).push(("backend_id"@, opt_str_tree(s.backend_id))).push(("provider_id"@, opt_str_tree(s.provider_id))).push(("pass_id"@, opt_str_tree(s.pass_id))),
    )
}

pub fn evidence_source_summary(source: &EvidenceSource) -> (r: JsonValue)
    ensures
        tree(r) == source_tree(*source),
{
    let mut o = ObjectBuilder::new();
    o.put("label", string_value(source.label.as_str()));
    o.put("backend_id", opt_string_value(&source.backend_id));
    o.put("provider_id", opt_string_value(&source.provider_id));
    o.put("pass_id", opt_string_value(&source.pass_id));
    o.build()
}

pub open spec fn diagnostic_tree(d: Diagnostic) -> JsonTree {
    JsonTree::Object(
        Seq::empty().push(("target"@, opt_str_tree(d.target))).push(("severity"@, JsonTree::Str(severity_label(d.severity)))).push(("code"@, JsonTree::Str(d.code@))).push(("message"@, JsonTree::Str(d.message@))),
    )
}

pub fn diagnostic_summary(d: &Diagnostic) -> (r: JsonValue)
    ensures
        tree(r) == diagnostic_tree(*d),
{
    let mut o = ObjectBuilder::new();
    o.put("target", opt_string_value(&d.target));
    o.put("severity", string_value(severity_text(d.severity)));
    o.put("code", string_value(d.code.as_str()));
    o.put("message", string_value(d.message.as_str()));
    o.build()
}

pub open spec fn diagnostics_tree(s: Seq<Diagnostic>) -> JsonTree {
    JsonTree::Array(s.map_values(|d: Diagnostic| diagnostic_tree(d)))
}

/// Each diagnostic with its target, severity, code and message, in order.
pub fn diagnostics_summary(diagnostics: &Vec<Diagnostic>) -> (r: JsonValue)
    ensures
        tree(r) == diagnostics_tree(diagnostics@),
{
    map_array(diagnostics, diagnostic_summary, Ghost(|d: Diagnostic| diagnostic_tree(d)))
}

pub open spec fn modifiers_tree(m: Modifiers) -> JsonTree {
    JsonTree::Object(
        Seq::empty().push(("shift"@, JsonTree::Bool(m.shift))).push(("control"@, JsonTree::Bool(m.control))).push(("alt"@, JsonTree::Bool(m.alt))).push(("meta"@, JsonTree::Bool(m.meta))),
    )
}

pub fn modifiers_json(m: Modifiers) -> (r: JsonValue)
    ensures
        tree(r) == modifiers_tree(m),
{
    let mut o = ObjectBuilder::new();
    o.put("shift", JsonValue::Bool(m.shift));
    o.put("control", JsonValue::Bool(m.control));
    o.put("alt", JsonValue::Bool(m.alt));
    o.put("meta", JsonValue::Bool(m.meta));
    o.build()
}

pub open spec fn range_tree(r: TextSelectionRange) -> JsonTree {
    JsonTree::Object(
        Seq::empty().push(("anchor"@, JsonTree::UInt(r.anchor as u64))).push(("focus"@, JsonTree::UInt(r.focus as u64))),
    )
}

pub fn text_selection_range_json(range: &TextSelectionRange) -> (r: JsonValue)
    ensures
        tree(r) == range_tree(*range),
{
    let mut o = ObjectBuilder::new();
    o.put("anchor", JsonValue::UInt(range.anchor as u64));
    o.put("focus", JsonValue::UInt(range.focus as u64));
    o.build()
}

pub open spec fn opt_range_tree(r: Option<TextSelectionRange>) -> JsonTree {
    match r {
        Some(x) => range_tree(x),
        None => JsonTree::Null,
    }
}

pub fn opt_range_json(range: &Option<TextSelectionRange>) -> (r: JsonValue)
    ensures
        tree(r) == opt_range_tree(*range),
{
    match range {
        Some(x) => text_selection_range_json(x),
        None => JsonValue::Null,
    }
}

pub open spec fn slot_tree(s: WidgetSlotAddress) -> JsonTree {
    JsonTree::Object(
        Seq::empty().push(("widget"@, JsonTree::Str(s.widget@))).push(("path"@, strings_tree(s.path@))).push(("ordinal"@, JsonTree::UInt(s.ordinal as u64))),
    )
}

pub fn widget_slot_json(slot: &WidgetSlotAddress) -> (r: JsonValue)
    ensures
        tree(r) == slot_tree(*slot),
{
    let mut o = ObjectBuilder::new();
    o.put("widget", string_value(slot.widget.as_str()));
    o.put("path", strings_value(&slot.path));
    o.put("ordinal", JsonValue::UInt(slot.ordinal as u64));
    o.build()
}

pub open spec fn opt_slot_tree(s: Option<WidgetSlotAddress>) -> JsonTree {
    match s {
        Some(x) => slot_tree(x),
        None => JsonTree::Null,
    }
}

pub fn opt_slot_json(slot: &Option<WidgetSlotAddress>) -> (r: JsonValue)
    ensures
        tree(r) == opt_slot_tree(*slot),
{
    match slot {
        Some(x) => widget_slot_json(x),
        None => JsonValue::Null,
    }
}

pub open spec fn opt_frame_tree(f: Option<FrameIdentity>) -> JsonTree {
    match f {
        Some(x) => frame_tree(x),
        None => JsonTree::Null,
    }
}

pub fn opt_frame_json(f: &Option<FrameIdentity>) -> (r: JsonValue)
    ensures
        tree(r) == opt_frame_tree(*f),
{
    match f {
        Some(x) => frame_json(x),
        None => JsonValue::Null,
    }
}

pub open spec fn opt_coord_tree(c: Option<Coord>) -> JsonTree {
    match c {
        Some(x) => JsonTree::Float32(x.bits),
        None => JsonTree::Null,
    }
}

pub fn opt_coord_json(c: Option<Coord>) -> (r: JsonValue)
    ensures
        tree(r) == opt_coord_tree(c),
{
    match c {
        Some(x) => JsonValue::Float32(x.bits),
        None => JsonValue::Null,
    }
}

} // verus!
