//! The JSON summaries of events, dispatch evidence, traces and products.
use vstd::prelude::*;
use crate::evidence::{
    DebugFailure, DeclaredEventDispatchEvidence, DeclaredEventDispatchIdentity, Diagnostic,
    DispatchPositionSpace, EventRoute,
};
use crate::frame::{Point, Rect};
use crate::input::{
    InputEvent, KeyEventKind, KeyLocation, PointerButton, PointerDetails, PointerDeviceKind,
    PointerEventKind, TextCompositionPhase, TextEditKind,
};
use crate::json::{
    map_array, opt_str_tree, opt_string_value, opt_u64_tree, opt_u64_value, string_value,
    strings_tree, strings_value, tree, JsonTree, JsonValue, ObjectBuilder,
};
use crate::payload::{
    diagnostic_tree, diagnostics_summary, diagnostics_tree, dispatch_kind_name,
    declared_dispatch_kind_name, frame_json, frame_tree, modifiers_json, modifiers_tree,
    opt_coord_json, opt_coord_tree, opt_range_json, opt_range_tree, opt_slot_json,
    opt_slot_tree, point_json, point_tree, rect_json, rect_tree, severity_label, severity_text,
    source_tree, evidence_source_summary,
};
use crate::text::owned;
use crate::payload::{
    control_trace_mode_name, control_trace_stage_name, disposition_label, disposition_text,
    mode_name, stage_name,
};
use crate::reply::{
    ChangeEvidence, ChangeShape, DebugControlMode, DebugControlTrace, DebugControlTraceStage,
    DebugMessageTraceEntry, DebugStatus, EmittedMessage, EventResultIdentity, ResultDiagnostic,
    StateObservation,
};

verus! {

pub open spec fn pointer_kind_label(k: PointerEventKind) -> Seq<char> {
    match k {
        PointerEventKind::Move => "Move"@,
        PointerEventKind::Press => "Press"@,
        PointerEventKind::Release => "Release"@,
        PointerEventKind::Enter => "Enter"@,
        PointerEventKind::Leave => "Leave"@,
        PointerEventKind::Cancel => "Cancel"@,
    }
}

pub fn pointer_kind_text(k: PointerEventKind) -> (r: &'static str)
    ensures
        r@ == pointer_kind_label(k),
{
    match k {
        PointerEventKind::Move => "Move",
        PointerEventKind::Press => "Press",
        PointerEventKind::Release => "Release",
        PointerEventKind::Enter => "Enter",
        PointerEventKind::Leave => "Leave",
        PointerEventKind::Cancel => "Cancel",
    }
}

pub open spec fn key_kind_label(k: KeyEventKind) -> Seq<char> {
    match k {
        KeyEventKind::Press => "Press"@,
        KeyEventKind::Release => "Release"@,
    }
}

pub fn key_kind_text(k: KeyEventKind) -> (r: &'static str)
    ensures
        r@ == key_kind_label(k),
{
    match k {
        KeyEventKind::Press => "Press",
        KeyEventKind::Release => "Release",
    }
}

pub open spec fn edit_kind_label(k: TextEditKind) -> Seq<char> {
    match k {
        TextEditKind::InsertText => "InsertText"@,
        TextEditKind::DeleteBackward => "DeleteBackward"@,
        TextEditKind::DeleteForward => "DeleteForward"@,
        TextEditKind::MoveCaret => "MoveCaret"@,
        TextEditKind::ReplaceSelection => "ReplaceSelection"@,
        TextEditKind::ReplaceBuffer => "ReplaceBuffer"@,
        TextEditKind::Unknown => "Unknown"@,
    }
}

pub fn edit_kind_text(k: TextEditKind) -> (r: &'static str)
    ensures
        r@ == edit_kind_label(k),
{
    match k {
        TextEditKind::InsertText => "InsertText",
        TextEditKind::DeleteBackward => "DeleteBackward",
        TextEditKind::DeleteForward => "DeleteForward",
        TextEditKind::MoveCaret => "MoveCaret",
        TextEditKind::ReplaceSelection => "ReplaceSelection",
        TextEditKind::ReplaceBuffer => "ReplaceBuffer",
        TextEditKind::Unknown => "Unknown",
    }
}

pub open spec fn phase_label(p: TextCompositionPhase) -> Seq<char> {
    match p {
        TextCompositionPhase::Start => "Start"@,
        TextCompositionPhase::Update => "Update"@,
        TextCompositionPhase::Commit => "Commit"@,
        TextCompositionPhase::End => "End"@,
        TextCompositionPhase::Cancel => "Cancel"@,
    }
}

pub fn phase_text(p: TextCompositionPhase) -> (r: &'static str)
    ensures
        r@ == phase_label(p),
{
    match p {
        TextCompositionPhase::Start => "Start",
        TextCompositionPhase::Update => "Update",
        TextCompositionPhase::Commit => "Commit",
        TextCompositionPhase::End => "End",
        TextCompositionPhase::Cancel => "Cancel",
    }
}

pub open spec fn device_label(d: PointerDeviceKind) -> Seq<char> {
    match d {
        PointerDeviceKind::Unknown => "Unknown"@,
        PointerDeviceKind::Mouse => "Mouse"@,
        PointerDeviceKind::Touch => "Touch"@,
        PointerDeviceKind::Pen => "Pen"@,
    }
}

pub fn device_text(d: PointerDeviceKind) -> (r: &'static str)
    ensures
        r@ == device_label(d),
{
    match d {
        PointerDeviceKind::Unknown => "Unknown",
        PointerDeviceKind::Mouse => "Mouse",
        PointerDeviceKind::Touch => "Touch",
        PointerDeviceKind::Pen => "Pen",
    }
}

pub open spec fn button_label(b: PointerButton) -> Seq<char> {
    match b {
        PointerButton::Primary => "Primary"@,
        PointerButton::Secondary => "Secondary"@,
        PointerButton::Auxiliary => "Auxiliary"@,
    }
}

pub fn button_text(b: PointerButton) -> (r: &'static str)
    ensures
        r@ == button_label(b),
{
    match b {
        PointerButton::Primary => "Primary",
        PointerButton::Secondary => "Secondary",
        PointerButton::Auxiliary => "Auxiliary",
    }
}

pub open spec fn location_label(l: KeyLocation) -> Seq<char> {
    match l {
        KeyLocation::Standard => "Standard"@,
        KeyLocation::Left => "Left"@,
        KeyLocation::Right => "Right"@,
        KeyLocation::Numpad => "Numpad"@,
        KeyLocation::Unknown => "Unknown"@,
    }
}

pub fn location_text(l: KeyLocation) -> (r: &'static str)
    ensures
        r@ == location_label(l),
{
    match l {
        KeyLocation::Standard => "Standard",
        KeyLocation::Left => "Left",
        KeyLocation::Right => "Right",
        KeyLocation::Numpad => "Numpad",
        KeyLocation::Unknown => "Unknown",
    }
}

pub open spec fn bool_label(b: bool) -> Seq<char> {
    if b {
        "true"@
    } else {
        "false"@
    }
}

/// The one-line summary of an input event: its kind and its distinguishing detail.
pub open spec fn event_summary_label(e: InputEvent) -> Seq<char> {
    match e {
        InputEvent::Pointer(p) => "pointer:"@ + pointer_kind_label(p.kind),
        InputEvent::Keyboard(k) => "keyboard:"@ + key_kind_label(k.kind),
        InputEvent::Text(_) => "text"@,
        InputEvent::TextEdit(t) => "text_edit:"@ + edit_kind_label(t.kind),
        InputEvent::TextComposition(t) => "text_composition:"@ + phase_label(t.phase),
        InputEvent::Wheel(_) => "wheel"@,
        InputEvent::Focus(f) => "focus:"@ + bool_label(f.focused),
        InputEvent::Command(c) => "command:"@ + c.command@,
    }
}

fn joined(prefix: &str, rest: &str) -> (r: String)
    ensures
        r@ == prefix@ + rest@,
{
    let mut s = owned(prefix);
    s.append(rest);
    s
}

pub fn input_event_summary(event: &InputEvent) -> (r: String)
    ensures
        r@ == event_summary_label(*event),
{
    match event {
        InputEvent::Pointer(p) => joined("pointer:", pointer_kind_text(p.kind)),
        InputEvent::Keyboard(k) => joined("keyboard:", key_kind_text(k.kind)),
        InputEvent::Text(_) => owned("text"),
        InputEvent::TextEdit(t) => joined("text_edit:", edit_kind_text(t.kind)),
        InputEvent::TextComposition(t) => joined("text_composition:", phase_text(t.phase)),
        InputEvent::Wheel(_) => owned("wheel"),
        InputEvent::Focus(f) => joined("focus:", if f.focused { "true" } else { "false" }),
        InputEvent::Command(c) => joined("command:", c.command.as_str()),
    }
}

pub open spec fn pointer_details_tree(d: PointerDetails) -> JsonTree {
    JsonTree::Object(
        Seq::empty().push(("pointer_id"@, opt_u64_tree(d.pointer_id))).push(("device"@, JsonTree::Str(device_label(d.device)))).push(("buttons"@, JsonTree::Object(Seq::empty().push(("primary"@, JsonTree::Bool(d.buttons.primary))).push(("secondary"@, JsonTree::Bool(d.buttons.secondary))).push(("auxiliary"@, JsonTree::Bool(d.buttons.auxiliary)))))).push(("modifiers"@, modifiers_tree(d.modifiers))).push(("pressure"@, opt_coord_tree(d.pressure))).push(("tilt_x"@, opt_coord_tree(d.tilt_x))).push(("tilt_y"@, opt_coord_tree(d.tilt_y))).push(("twist"@, opt_coord_tree(d.twist))),
    )
}

pub fn pointer_details_json(d: &PointerDetails) -> (r: JsonValue)
    ensures
        tree(r) == pointer_details_tree(*d),
{
    let mut buttons = ObjectBuilder::new();
    buttons.put("primary", JsonValue::Bool(d.buttons.primary));
    buttons.put("secondary", JsonValue::Bool(d.buttons.secondary));
    buttons.put("auxiliary", JsonValue::Bool(d.buttons.auxiliary));
    let mut o = ObjectBuilder::new();
    o.put("pointer_id", opt_u64_value(d.pointer_id));
    o.put("device", string_value(device_text(d.device)));
    o.put("buttons", buttons.build());
    o.put("modifiers", modifiers_json(d.modifiers));
    o.put("pressure", opt_coord_json(d.pressure));
    o.put("tilt_x", opt_coord_json(d.tilt_x));
    o.put("tilt_y", opt_coord_json(d.tilt_y));
    o.put("twist", opt_coord_json(d.twist));
    o.build()
}

pub open spec fn opt_rect_tree(r: Option<Rect>) -> JsonTree {
    match r {
        Some(x) => rect_tree(x),
        None => JsonTree::Null,
    }
}

pub open spec fn event_slot_of(e: InputEvent) -> Option<crate::input::WidgetSlotAddress> {
    match e {
        InputEvent::Pointer(p) => p.target_slot,
        InputEvent::Keyboard(k) => k.target_slot,
        InputEvent::Text(t) => t.target_slot,
        InputEvent::TextEdit(t) => t.target_slot,
        InputEvent::TextComposition(t) => t.target_slot,
        InputEvent::Wheel(w) => w.target_slot,
        InputEvent::Focus(f) => f.target_slot,
        InputEvent::Command(c) => c.target_slot,
    }
}

/// The member that carries the kind-specific detail of an event.
pub open spec fn event_detail(e: InputEvent) -> (Seq<char>, JsonTree) {
    match e {
        InputEvent::Pointer(p) => ("pointer"@, JsonTree::Object(Seq::empty().push(("position"@, point_tree(p.position))).push(("target_bounds"@, opt_rect_tree(p.target_bounds))).push(("kind"@, JsonTree::Str(pointer_kind_label(p.kind)))).push(("button"@, match p.button {
                Some(b) => JsonTree::Str(button_label(b)),
                None => JsonTree::Null,
            })).push(("details"@, pointer_details_tree(p.details))))),
        InputEvent::Keyboard(k) => ("keyboard"@, JsonTree::Object(Seq::empty().push(("key"@, JsonTree::Str(k.key@))).push(("kind"@, JsonTree::Str(key_kind_label(k.kind)))).push(("modifiers"@, modifiers_tree(k.modifiers))).push(("details"@, JsonTree::Object(Seq::empty().push(("logical_key"@, opt_str_tree(k.details.logical_key))).push(("physical_key"@, opt_str_tree(k.details.physical_key))).push(("text"@, opt_str_tree(k.details.text))).push(("repeat"@, JsonTree::Bool(k.details.repeat))).push(("location"@, JsonTree::Str(location_label(k.details.location))))))))),
        InputEvent::Text(t) => ("text"@, JsonTree::Object(Seq::empty().push(("text"@, JsonTree::Str(t.text@))))),
        InputEvent::TextEdit(t) => ("text_edit"@, JsonTree::Object(Seq::empty().push(("kind"@, JsonTree::Str(edit_kind_label(t.kind)))).push(("text"@, opt_str_tree(t.text))).push(("selection_before"@, opt_range_tree(t.selection_before))).push(("selection_after"@, opt_range_tree(t.selection_after))))),
        InputEvent::TextComposition(t) => ("text_composition"@, JsonTree::Object(Seq::empty().push(("phase"@, JsonTree::Str(phase_label(t.phase)))).push(("preedit_text"@, JsonTree::Str(t.preedit_text@))).push(("cursor_range"@, opt_range_tree(t.cursor_range))))),
        InputEvent::Wheel(w) => ("wheel"@, JsonTree::Object(Seq::empty().push(("delta_x"@, JsonTree::Float32(w.delta_x.bits))).push(("delta_y"@, JsonTree::Float32(w.delta_y.bits))))),
        InputEvent::Focus(f) => ("focus"@, JsonTree::Object(Seq::empty().push(("focused"@, JsonTree::Bool(f.focused))))),
        InputEvent::Command(c) => ("command"@, JsonTree::Object(Seq::empty().push(("command"@, JsonTree::Str(c.command@))).push(("payload_ref"@, opt_str_tree(c.payload_ref))).push(("source"@, opt_str_tree(c.source))))),
    }
}

pub open spec fn generated_event_tree(e: InputEvent) -> JsonTree {
    JsonTree::Object(Seq::empty().push(("target"@, JsonTree::Str(crate::input::event_target(e)@))).push(("target_slot"@, opt_slot_tree(event_slot_of(e)))).push(("summary"@, JsonTree::Str(event_summary_label(e)))).push(event_detail(e)))
}

fn event_detail_json(event: &InputEvent) -> (r: (&'static str, JsonValue))
    ensures
        (r.0@, tree(r.1)) == event_detail(*event),
{
    let mut o = ObjectBuilder::new();
    match event {
        InputEvent::Pointer(p) => {
            o.put("position", point_json(p.position));
            o.put("target_bounds", match &p.target_bounds {
                Some(b) => rect_json(b),
                None => JsonValue::Null,
            });
            o.put("kind", string_value(pointer_kind_text(p.kind)));
            o.put("button", match p.button {
                Some(b) => string_value(button_text(b)),
                None => JsonValue::Null,
            });
            o.put("details", pointer_details_json(&p.details));
            ("pointer", o.build())
        },
        InputEvent::Keyboard(k) => {
            let mut d = ObjectBuilder::new();
            d.put("logical_key", opt_string_value(&k.details.logical_key));
            d.put("physical_key", opt_string_value(&k.details.physical_key));
            d.put("text", opt_string_value(&k.details.text));
            d.put("repeat", JsonValue::Bool(k.details.repeat));
            d.put("location", string_value(location_text(k.details.location)));
            o.put("key", string_value(k.key.as_str()));
            o.put("kind", string_value(key_kind_text(k.kind)));
            o.put("modifiers", modifiers_json(k.modifiers));
            o.put("details", d.build());
            ("keyboard", o.build())
        },
        InputEvent::Text(t) => {
            o.put("text", string_value(t.text.as_str()));
            ("text", o.build())
        },
        InputEvent::TextEdit(t) => {
            o.put("kind", string_value(edit_kind_text(t.kind)));
            o.put("text", opt_string_value(&t.text));
            o.put("selection_before", opt_range_json(&t.selection_before));
            o.put("selection_after", opt_range_json(&t.selection_after));
            ("text_edit", o.build())
        },
        InputEvent::TextComposition(t) => {
            o.put("phase", string_value(phase_text(t.phase)));
            o.put("preedit_text", string_value(t.preedit_text.as_str()));
            o.put("cursor_range", opt_range_json(&t.cursor_range));
            ("text_composition", o.build())
        },
        InputEvent::Wheel(w) => {
            o.put("delta_x", JsonValue::Float32(w.delta_x.bits));
            o.put("delta_y", JsonValue::Float32(w.delta_y.bits));
            ("wheel", o.build())
        },
        InputEvent::Focus(f) => {
            o.put("focused", JsonValue::Bool(f.focused));
            ("focus", o.build())
        },
        InputEvent::Command(c) => {
            o.put("command", string_value(c.command.as_str()));
            o.put("payload_ref", opt_string_value(&c.payload_ref));
            o.put("source", opt_string_value(&c.source));
            ("command", o.build())
        },
    }
}

fn event_slot_ref(event: &InputEvent) -> (r: &Option<crate::input::WidgetSlotAddress>)
    ensures
        *r == event_slot_of(*event),
{
    match event {
        InputEvent::Pointer(p) => &p.target_slot,
        InputEvent::Keyboard(k) => &k.target_slot,
        InputEvent::Text(t) => &t.target_slot,
        InputEvent::TextEdit(t) => &t.target_slot,
        InputEvent::TextComposition(t) => &t.target_slot,
        InputEvent::Wheel(w) => &w.target_slot,
        InputEvent::Focus(f) => &f.target_slot,
        InputEvent::Command(c) => &c.target_slot,
    }
}

/// The target, slot and summary of an event, with the detail of its kind.
pub fn generated_event_summary(event: &InputEvent) -> (r: JsonValue)
    ensures
        tree(r) == generated_event_tree(*event),
{
    let mut o = ObjectBuilder::new();
    o.put("target", string_value(event.target().as_str()));
    o.put("target_slot", opt_slot_json(event_slot_ref(event)));
    o.put("summary", JsonValue::String(input_event_summary(event)));
    let (key, detail) = event_detail_json(event);
    o.put(key, detail);
    o.build()
}

pub open spec fn opt_event_tree(e: Option<InputEvent>) -> JsonTree {
    match e {
        Some(x) => generated_event_tree(x),
        None => JsonTree::Null,
    }
}

pub fn opt_event_json(e: &Option<InputEvent>) -> (r: JsonValue)
    ensures
        tree(r) == opt_event_tree(*e),
{
    match e {
        Some(x) => generated_event_summary(x),
        None => JsonValue::Null,
    }
}

pub open spec fn route_tree(r: EventRoute) -> JsonTree {
    JsonTree::Object(Seq::empty().push(("route_id"@, opt_str_tree(r.route_id))).push(("address"@, opt_slot_tree(r.address))).push(("path"@, strings_tree(r.path@))).push(("phase"@, JsonTree::Str(r.phase@))))
}

pub fn event_route_summary(route: &EventRoute) -> (r: JsonValue)
    ensures
        tree(r) == route_tree(*route),
{
    let mut o = ObjectBuilder::new();
    o.put("route_id", opt_string_value(&route.route_id));
    o.put("address", opt_slot_json(&route.address));
    o.put("path", strings_value(&route.path));
    o.put("phase", string_value(route.phase.as_str()));
    o.build()
}

pub open spec fn opt_route_tree(r: Option<EventRoute>) -> JsonTree {
    match r {
        Some(x) => route_tree(x),
        None => JsonTree::Null,
    }
}

pub fn opt_route_json(r: &Option<EventRoute>) -> (v: JsonValue)
    ensures
        tree(v) == opt_route_tree(*r),
{
    match r {
        Some(x) => event_route_summary(x),
        None => JsonValue::Null,
    }
}

pub open spec fn opt_point_tree(p: Option<Point>) -> JsonTree {
    match p {
        Some(x) => point_tree(x),
        None => JsonTree::Null,
    }
}

pub fn opt_point_json(p: Option<Point>) -> (r: JsonValue)
    ensures
        tree(r) == opt_point_tree(p),
{
    match p {
        Some(x) => point_json(x),
        None => JsonValue::Null,
    }
}

pub open spec fn space_tree(s: Option<DispatchPositionSpace>) -> JsonTree {
    match s {
        Some(DispatchPositionSpace::Content) => JsonTree::Str("content"@),
        Some(DispatchPositionSpace::Viewport) => JsonTree::Str("viewport"@),
        None => JsonTree::Null,
    }
}

pub open spec fn dispatch_evidence_tree(e: DeclaredEventDispatchEvidence) -> JsonTree {
    JsonTree::Object(Seq::empty().push(("source"@, source_tree(e.source))).push(("frame"@, frame_tree(e.frame))).push(("kind"@, JsonTree::Str(dispatch_kind_name(e.kind)))).push(("input_position"@, opt_point_tree(e.input_position))).push(("input_position_space"@, space_tree(e.input_position_space))).push(("candidate_regions"@, strings_tree(e.candidate_regions@))).push(("selected_region"@, opt_str_tree(e.selected_region))).push(("refusal_reason"@, opt_str_tree(e.refusal_reason))).push(("generated_event"@, opt_event_tree(e.generated_event))).push(("route"@, opt_route_tree(e.route))).push(("capture_event"@, JsonTree::Bool(e.capture_event))).push(("diagnostics"@, diagnostics_tree(e.diagnostics@))))
}

pub fn dispatch_evidence_summary(e: &DeclaredEventDispatchEvidence) -> (r: JsonValue)
    ensures
        tree(r) == dispatch_evidence_tree(*e),
{
    let mut o = ObjectBuilder::new();
    o.put("source", evidence_source_summary(&e.source));
    o.put("frame", frame_json(&e.frame));
    o.put("kind", string_value(declared_dispatch_kind_name(e.kind)));
    o.put("input_position", opt_point_json(e.input_position));
    o.put("input_position_space", match e.input_position_space {
        Some(DispatchPositionSpace::Content) => string_value("content"),
        Some(DispatchPositionSpace::Viewport) => string_value("viewport"),
        None => JsonValue::Null,
    });
    o.put("candidate_regions", strings_value(&e.candidate_regions));
    o.put("selected_region", opt_string_value(&e.selected_region));
    o.put("refusal_reason", opt_string_value(&e.refusal_reason));
    o.put("generated_event", opt_event_json(&e.generated_event));
    o.put("route", opt_route_json(&e.route));
    o.put("capture_event", JsonValue::Bool(e.capture_event));
    o.put("diagnostics", diagnostics_summary(&e.diagnostics));
    o.build()
}

pub open spec fn opt_dispatch_evidence_tree(e: Option<DeclaredEventDispatchEvidence>) -> JsonTree {
    match e {
        Some(x) => dispatch_evidence_tree(x),
        None => JsonTree::Null,
    }
}

pub fn opt_dispatch_evidence_json(e: &Option<DeclaredEventDispatchEvidence>) -> (r: JsonValue)
    ensures
        tree(r) == opt_dispatch_evidence_tree(*e),
{
    match e {
        Some(x) => dispatch_evidence_summary(x),
        None => JsonValue::Null,
    }
}

pub open spec fn dispatch_identity_tree(i: DeclaredEventDispatchIdentity) -> JsonTree {
    JsonTree::Object(Seq::empty().push(("frame"@, frame_tree(i.frame))).push(("kind"@, JsonTree::Str(dispatch_kind_name(i.kind)))).push(("input_position"@, opt_point_tree(i.input_position))).push(("candidate_regions"@, strings_tree(i.candidate_regions@))).push(("selected_region"@, opt_str_tree(i.selected_region))).push(("generated_event"@, opt_event_tree(i.generated_event))).push(("route"@, opt_route_tree(i.route))).push(("capture_event"@, JsonTree::Bool(i.capture_event))))
}

pub fn dispatch_identity_summary(i: &DeclaredEventDispatchIdentity) -> (r: JsonValue)
    ensures
        tree(r) == dispatch_identity_tree(*i),
{
    let mut o = ObjectBuilder::new();
    o.put("frame", frame_json(&i.frame));
    o.put("kind", string_value(declared_dispatch_kind_name(i.kind)));
    o.put("input_position", opt_point_json(i.input_position));
    o.put("candidate_regions", strings_value(&i.candidate_regions));
    o.put("selected_region", opt_string_value(&i.selected_region));
    o.put("generated_event", opt_event_json(&i.generated_event));
    o.put("route", opt_route_json(&i.route));
    o.put("capture_event", JsonValue::Bool(i.capture_event));
    o.build()
}

pub open spec fn opt_dispatch_identity_tree(i: Option<DeclaredEventDispatchIdentity>) -> JsonTree {
    match i {
        Some(x) => dispatch_identity_tree(x),
        None => JsonTree::Null,
    }
}

pub fn opt_dispatch_identity_json(i: &Option<DeclaredEventDispatchIdentity>) -> (r: JsonValue)
    ensures
        tree(r) == opt_dispatch_identity_tree(*i),
{
    match i {
        Some(x) => dispatch_identity_summary(x),
        None => JsonValue::Null,
    }
}

pub open spec fn failure_tree(f: DebugFailure) -> JsonTree {
    JsonTree::Object(Seq::empty().push(("code"@, JsonTree::Str(f.code@))).push(("message"@, JsonTree::Str(f.message@))).push(("dispatch_evidence"@, opt_dispatch_evidence_tree(f.dispatch_evidence))))
}

pub fn failure_summary(f: &DebugFailure) -> (r: JsonValue)
    ensures
        tree(r) == failure_tree(*f),
{
    let mut o = ObjectBuilder::new();
    o.put("code", string_value(f.code.as_str()));
    o.put("message", string_value(f.message.as_str()));
    o.put("dispatch_evidence", opt_dispatch_evidence_json(&f.dispatch_evidence));
    o.build()
}


/// The identifying part of dispatch evidence.
pub open spec fn identity_of(e: DeclaredEventDispatchEvidence) -> DeclaredEventDispatchIdentity {
    DeclaredEventDispatchIdentity {
        frame: e.frame,
        kind: e.kind,
        input_position: e.input_position,
        candidate_regions: e.candidate_regions,
        selected_region: e.selected_region,
        generated_event: e.generated_event,
        route: e.route,
        capture_event: e.capture_event,
    }
}

pub open spec fn opt_identity_of_tree(e: Option<DeclaredEventDispatchEvidence>) -> JsonTree {
    match e {
        Some(x) => dispatch_identity_tree(identity_of(x)),
        None => JsonTree::Null,
    }
}

pub fn opt_identity_of_json(e: &Option<DeclaredEventDispatchEvidence>) -> (r: JsonValue)
    ensures
        tree(r) == opt_identity_of_tree(*e),
{
    match e {
        Some(x) => {
            let mut o = ObjectBuilder::new();
            o.put("frame", frame_json(&x.frame));
            o.put("kind", string_value(declared_dispatch_kind_name(x.kind)));
            o.put("input_position", opt_point_json(x.input_position));
            o.put("candidate_regions", strings_value(&x.candidate_regions));
            o.put("selected_region", opt_string_value(&x.selected_region));
            o.put("generated_event", opt_event_json(&x.generated_event));
            o.put("route", opt_route_json(&x.route));
            o.put("capture_event", JsonValue::Bool(x.capture_event));
            o.build()
        },
        None => JsonValue::Null,
    }
}

pub open spec fn emitted_tree(m: EmittedMessage) -> JsonTree {
    JsonTree::Object(Seq::empty().push(("target"@, JsonTree::Str(m.target@))).push(("name"@, JsonTree::Str(m.name@))))
}

fn emitted_json(m: &EmittedMessage) -> (r: JsonValue)
    ensures
        tree(r) == emitted_tree(*m),
{
    let mut o = ObjectBuilder::new();
    o.put("target", string_value(m.target.as_str()));
    o.put("name", string_value(m.name.as_str()));
    o.build()
}

pub open spec fn change_shape_tree(c: ChangeShape) -> JsonTree {
    JsonTree::Object(Seq::empty().push(("target"@, JsonTree::Str(c.target@))).push(("slot"@, opt_slot_tree(c.slot))).push(("field"@, JsonTree::Str(c.field@))).push(("before_present"@, JsonTree::Bool(c.before_present))).push(("after_present"@, JsonTree::Bool(c.after_present))))
}

fn change_shape_json(c: &ChangeShape) -> (r: JsonValue)
    ensures
        tree(r) == change_shape_tree(*c),
{
    let mut o = ObjectBuilder::new();
    o.put("target", string_value(c.target.as_str()));
    o.put("slot", opt_slot_json(&c.slot));
    o.put("field", string_value(c.field.as_str()));
    o.put("before_present", JsonValue::Bool(c.before_present));
    o.put("after_present", JsonValue::Bool(c.after_present));
    o.build()
}

pub open spec fn result_diagnostic_tree(d: ResultDiagnostic) -> JsonTree {
    JsonTree::Object(Seq::empty().push(("target"@, opt_str_tree(d.target))).push(("severity"@, JsonTree::Str(severity_label(d.severity)))).push(("code"@, JsonTree::Str(d.code@))))
}

fn result_diagnostic_json(d: &ResultDiagnostic) -> (r: JsonValue)
    ensures
        tree(r) == result_diagnostic_tree(*d),
{
    let mut o = ObjectBuilder::new();
    o.put("target", opt_string_value(&d.target));
    o.put("severity", string_value(severity_text(d.severity)));
    o.put("code", string_value(d.code.as_str()));
    o.build()
}

pub open spec fn result_identity_tree(i: EventResultIdentity) -> JsonTree {
    JsonTree::Object(Seq::empty().push(("handled"@, JsonTree::Bool(i.handled))).push(("emitted_messages"@, JsonTree::Array(i.emitted_messages@.map_values(|m: EmittedMessage| emitted_tree(m))))).push(("change_shapes"@, JsonTree::Array(i.change_shapes@.map_values(|c: ChangeShape| change_shape_tree(c))))).push(("diagnostics"@, JsonTree::Array(i.diagnostics@.map_values(|d: ResultDiagnostic| result_diagnostic_tree(d))))))
}

/// Whether the event was handled, and the messages, change shapes and diagnostics it produced.
pub fn result_identity_summary(i: &EventResultIdentity) -> (r: JsonValue)
    ensures
        tree(r) == result_identity_tree(*i),
{
    let mut o = ObjectBuilder::new();
    o.put("handled", JsonValue::Bool(i.handled));
    o.put("emitted_messages", map_array(&i.emitted_messages, emitted_json, Ghost(|m: EmittedMessage| emitted_tree(m))));
    o.put("change_shapes", map_array(&i.change_shapes, change_shape_json, Ghost(|c: ChangeShape| change_shape_tree(c))));
    o.put("diagnostics", map_array(&i.diagnostics, result_diagnostic_json, Ghost(|d: ResultDiagnostic| result_diagnostic_tree(d))));
    o.build()
}

pub open spec fn opt_result_identity_tree(i: Option<EventResultIdentity>) -> JsonTree {
    match i {
        Some(x) => result_identity_tree(x),
        None => JsonTree::Null,
    }
}

pub fn opt_result_identity_json(i: &Option<EventResultIdentity>) -> (r: JsonValue)
    ensures
        tree(r) == opt_result_identity_tree(*i),
{
    match i {
        Some(x) => result_identity_summary(x),
        None => JsonValue::Null,
    }
}

pub open spec fn observation_tree(o: StateObservation) -> JsonTree {
    JsonTree::Object(Seq::empty().push(("target"@, JsonTree::Str(o.target@))).push(("slot"@, opt_slot_tree(o.slot))).push(("name"@, JsonTree::Str(o.name@))).push(("value"@, JsonTree::Str(o.value@))))
}

pub fn state_observation_summary(obs: &StateObservation) -> (r: JsonValue)
    ensures
        tree(r) == observation_tree(*obs),
{
    let mut o = ObjectBuilder::new();
    o.put("target", string_value(obs.target.as_str()));
    o.put("slot", opt_slot_json(&obs.slot));
    o.put("name", string_value(obs.name.as_str()));
    o.put("value", string_value(obs.value.as_str()));
    o.build()
}

pub open spec fn change_tree(c: ChangeEvidence) -> JsonTree {
    JsonTree::Object(Seq::empty().push(("target"@, JsonTree::Str(c.target@))).push(("slot"@, opt_slot_tree(c.slot))).push(("field"@, JsonTree::Str(c.field@))).push(("before"@, opt_str_tree(c.before))).push(("after"@, opt_str_tree(c.after))))
}

pub fn change_evidence_summary(c: &ChangeEvidence) -> (r: JsonValue)
    ensures
        tree(r) == change_tree(*c),
{
    let mut o = ObjectBuilder::new();
    o.put("target", string_value(c.target.as_str()));
    o.put("slot", opt_slot_json(&c.slot));
    o.put("field", string_value(c.field.as_str()));
    o.put("before", opt_string_value(&c.before));
    o.put("after", opt_string_value(&c.after));
    o.build()
}

pub open spec fn status_tree(s: DebugStatus) -> JsonTree {
    JsonTree::Object(Seq::empty().push(("admitted"@, JsonTree::Bool(s.admitted))).push(("detail"@, JsonTree::Str(s.detail@))).push(("revision"@, JsonTree::UInt(s.revision))).push(("backend_id"@, opt_str_tree(s.backend_id))).push(("trace_buffer_depth"@, JsonTree::UInt(s.trace_buffer_depth as u64))).push(("trace_buffer_capacity"@, JsonTree::UInt(s.trace_buffer_capacity as u64))).push(("refused_debug_replies"@, JsonTree::UInt(s.refused_debug_replies))).push(("unhandled_backend_input_traces"@, JsonTree::UInt(s.unhandled_backend_input_traces))))
}

pub fn status_summary(s: &DebugStatus) -> (r: JsonValue)
    ensures
        tree(r) == status_tree(*s),
{
    let mut o = ObjectBuilder::new();
    o.put("admitted", JsonValue::Bool(s.admitted));
    o.put("detail", string_value(s.detail.as_str()));
    o.put("revision", JsonValue::UInt(s.revision));
    o.put("backend_id", opt_string_value(&s.backend_id));
    o.put("trace_buffer_depth", JsonValue::UInt(s.trace_buffer_depth as u64));
    o.put("trace_buffer_capacity", JsonValue::UInt(s.trace_buffer_capacity as u64));
    o.put("refused_debug_replies", JsonValue::UInt(s.refused_debug_replies));
    o.put("unhandled_backend_input_traces", JsonValue::UInt(s.unhandled_backend_input_traces));
    o.build()
}

pub open spec fn stage_tree(s: DebugControlTraceStage) -> JsonTree {
    JsonTree::Object(Seq::empty().push(("stage"@, JsonTree::Str(stage_name(s.stage)))).push(("actor"@, JsonTree::Str(s.actor@))).push(("target"@, opt_str_tree(s.target))).push(("detail"@, JsonTree::Str(s.detail@))))
}

pub fn control_trace_stage_summary(s: &DebugControlTraceStage) -> (r: JsonValue)
    ensures
        tree(r) == stage_tree(*s),
{
    let mut o = ObjectBuilder::new();
    o.put("stage", string_value(control_trace_stage_name(s.stage)));
    o.put("actor", string_value(s.actor.as_str()));
    o.put("target", opt_string_value(&s.target));
    o.put("detail", string_value(s.detail.as_str()));
    o.build()
}

pub open spec fn message_entry_tree(m: DebugMessageTraceEntry) -> JsonTree {
    JsonTree::Object(Seq::empty().push(("source"@, JsonTree::Str(m.source@))).push(("name"@, JsonTree::Str(m.name@))).push(("disposition"@, JsonTree::Str(disposition_label(m.disposition)))))
}

fn message_entry_json(m: &DebugMessageTraceEntry) -> (r: JsonValue)
    ensures
        tree(r) == message_entry_tree(*m),
{
    let mut o = ObjectBuilder::new();
    o.put("source", string_value(m.source.as_str()));
    o.put("name", string_value(m.name.as_str()));
    o.put("disposition", string_value(disposition_text(m.disposition)));
    o.build()
}

pub open spec fn control_trace_tree(t: DebugControlTrace) -> JsonTree {
    JsonTree::Object(Seq::empty().push(("request_id"@, JsonTree::Str(t.request_id@))).push(("frame"@, frame_tree(t.frame))).push(("mode"@, JsonTree::Str(mode_name(t.mode)))).push(("physical_equivalent"@, JsonTree::Bool(t.mode == DebugControlMode::PhysicalEquivalent))).push(("dispatch_evidence"@, opt_dispatch_evidence_tree(t.dispatch_evidence))).push(("dispatch_identity"@, opt_identity_of_tree(t.dispatch_evidence))).push(("result_identity"@, opt_result_identity_tree(t.result_identity))).push(("routed_event_target"@, JsonTree::Str(t.routed_event_target@))).push(("event_summary"@, JsonTree::Str(t.event_summary@))).push(("handled"@, JsonTree::Bool(t.handled))).push(("revision_before"@, JsonTree::UInt(t.revision_before))).push(("revision_after"@, JsonTree::UInt(t.revision_after))).push(("stages"@, JsonTree::Array(t.stages@.map_values(|s: DebugControlTraceStage| stage_tree(s))))).push(("messages"@, JsonTree::Array(t.messages@.map_values(|m: DebugMessageTraceEntry| message_entry_tree(m))))).push(("diagnostics"@, diagnostics_tree(t.diagnostics@))))
}

/// The full trace of a debug control: mode, dispatch and result evidence,
/// stages, messages and diagnostics.
pub fn control_trace_summary(t: &DebugControlTrace) -> (r: JsonValue)
    ensures
        tree(r) == control_trace_tree(*t),
{
    let mut o = ObjectBuilder::new();
    o.put("request_id", string_value(t.request_id.as_str()));
    o.put("frame", frame_json(&t.frame));
    o.put("mode", string_value(control_trace_mode_name(t.mode)));
    o.put("physical_equivalent", JsonValue::Bool(match t.mode {
        DebugControlMode::PhysicalEquivalent => true,
        DebugControlMode::SemanticDirect => false,
    }));
    o.put("dispatch_evidence", opt_dispatch_evidence_json(&t.dispatch_evidence));
    o.put("dispatch_identity", opt_identity_of_json(&t.dispatch_evidence));
    o.put("result_identity", opt_result_identity_json(&t.result_identity));
    o.put("routed_event_target", string_value(t.routed_event_target.as_str()));
    o.put("event_summary", string_value(t.event_summary.as_str()));
    o.put("handled", JsonValue::Bool(t.handled));
    o.put("revision_before", JsonValue::UInt(t.revision_before));
    o.put("revision_after", JsonValue::UInt(t.revision_after));
    o.put("stages", map_array(&t.stages, control_trace_stage_summary, Ghost(|s: DebugControlTraceStage| stage_tree(s))));
    o.put("messages", map_array(&t.messages, message_entry_json, Ghost(|m: DebugMessageTraceEntry| message_entry_tree(m))));
    o.put("diagnostics", diagnostics_summary(&t.diagnostics));
    o.build()
}

} // verus!
