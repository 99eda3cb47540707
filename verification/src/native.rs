//! Native physical control on the iced backend: which window events an
//! operation becomes, and retagging runtime messages with backend provenance.
use vstd::prelude::*;
use crate::command::{DebugPhysicalControl, DebugTextCompositionUpdate};
use crate::iced::{path_views, same_slot, unicode_scalar_to_byte_index, IcedIngressOrigin};
use crate::evidence::{
    backend_presented_label, evidence_source_post_hoc_diagnosis_label, post_hoc_diagnosis_label, DebugFailure,
    DeclaredEventDispatchEvidence, EvidenceSource,
};
use crate::frame::{Coord, Point};
use crate::input::{
    KeyEventKind, KeyboardDetails, Modifiers, PointerButton, PointerEventKind, TextCompositionPhase, TextEditKind,
    WidgetSlotAddress,
};
use crate::reply::DebugReplyProduct;
use crate::text::{decimal, owned, push_decimal, str_eq};

verus! {

/// Why an operation cannot be performed as native input on this backend.
#[derive(Clone, Debug, PartialEq, Eq)]
pub struct NativePhysicalControlUnsupported {
    pub code: String,
    pub message: String,
}

impl NativePhysicalControlUnsupported {
    pub fn new(code: &str, message: &str) -> (r: Self)
        ensures
            r.code@ == code@,
            r.message@ == message@,
    {
        NativePhysicalControlUnsupported { code: owned(code), message: owned(message) }
    }
}

/// A text edit command a visible region declares, as far as composition needs it.
#[derive(Clone, Copy, Debug, PartialEq, Eq, Structural)]
pub struct TextEditCommandFacts {
    pub enabled: bool,
    pub kind: TextEditKind,
}

/// The text edit of a visible region: whether its selection is editable, and its edit commands.
#[derive(Clone, Debug, PartialEq, Eq)]
pub struct TextEditFacts {
    pub editable: bool,
    pub edit_commands: Vec<TextEditCommandFacts>,
}

pub open spec fn has_enabled_replace_buffer(commands: Seq<TextEditCommandFacts>) -> bool {
    exists|i: int| 0 <= i < commands.len() && #[trigger] commands[i].enabled && commands[i].kind == TextEditKind::ReplaceBuffer
}

pub open spec fn refusal_is(u: NativePhysicalControlUnsupported, code: Seq<char>, message: Seq<char>) -> bool {
    u.code@ == code && u.message@ == message
}

/// Whether a composition may target the region its selector found, in the
/// order the checks are made: a region must be found, it must have a text
/// edit, and that text edit must be editable with an enabled replace-buffer command.
pub fn text_composition_region_check(region: Option<&Option<TextEditFacts>>) -> (r: Result<(), NativePhysicalControlUnsupported>)
    ensures
        match region {
            None => r matches Err(u) && refusal_is(u, "native-physical-control-text-composition-region-not-found"@,
                "the current iced visible presentation has no enabled text edit region matching the composition selector"@),
            Some(None) => r matches Err(u) && refusal_is(u, "native-physical-control-text-composition-text-edit-required"@,
                "text composition requires a selected native text edit region"@),
            Some(Some(edit)) => if edit.editable && has_enabled_replace_buffer(edit.edit_commands@) {
                r is Ok
            } else {
                r matches Err(u) && refusal_is(u, "native-physical-control-text-composition-commit-unavailable"@,
                    "the selected native text edit region is not editable with an enabled replace-buffer mutation command"@)
            },
        },
{
    let edit = match region {
        None => return Err(NativePhysicalControlUnsupported::new(
            "native-physical-control-text-composition-region-not-found",
            "the current iced visible presentation has no enabled text edit region matching the composition selector",
        )),
        Some(None) => return Err(NativePhysicalControlUnsupported::new(
            "native-physical-control-text-composition-text-edit-required",
            "text composition requires a selected native text edit region",
        )),
        Some(Some(edit)) => edit,
    };
    let mut found = false;
    let mut i: usize = 0;
    while i < edit.edit_commands.len()
        invariant
            i <= edit.edit_commands.len(),
            found == exists|j: int| 0 <= j < i && #[trigger] edit.edit_commands@[j].enabled
                && edit.edit_commands@[j].kind == TextEditKind::ReplaceBuffer,
        decreases edit.edit_commands.len() - i,
    {
        let c = edit.edit_commands[i];
        if c.enabled && c.kind == TextEditKind::ReplaceBuffer {
            found = true;
        }
        i = i + 1;
    }
    if !edit.editable || !found {
        return Err(NativePhysicalControlUnsupported::new(
            "native-physical-control-text-composition-commit-unavailable",
            "the selected native text edit region is not editable with an enabled replace-buffer mutation command",
        ));
    }
    Ok(())
}

/// After the runner focused the region: the region must be focused before
/// composition ingress, and the visible window must exist.
pub fn text_composition_ingress_check(focused_before: bool, window_available: bool) -> (r: Result<(), NativePhysicalControlUnsupported>)
    ensures
        !focused_before ==> (r matches Err(u) && refusal_is(u, "native-physical-control-text-composition-focus-unstable"@,
            "the selected native text edit region did not become focused before composition ingress"@)),
        focused_before && !window_available ==> (r matches Err(u) && refusal_is(u, "native-physical-control-window-unavailable"@,
            "the iced native runner cannot dispatch composition before the visible window exists"@)),
        focused_before && window_available ==> r is Ok,
{
    if !focused_before {
        return Err(NativePhysicalControlUnsupported::new(
            "native-physical-control-text-composition-focus-unstable",
            "the selected native text edit region did not become focused before composition ingress",
        ));
    }
    if !window_available {
        return Err(NativePhysicalControlUnsupported::new(
            "native-physical-control-window-unavailable",
            "the iced native runner cannot dispatch composition before the visible window exists",
        ));
    }
    Ok(())
}

/// The error reply of an unsupported native operation.
pub fn native_physical_control_error(unsupported: NativePhysicalControlUnsupported) -> (r: DebugReplyProduct)
    ensures
        r matches DebugReplyProduct::Error(f) && f.code == unsupported.code && f.message == unsupported.message
            && f.dispatch_evidence is None,
{
    DebugReplyProduct::Error(DebugFailure { code: unsupported.code, message: unsupported.message, dispatch_evidence: None })
}

pub open spec fn no_match_dispatched_text(withheld: nat) -> Seq<char> {
    "the synthesized iced native events were dispatched through UserInterface::update before matching \u{2014} native widget state (cursor, hover, scroll, focus) may have advanced, and non-input runtime messages were still processed to preserve real-input semantics \u{2014} but no backend-presented input evidence matched the requested physical operation; "@
        + decimal(withheld) + " non-matching backend input message(s) were withheld from the runtime"@
}

/// The items joined with `sep` between them.
pub open spec fn joined(items: Seq<String>, sep: Seq<char>) -> Seq<char>
    decreases items.len(),
{
    if items.len() == 0 {
        Seq::empty()
    } else if items.len() == 1 {
        items[0]@
    } else {
        joined(items.drop_last(), sep) + sep + items.last()@
    }
}

/// The refusal evidence, relabeled as a post-hoc diagnosis of the iced backend.
pub open spec fn no_match_diagnosis(refusal: DeclaredEventDispatchEvidence, source: EvidenceSource) -> bool {
    &&& source.label@ == post_hoc_diagnosis_label()
    &&& source.backend_id matches Some(b) && b@ == "slipway-backend-iced"@
    &&& source.pass_id matches Some(p) && p@ == "physical-control-no-match"@
    &&& source.provider_id is None
}

pub open spec fn no_match_message(refusal: Option<DeclaredEventDispatchEvidence>, withheld: nat) -> Seq<char> {
    match refusal {
        Some(d) => no_match_dispatched_text(withheld) + "; a post-hoc dispatch diagnosis (source label `"@
            + post_hoc_diagnosis_label() + "`) is attached: "@
            + match d.refusal_reason {
                Some(reason) => reason@,
                None => "dispatch refused without a recorded reason"@,
            }
            + "; candidates=["@ + joined(d.candidate_regions@, ", "@) + "]"@,
        None => no_match_dispatched_text(withheld)
            + "; no routing-level refusal evidence was constructed for it \u{2014} probe the `diagnostics` kind for retained refusals"@,
    }
}

fn push_joined(out: &mut String, items: &Vec<String>, sep: &str)
    ensures
        final(out)@ == old(out)@ + joined(items@, sep@),
{
    let ghost start = out@;
    let mut i: usize = 0;
    while i < items.len()
        invariant
            i <= items@.len(),
            out@ == start + joined(items@.take(i as int), sep@),
        decreases items@.len() - i,
    {
        if i > 0 {
            out.append(sep);
        }
        out.append(items[i].as_str());
        proof {
            let t = items@.take(i + 1);
            assert(t.drop_last() =~= items@.take(i as int));
            if i == 0 {
                assert(items@.take(0) =~= Seq::<String>::empty());
            }
        }
        i += 1;
    }
    assert(items@.take(i as int) =~= items@);
}

/// The failure of a native operation whose dispatched events matched no
/// backend input: it says the events were dispatched and how many backend
/// inputs were withheld, and carries the routing refusal, when there is one,
/// relabeled as a post-hoc diagnosis.
pub fn native_physical_no_match_failure(refusal: Option<DeclaredEventDispatchEvidence>, withheld_backend_inputs: usize) -> (r: DebugFailure)
    ensures
        r.code@ == "native-physical-control-produced-no-backend-input"@,
        r.message@ == no_match_message(refusal, withheld_backend_inputs as nat),
        match refusal {
            Some(d) => r.dispatch_evidence matches Some(e) && e == (DeclaredEventDispatchEvidence { source: e.source, ..d })
                && no_match_diagnosis(d, e.source),
            None => r.dispatch_evidence is None,
        },
{
    let mut message = owned("the synthesized iced native events were dispatched through UserInterface::update before matching \u{2014} native widget state (cursor, hover, scroll, focus) may have advanced, and non-input runtime messages were still processed to preserve real-input semantics \u{2014} but no backend-presented input evidence matched the requested physical operation; ");
    push_decimal(&mut message, withheld_backend_inputs as u64);
    message.append(" non-matching backend input message(s) were withheld from the runtime");
    match refusal {
        Some(d) => {
            message.append("; a post-hoc dispatch diagnosis (source label `");
            message.append(evidence_source_post_hoc_diagnosis_label());
            message.append("`) is attached: ");
            match &d.refusal_reason {
                Some(reason) => message.append(reason.as_str()),
                None => message.append("dispatch refused without a recorded reason"),
            }
            message.append("; candidates=[");
            push_joined(&mut message, &d.candidate_regions, ", ");
            message.append("]");
            let source = EvidenceSource::post_hoc_diagnosis("slipway-backend-iced", "physical-control-no-match");
            DebugFailure {
                code: owned("native-physical-control-produced-no-backend-input"),
                message,
                dispatch_evidence: Some(DeclaredEventDispatchEvidence { source, ..d }),
            }
        },
        None => {
            message.append("; no routing-level refusal evidence was constructed for it \u{2014} probe the `diagnostics` kind for retained refusals");
            DebugFailure {
                code: owned("native-physical-control-produced-no-backend-input"),
                message,
                dispatch_evidence: None,
            }
        },
    }
}

/// How the egui backend performs a native operation.
#[derive(Clone, Copy, Debug, PartialEq, Eq, Structural)]
pub enum EguiNativePhysicalControlPlan {
    /// The backend mutates its own widget state.
    BackendNativeMutation,
}

pub open spec fn egui_native_mutation(operation: DebugPhysicalControl) -> bool {
    operation is Focus || operation is Scroll
}

/// Which native operations the egui backend performs: focus and scroll by
/// mutating its own state; every other one is refused, since standard
/// eframe offers no request-scoped native input injection.
pub fn egui_events_for_native_physical_operation(operation: &DebugPhysicalControl) -> (r: Result<EguiNativePhysicalControlPlan, NativePhysicalControlUnsupported>)
    ensures
        egui_native_mutation(*operation) ==> r == Ok::<EguiNativePhysicalControlPlan, NativePhysicalControlUnsupported>(EguiNativePhysicalControlPlan::BackendNativeMutation),
        !egui_native_mutation(*operation) ==> (r matches Err(u)
            && u.code@ == "native-physical-control-ingress-unavailable"@
            && u.message@ == "standard eframe does not expose request-scoped native input injection; use semantic debug control or canonical/offscreen evidence"@),
{
    match operation {
        DebugPhysicalControl::Focus { .. } | DebugPhysicalControl::Scroll { .. } => Ok(EguiNativePhysicalControlPlan::BackendNativeMutation),
        _ => Err(NativePhysicalControlUnsupported::new(
            "native-physical-control-ingress-unavailable",
            "standard eframe does not expose request-scoped native input injection; use semantic debug control or canonical/offscreen evidence",
        )),
    }
}

/// One input-method window event of a text composition, with the preedit
/// cursor as a UTF-8 byte range.
#[derive(Clone, Debug, PartialEq, Eq)]
pub enum ImeEventPlan {
    Enabled,
    Preedit { text: String, cursor: Option<(usize, usize)> },
    Commit { text: String },
    Disabled,
}

/// The UTF-8 byte offset of the `i`-th character of `text`, or its byte
/// length when `i` is past the end.
pub open spec fn scalar_byte_offset(text: Seq<char>, i: nat) -> nat {
    vstd::utf8::encode_utf8(text.subrange(0, if i < text.len() { i as int } else { text.len() as int })).len()
}

pub open spec fn preedit_plan_is(e: ImeEventPlan, u: DebugTextCompositionUpdate) -> bool {
    e matches ImeEventPlan::Preedit { text, cursor } && text@ == u.preedit_text@ && cursor == match u.cursor_range {
        Some(range) => Some((scalar_byte_offset(u.preedit_text@, range.anchor as nat) as usize,
            scalar_byte_offset(u.preedit_text@, range.focus as nat) as usize)),
        None => None,
    }
}

fn byte_offset(text: &String, i: usize) -> (r: usize)
    ensures
        r == scalar_byte_offset(text@, i as nat) as usize,
{
    let r = unicode_scalar_to_byte_index(text.as_str(), i);
    proof {
        if i >= text@.len() {
            assert(text@.subrange(0, text@.len() as int) =~= text@);
        }
    }
    r
}

/// The input-method events a text composition becomes on the iced backend:
/// enabled, one preedit per update, the commit, then disabled.
pub fn iced_composition_ime_plan(updates: &Vec<DebugTextCompositionUpdate>, commit: &String) -> (r: Vec<ImeEventPlan>)
    ensures
        r@.len() == updates@.len() + 3,
        r@[0] == ImeEventPlan::Enabled,
        forall|i: int| 0 <= i < updates@.len() ==> #[trigger] preedit_plan_is(r@[i + 1], updates@[i]),
        r@[updates@.len() as int + 1] matches ImeEventPlan::Commit { text } && text@ == commit@,
        r@[updates@.len() as int + 2] == ImeEventPlan::Disabled,
{
    let mut events: Vec<ImeEventPlan> = Vec::new();
    events.push(ImeEventPlan::Enabled);
    let mut i: usize = 0;
    while i < updates.len()
        invariant
            i <= updates@.len(),
            events@.len() == i + 1,
            events@[0] == ImeEventPlan::Enabled,
            forall|k: int| 0 <= k < i ==> #[trigger] preedit_plan_is(events@[k + 1], updates@[k]),
        decreases updates@.len() - i,
    {
        let update = &updates[i];
        let cursor = match &update.cursor_range {
            Some(range) => Some((byte_offset(&update.preedit_text, range.anchor), byte_offset(&update.preedit_text, range.focus))),
            None => None,
        };
        events.push(ImeEventPlan::Preedit { text: update.preedit_text.clone(), cursor });
        assert(preedit_plan_is(events@[i + 1], updates@[i as int]));
        i += 1;
    }
    events.push(ImeEventPlan::Commit { text: commit.clone() });
    events.push(ImeEventPlan::Disabled);
    events
}

/// The mouse button a native event names.
#[derive(Clone, Copy, Debug, PartialEq, Eq, Structural)]
pub enum NativeMouseButton {
    Left,
    Right,
    Middle,
}

/// One native window event to synthesize, in logical coordinates; the
/// runner scales positions by the window's scale factor.
#[derive(Clone, Debug, PartialEq, Eq)]
pub enum NativeEventPlan {
    CursorMoved { position: Point },
    MouseInput { pressed: bool, button: NativeMouseButton },
    MouseWheelLines { delta_x: Coord, delta_y: Coord },
    ImeCommit { text: String },
    Key { key: String, kind: KeyEventKind, modifiers: Modifiers, details: KeyboardDetails },
}

pub open spec fn native_button(b: Option<PointerButton>) -> NativeMouseButton {
    match b {
        Some(PointerButton::Primary) => NativeMouseButton::Left,
        Some(PointerButton::Secondary) => NativeMouseButton::Right,
        Some(PointerButton::Auxiliary) => NativeMouseButton::Middle,
        None => NativeMouseButton::Left,
    }
}

pub open spec fn unsupported_is(r: Result<Vec<NativeEventPlan>, NativePhysicalControlUnsupported>, code: Seq<char>, message: Seq<char>) -> bool {
    r matches Err(u) && u.code@ == code && u.message@ == message
}

pub open spec fn key_plan_is(e: NativeEventPlan, key: Seq<char>) -> bool {
    e matches NativeEventPlan::Key { key: k, kind, modifiers, details } && k@ == key && kind == KeyEventKind::Press
        && modifiers == (Modifiers { shift: false, control: false, alt: false, meta: false })
        && details.logical_key is None && details.physical_key is None && details.text is None && !details.repeat
        && details.location == crate::input::KeyLocation::Standard
}

/// The native events a physical operation becomes, or why it cannot.
pub open spec fn native_plan_ok(op: DebugPhysicalControl, r: Result<Vec<NativeEventPlan>, NativePhysicalControlUnsupported>) -> bool {
    match op {
        DebugPhysicalControl::Pointer { position, kind, button, .. } => match kind {
            PointerEventKind::Move => r matches Ok(v) && v@ == seq![NativeEventPlan::CursorMoved { position }],
            PointerEventKind::Press => r matches Ok(v) && v@ == seq![
                NativeEventPlan::CursorMoved { position },
                NativeEventPlan::MouseInput { pressed: true, button: native_button(button) },
            ],
            PointerEventKind::Release => r matches Ok(v) && v@ == seq![
                NativeEventPlan::CursorMoved { position },
                NativeEventPlan::MouseInput { pressed: false, button: native_button(button) },
            ],
            PointerEventKind::Enter | PointerEventKind::Leave => unsupported_is(r, "native-physical-control-pointer-hover-unsupported"@,
                "iced derives pointer enter/leave from cursor state; request a pointer move to the target position instead"@),
            PointerEventKind::Cancel => unsupported_is(r, "native-physical-control-pointer-cancel-unsupported"@,
                "iced_winit has no mouse cancellation event for this runner path"@),
        },
        DebugPhysicalControl::Wheel { position, delta_x, delta_y } => r matches Ok(v) && v@ == seq![
            NativeEventPlan::CursorMoved { position },
            NativeEventPlan::MouseWheelLines { delta_x, delta_y },
        ],
        DebugPhysicalControl::Text { text, .. } => r matches Ok(v) && v@ == seq![NativeEventPlan::ImeCommit { text }],
        DebugPhysicalControl::TextEdit { kind, text, .. } => match kind {
            TextEditKind::InsertText | TextEditKind::ReplaceSelection | TextEditKind::ReplaceBuffer => match text {
                Some(t) => r matches Ok(v) && v@ == seq![NativeEventPlan::ImeCommit { text: t }],
                None => unsupported_is(r, "native-physical-control-text-edit-text-required"@,
                    "iced native text edit insertion requires a text payload; IME composition itself is left to iced/winit"@),
            },
            TextEditKind::DeleteBackward => r matches Ok(v) && v@.len() == 1 && key_plan_is(v@[0], "Backspace"@),
            TextEditKind::DeleteForward => r matches Ok(v) && v@.len() == 1 && key_plan_is(v@[0], "Delete"@),
            TextEditKind::MoveCaret | TextEditKind::Unknown => unsupported_is(r, "native-physical-control-text-edit-kind-unsupported"@,
                "caret motion is handled by the iced widget operation seam; unknown text edit kinds are refused"@),
        },
        DebugPhysicalControl::TextComposition { .. } => unsupported_is(r, "native-physical-control-text-composition-atomic-queue-required"@,
            "text composition is converted as one request-scoped Enabled/Preedit/Commit/Disabled queue batch"@),
        DebugPhysicalControl::Keyboard { key, kind, modifiers, details, .. } => r matches Ok(v)
            && v@ == seq![NativeEventPlan::Key { key, kind, modifiers, details }],
        DebugPhysicalControl::Focus { .. } => unsupported_is(r, "native-physical-control-focus-unsupported"@,
            "Slipway focus-region focus is not a winit window focus event; iced focus requires a backend widget operation seam"@),
        DebugPhysicalControl::Command { .. } => unsupported_is(r, "native-physical-control-command-unsupported"@,
            "arbitrary Slipway commands are not winit events; iced command support requires a backend-presented command seam"@),
        DebugPhysicalControl::Scroll { .. } => unsupported_is(r, "native-physical-control-scroll-unsupported"@,
            "absolute scroll offsets are iced scrollable state operations, not winit wheel events; use wheel or add a backend scroll operation seam"@),
    }
}

fn plain_key(key: &str) -> (r: NativeEventPlan)
    ensures
        key_plan_is(r, key@),
{
    NativeEventPlan::Key {
        key: owned(key),
        kind: KeyEventKind::Press,
        modifiers: Modifiers { shift: false, control: false, alt: false, meta: false },
        details: KeyboardDetails {
            logical_key: None,
            physical_key: None,
            text: None,
            repeat: false,
            location: crate::input::KeyLocation::Standard,
        },
    }
}

fn button_of(b: Option<PointerButton>) -> (r: NativeMouseButton)
    ensures
        r == native_button(b),
{
    match b {
        Some(PointerButton::Primary) => NativeMouseButton::Left,
        Some(PointerButton::Secondary) => NativeMouseButton::Right,
        Some(PointerButton::Auxiliary) => NativeMouseButton::Middle,
        None => NativeMouseButton::Left,
    }
}

/// The native window events a physical operation becomes on the iced
/// backend, or why the backend cannot perform it as native input.
pub fn iced_events_for_native_physical_operation(operation: DebugPhysicalControl) -> (r: Result<Vec<NativeEventPlan>, NativePhysicalControlUnsupported>)
    ensures
        native_plan_ok(operation, r),
{
    let ghost op = operation;
    match operation {
        DebugPhysicalControl::Pointer { position, kind, button, .. } => {
            let mut events: Vec<NativeEventPlan> = Vec::new();
            events.push(NativeEventPlan::CursorMoved { position });
            match kind {
                PointerEventKind::Press | PointerEventKind::Release => {
                    let pressed = match kind {
                        PointerEventKind::Press => true,
                        _ => false,
                    };
                    events.push(NativeEventPlan::MouseInput { pressed, button: button_of(button) });
                },
                PointerEventKind::Move => {},
                PointerEventKind::Enter | PointerEventKind::Leave => {
                    return Err(NativePhysicalControlUnsupported::new(
                        "native-physical-control-pointer-hover-unsupported",
                        "iced derives pointer enter/leave from cursor state; request a pointer move to the target position instead",
                    ));
                },
                PointerEventKind::Cancel => {
                    return Err(NativePhysicalControlUnsupported::new(
                        "native-physical-control-pointer-cancel-unsupported",
                        "iced_winit has no mouse cancellation event for this runner path",
                    ));
                },
            }
            proof {
                match kind {
                    PointerEventKind::Move => {
                        assert(events@ =~= seq![NativeEventPlan::CursorMoved { position }]);
                    },
                    _ => {
                        assert(events@ =~= seq![
                            NativeEventPlan::CursorMoved { position },
                            NativeEventPlan::MouseInput { pressed: kind == PointerEventKind::Press, button: native_button(button) },
                        ]);
                    },
                }
            }
            Ok(events)
        },
        DebugPhysicalControl::Wheel { position, delta_x, delta_y } => {
            let mut events: Vec<NativeEventPlan> = Vec::new();
            events.push(NativeEventPlan::CursorMoved { position });
            events.push(NativeEventPlan::MouseWheelLines { delta_x, delta_y });
            assert(events@ =~= seq![
                NativeEventPlan::CursorMoved { position },
                NativeEventPlan::MouseWheelLines { delta_x, delta_y },
            ]);
            Ok(events)
        },
        DebugPhysicalControl::Text { text, .. } => {
            let mut events: Vec<NativeEventPlan> = Vec::new();
            events.push(NativeEventPlan::ImeCommit { text });
            assert(events@ =~= seq![NativeEventPlan::ImeCommit { text }]);
            Ok(events)
        },
        DebugPhysicalControl::TextEdit { kind, text, .. } => match kind {
            TextEditKind::InsertText | TextEditKind::ReplaceSelection | TextEditKind::ReplaceBuffer => match text {
                Some(t) => {
                    let mut events: Vec<NativeEventPlan> = Vec::new();
                    events.push(NativeEventPlan::ImeCommit { text: t });
                    assert(events@ =~= seq![NativeEventPlan::ImeCommit { text: t }]);
                    Ok(events)
                },
                None => Err(NativePhysicalControlUnsupported::new(
                    "native-physical-control-text-edit-text-required",
                    "iced native text edit insertion requires a text payload; IME composition itself is left to iced/winit",
                )),
            },
            TextEditKind::DeleteBackward => {
                let mut events: Vec<NativeEventPlan> = Vec::new();
                events.push(plain_key("Backspace"));
                Ok(events)
            },
            TextEditKind::DeleteForward => {
                let mut events: Vec<NativeEventPlan> = Vec::new();
                events.push(plain_key("Delete"));
                Ok(events)
            },
            TextEditKind::MoveCaret | TextEditKind::Unknown => Err(NativePhysicalControlUnsupported::new(
                "native-physical-control-text-edit-kind-unsupported",
                "caret motion is handled by the iced widget operation seam; unknown text edit kinds are refused",
            )),
        },
        DebugPhysicalControl::TextComposition { .. } => Err(NativePhysicalControlUnsupported::new(
            "native-physical-control-text-composition-atomic-queue-required",
            "text composition is converted as one request-scoped Enabled/Preedit/Commit/Disabled queue batch",
        )),
        DebugPhysicalControl::Keyboard { key, kind, modifiers, details, .. } => {
            let mut events: Vec<NativeEventPlan> = Vec::new();
            events.push(NativeEventPlan::Key { key, kind, modifiers, details });
            assert(events@ =~= seq![NativeEventPlan::Key { key, kind, modifiers, details }]);
            Ok(events)
        },
        DebugPhysicalControl::Focus { .. } => Err(NativePhysicalControlUnsupported::new(
            "native-physical-control-focus-unsupported",
            "Slipway focus-region focus is not a winit window focus event; iced focus requires a backend widget operation seam",
        )),
        DebugPhysicalControl::Command { .. } => Err(NativePhysicalControlUnsupported::new(
            "native-physical-control-command-unsupported",
            "arbitrary Slipway commands are not winit events; iced command support requires a backend-presented command seam",
        )),
        DebugPhysicalControl::Scroll { .. } => Err(NativePhysicalControlUnsupported::new(
            "native-physical-control-scroll-unsupported",
            "absolute scroll offsets are iced scrollable state operations, not winit wheel events; use wheel or add a backend scroll operation seam",
        )),
    }
}

/// Backend input the runtime received, with the evidence of its dispatch.
#[derive(Clone, Debug, PartialEq, Eq)]
pub struct BackendInputEvent {
    pub event: crate::input::InputEvent,
    pub dispatch_evidence: Option<DeclaredEventDispatchEvidence>,
}

/// A native text mutation and the backend input it came from.
#[derive(Clone, Debug, PartialEq, Eq)]
pub struct NativeTextMutation {
    pub target: String,
    pub target_slot: Option<WidgetSlotAddress>,
    pub region_id: String,
    pub input: BackendInputEvent,
    pub before: String,
    pub after: String,
}

/// The runtime messages an iced ingress carries.
#[derive(Clone, Debug, PartialEq, Eq)]
pub enum SlipwayIcedRuntimeMessage {
    BackendInput(BackendInputEvent),
    NativeTextMutation(NativeTextMutation),
    DispatchRefusal(DeclaredEventDispatchEvidence),
    App(String),
}

/// The one text mutation a composition's commit may apply: the commit's
/// token and position, and the target, slot and region it was planned for.
#[derive(Clone, Debug, PartialEq, Eq)]
pub struct IcedNativeCommitMutationGate {
    pub token: u64,
    pub commit_sequence_index: usize,
    pub target: String,
    pub target_slot: Option<WidgetSlotAddress>,
    pub region_id: String,
}

/// Whether a native text mutation may be applied: it belongs to the commit
/// step that was planned for it, and to the planned target, slot and region.
pub open spec fn gate_admits(origin: IcedIngressOrigin, gate: Option<IcedNativeCommitMutationGate>, mutation: NativeTextMutation) -> bool {
    match (origin, gate) {
        (IcedIngressOrigin::DebugComposition { token, sequence_index, phase }, Some(g)) => {
            &&& phase == TextCompositionPhase::Commit
            &&& token == g.token
            &&& sequence_index == g.commit_sequence_index
            &&& mutation.target@ == g.target@
            &&& same_slot(mutation.target_slot, g.target_slot)
            &&& mutation.region_id@ == g.region_id@
        },
        _ => false,
    }
}

fn slot_eq(a: &Option<WidgetSlotAddress>, b: &Option<WidgetSlotAddress>) -> (r: bool)
    ensures
        r == same_slot(*a, *b),
{
    match (a, b) {
        (None, None) => true,
        (Some(x), Some(y)) => {
            if !str_eq(x.widget.as_str(), y.widget.as_str()) || x.ordinal != y.ordinal || x.path.len() != y.path.len() {
                proof {
                    if x.path@.len() != y.path@.len() {
                        assert(path_views(x.path@).len() != path_views(y.path@).len());
                    }
                }
                return false;
            }
            let mut i: usize = 0;
            while i < x.path.len()
                invariant
                    *a == Some(*x),
                    *b == Some(*y),
                    x.path@.len() == y.path@.len(),
                    i <= x.path@.len(),
                    forall|k: int| 0 <= k < i ==> (#[trigger] x.path@[k])@ == y.path@[k]@,
                decreases x.path@.len() - i,
            {
                if !str_eq(x.path[i].as_str(), y.path[i].as_str()) {
                    proof {
                        let xm = path_views(x.path@);
                        let ym = path_views(y.path@);
                        assert(xm[i as int] == x.path@[i as int]@);
                        assert(ym[i as int] == y.path@[i as int]@);
                        assert(xm[i as int] != ym[i as int]);
                        assert(xm != ym);
                    }
                    return false;
                }
                i += 1;
            }
            assert(path_views(x.path@) =~= path_views(y.path@));
            true
        },
        _ => false,
    }
}

/// Whether a native text mutation may be applied under `gate`.
pub fn commit_mutation_gate_matches(origin: &IcedIngressOrigin, gate: Option<&IcedNativeCommitMutationGate>, mutation: &NativeTextMutation) -> (r: bool)
    ensures
        r == gate_admits(*origin, match gate {
            Some(g) => Some(*g),
            None => None,
        }, *mutation),
{
    match (origin, gate) {
        (IcedIngressOrigin::DebugComposition { token, sequence_index, phase }, Some(g)) => {
            *phase == TextCompositionPhase::Commit
                && *token == g.token
                && *sequence_index == g.commit_sequence_index
                && str_eq(mutation.target.as_str(), g.target.as_str())
                && slot_eq(&mutation.target_slot, &g.target_slot)
                && str_eq(mutation.region_id.as_str(), g.region_id.as_str())
        },
        _ => false,
    }
}

pub open spec fn ingress_pass(origin: IcedIngressOrigin) -> Seq<char> {
    match origin {
        IcedIngressOrigin::NativeOs => "physical-input/native-os"@,
        IcedIngressOrigin::Debug { .. } => "physical-input/debug-injected"@,
        IcedIngressOrigin::DebugComposition { .. } => "physical-input/debug-injected/composition"@,
    }
}

/// The pass backend input is retagged with for its ingress: native OS input,
/// debug-injected input, or debug-injected composition.
pub fn ingress_pass_id(origin: &IcedIngressOrigin) -> (r: &'static str)
    ensures
        r@ == ingress_pass(*origin),
{
    match origin {
        IcedIngressOrigin::NativeOs => "physical-input/native-os",
        IcedIngressOrigin::Debug { .. } => "physical-input/debug-injected",
        IcedIngressOrigin::DebugComposition { .. } => "physical-input/debug-injected/composition",
    }
}

pub const ICED_BACKEND_ID: &'static str = "slipway-backend-iced";

/// Evidence retagged as presented by the iced backend under a pass.
pub open spec fn retagged(e: Option<DeclaredEventDispatchEvidence>, r: Option<DeclaredEventDispatchEvidence>, pass_id: Seq<char>) -> bool {
    match (e, r) {
        (None, None) => true,
        (Some(a), Some(b)) => {
            &&& b == (DeclaredEventDispatchEvidence { source: b.source, ..a })
            &&& b.source.label@ == backend_presented_label()
            &&& (b.source.backend_id matches Some(id) && id@ == "slipway-backend-iced"@)
            &&& (b.source.pass_id matches Some(p) && p@ == pass_id)
            &&& b.source.provider_id is None
        },
        _ => false,
    }
}

fn retag_backend_input(input: BackendInputEvent, pass_id: &str) -> (r: BackendInputEvent)
    ensures
        r.event == input.event,
        retagged(input.dispatch_evidence, r.dispatch_evidence, pass_id@),
{
    let BackendInputEvent { event, dispatch_evidence } = input;
    let dispatch_evidence = match dispatch_evidence {
        Some(evidence) => {
            let source = EvidenceSource::backend_presented("slipway-backend-iced", pass_id);
            Some(DeclaredEventDispatchEvidence { source, ..evidence })
        },
        None => None,
    };
    BackendInputEvent { event, dispatch_evidence }
}

/// Retags the dispatch evidence of backend input, and of the input behind a
/// native text mutation, as presented by the iced backend under `pass_id`;
/// other messages pass unchanged.
pub fn retag_iced_ingress_message(message: SlipwayIcedRuntimeMessage, pass_id: &str) -> (r: SlipwayIcedRuntimeMessage)
    ensures
        match message {
            SlipwayIcedRuntimeMessage::BackendInput(input) => r matches SlipwayIcedRuntimeMessage::BackendInput(out)
                && out.event == input.event && retagged(input.dispatch_evidence, out.dispatch_evidence, pass_id@),
            SlipwayIcedRuntimeMessage::NativeTextMutation(m) => r matches SlipwayIcedRuntimeMessage::NativeTextMutation(out)
                && out.target == m.target && out.target_slot == m.target_slot && out.region_id == m.region_id
                && out.before == m.before && out.after == m.after && out.input.event == m.input.event
                && retagged(m.input.dispatch_evidence, out.input.dispatch_evidence, pass_id@),
            _ => r == message,
        },
{
    match message {
        SlipwayIcedRuntimeMessage::BackendInput(input) => SlipwayIcedRuntimeMessage::BackendInput(retag_backend_input(input, pass_id)),
        SlipwayIcedRuntimeMessage::NativeTextMutation(m) => {
            let NativeTextMutation { target, target_slot, region_id, input, before, after } = m;
            SlipwayIcedRuntimeMessage::NativeTextMutation(NativeTextMutation {
                target,
                target_slot,
                region_id,
                input: retag_backend_input(input, pass_id),
                before,
                after,
            })
        },
        other => other,
    }
}

} // verus!
