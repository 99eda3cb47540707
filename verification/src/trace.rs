//! Building request-scoped control traces.
use vstd::prelude::*;
use crate::evidence::{backend_presented_label, evidence_source_backend_presented_label, DeclaredEventDispatchEvidence, Diagnostic};
use crate::frame::FrameIdentity;
use crate::input::{event_target, InputEvent};
use crate::reply::{
    DebugControlMode, DebugControlTrace, DebugControlTraceStage, DebugControlTraceStageKind,
    DebugMessageTraceEntry, EventResultIdentity, MessageDisposition,
};
use crate::summary::{edit_kind_label, edit_kind_text, key_kind_label, key_kind_text, phase_label, phase_text, pointer_kind_label, pointer_kind_text};
use crate::text::{owned, str_eq};

verus! {

/// A stage with the given kind, actor, target and detail.
pub open spec fn stage_is(s: DebugControlTraceStage, kind: DebugControlTraceStageKind, actor: Seq<char>, target: Option<Seq<char>>, detail: Seq<char>) -> bool {
    &&& s.stage == kind
    &&& s.actor@ == actor
    &&& match (s.target, target) {
        (Some(a), Some(b)) => a@ == b,
        (None, None) => true,
        _ => false,
    }
    &&& s.detail@ == detail
}

impl DebugControlTraceStage {
    pub fn new(stage: DebugControlTraceStageKind, actor: &str, target: Option<String>, detail: &str) -> (r: Self)
        ensures
            r.stage == stage,
            r.actor@ == actor@,
            r.target == target,
            r.detail@ == detail@,
    {
        DebugControlTraceStage { stage, actor: owned(actor), target, detail: owned(detail) }
    }

    /// The debug control generated the event.
    pub fn generated(target: &str, detail: &str) -> (r: Self)
        ensures
            stage_is(r, DebugControlTraceStageKind::Generated, "slipway-debug-control"@, Some(target@), detail@),
    {
        Self::new(DebugControlTraceStageKind::Generated, "slipway-debug-control", Some(owned(target)), detail)
    }

    /// The runtime routed the event.
    pub fn routed(target: &str, detail: &str) -> (r: Self)
        ensures
            stage_is(r, DebugControlTraceStageKind::Routed, "slipway-runtime"@, Some(target@), detail@),
    {
        Self::new(DebugControlTraceStageKind::Routed, "slipway-runtime", Some(owned(target)), detail)
    }

    /// The widget consumed the event.
    pub fn consumed(target: &str, detail: &str) -> (r: Self)
        ensures
            stage_is(r, DebugControlTraceStageKind::Consumed, "slipway-widget"@, Some(target@), detail@),
    {
        Self::new(DebugControlTraceStageKind::Consumed, "slipway-widget", Some(owned(target)), detail)
    }

    /// The widget ignored the event.
    pub fn ignored(target: &str, detail: &str) -> (r: Self)
        ensures
            stage_is(r, DebugControlTraceStageKind::Ignored, "slipway-widget"@, Some(target@), detail@),
    {
        Self::new(DebugControlTraceStageKind::Ignored, "slipway-widget", Some(owned(target)), detail)
    }

    /// A reduction stage by any actor.
    pub fn reduced(actor: &str, target: Option<String>, detail: &str) -> (r: Self)
        ensures
            r.stage == DebugControlTraceStageKind::Reduced,
            r.actor@ == actor@,
            r.target == target,
            r.detail@ == detail@,
    {
        Self::new(DebugControlTraceStageKind::Reduced, actor, target, detail)
    }
}

impl DebugMessageTraceEntry {
    pub fn emitted(source: &str, name: &str, disposition: MessageDisposition) -> (r: Self)
        ensures
            r.source@ == source@,
            r.name@ == name@,
            r.disposition == disposition,
    {
        DebugMessageTraceEntry { source: owned(source), name: owned(name), disposition }
    }
}

pub open spec fn bool_text(b: bool) -> Seq<char> {
    if b {
        "true"@
    } else {
        "false"@
    }
}

/// The trace summary of an event; none for a wheel event, whose deltas are
/// written as floating-point text by the caller.
pub open spec fn trace_summary(e: InputEvent) -> Option<Seq<char>> {
    match e {
        InputEvent::Pointer(p) => Some("pointer:"@ + pointer_kind_label(p.kind)),
        InputEvent::Keyboard(k) => Some("keyboard:"@ + key_kind_label(k.kind) + ":"@ + k.key@),
        InputEvent::Text(t) => Some("text:"@ + t.text@),
        InputEvent::TextEdit(t) => Some("text-edit:"@ + edit_kind_label(t.kind)),
        InputEvent::TextComposition(t) => Some("text-composition:"@ + phase_label(t.phase)),
        InputEvent::Wheel(_) => None,
        InputEvent::Focus(f) => Some("focus:"@ + bool_text(f.focused)),
        InputEvent::Command(c) => Some("command:"@ + c.command@),
    }
}

fn cat(a: &str, b: &str) -> (r: String)
    ensures
        r@ == a@ + b@,
{
    let mut s = owned(a);
    s.append(b);
    s
}

pub fn event_summary(event: &InputEvent) -> (r: Option<String>)
    ensures
        match trace_summary(*event) {
            Some(t) => r matches Some(s) && s@ == t,
            None => r is None,
        },
{
    match event {
        InputEvent::Pointer(p) => Some(cat("pointer:", pointer_kind_text(p.kind))),
        InputEvent::Keyboard(k) => {
            let mut s = cat("keyboard:", key_kind_text(k.kind));
            s.append(":");
            s.append(k.key.as_str());
            Some(s)
        },
        InputEvent::Text(t) => Some(cat("text:", t.text.as_str())),
        InputEvent::TextEdit(t) => Some(cat("text-edit:", edit_kind_text(t.kind))),
        InputEvent::TextComposition(t) => Some(cat("text-composition:", phase_text(t.phase))),
        InputEvent::Wheel(_) => None,
        InputEvent::Focus(f) => Some(cat("focus:", if f.focused { "true" } else { "false" })),
        InputEvent::Command(c) => Some(cat("command:", c.command.as_str())),
    }
}

pub open spec fn semantic_generated_detail() -> Seq<char> {
    "semantic debug control request injected an input event; this is not physical-equivalent evidence"@
}

pub open spec fn semantic_routed_detail() -> Seq<char> {
    "runtime routed the semantic input event to the declared target"@
}

impl DebugControlTrace {
    /// A semantic-direct trace of one event: generated, routed, and consumed
    /// or ignored by the target as `handled` says. Its event summary is the
    /// event's own, but for a wheel event, whose floating-point deltas the
    /// caller writes as `wheel_summary`.
    pub fn new(
        request_id: &str,
        frame: FrameIdentity,
        event: &InputEvent,
        wheel_summary: String,
        handled: bool,
        revision_before: u64,
        revision_after: u64,
        diagnostics: Vec<Diagnostic>,
    ) -> (r: Self)
        ensures
            r.request_id@ == request_id@,
            r.frame == frame,
            r.mode == DebugControlMode::SemanticDirect,
            r.dispatch_evidence is None,
            r.result_identity is None,
            r.routed_event_target@ == event_target(*event)@,
            r.event_summary@ == match trace_summary(*event) {
                Some(t) => t,
                None => wheel_summary@,
            },
            r.handled == handled,
            r.stages@.len() == 3,
            stage_is(r.stages@[0], DebugControlTraceStageKind::Generated, "slipway-debug-control"@, Some(event_target(*event)@), semantic_generated_detail()),
            stage_is(r.stages@[1], DebugControlTraceStageKind::Routed, "slipway-runtime"@, Some(event_target(*event)@), semantic_routed_detail()),
            handled ==> stage_is(r.stages@[2], DebugControlTraceStageKind::Consumed, "slipway-widget"@, Some(event_target(*event)@),
                "widget event handler consumed the input event"@),
            !handled ==> stage_is(r.stages@[2], DebugControlTraceStageKind::Ignored, "slipway-widget"@, Some(event_target(*event)@),
                "widget event handler ignored the input event"@),
            r.messages@.len() == 0,
            r.revision_before == revision_before,
            r.revision_after == revision_after,
            r.diagnostics == diagnostics,
    {
        let event_summary = match event_summary(event) {
            Some(summary) => summary,
            None => wheel_summary,
        };
        let target = event.target().as_str();
        let mut stages: Vec<DebugControlTraceStage> = Vec::new();
        stages.push(DebugControlTraceStage::generated(target,
            "semantic debug control request injected an input event; this is not physical-equivalent evidence"));
        stages.push(DebugControlTraceStage::routed(target, "runtime routed the semantic input event to the declared target"));
        if handled {
            stages.push(DebugControlTraceStage::consumed(target, "widget event handler consumed the input event"));
        } else {
            stages.push(DebugControlTraceStage::ignored(target, "widget event handler ignored the input event"));
        }
        DebugControlTrace {
            request_id: owned(request_id),
            frame,
            mode: DebugControlMode::SemanticDirect,
            dispatch_evidence: None,
            result_identity: None,
            routed_event_target: owned(target),
            event_summary,
            handled,
            stages,
            messages: Vec::new(),
            revision_before,
            revision_after,
            diagnostics,
        }
    }

    pub fn with_messages(self, messages: Vec<DebugMessageTraceEntry>) -> (r: Self)
        ensures
            r == (DebugControlTrace { messages, ..self }),
    {
        DebugControlTrace { messages, ..self }
    }

    pub fn with_mode(self, mode: DebugControlMode) -> (r: Self)
        ensures
            r == (DebugControlTrace { mode, ..self }),
    {
        DebugControlTrace { mode, ..self }
    }

    pub fn with_result_identity(self, identity: EventResultIdentity) -> (r: Self)
        ensures
            r == (DebugControlTrace { result_identity: Some(identity), ..self }),
    {
        DebugControlTrace { result_identity: Some(identity), ..self }
    }

    pub fn with_reduction_stage(self, stage: DebugControlTraceStage) -> (r: Self)
        ensures
            r.stages@ == self.stages@.push(stage),
            r == (DebugControlTrace { stages: r.stages, ..self }),
    {
        let mut trace = self;
        trace.stages.push(stage);
        trace
    }

    /// Attaches dispatch evidence. Evidence a visible backend presented makes
    /// the trace physical-equivalent and rewrites its first two stages as the
    /// backend's generation and the runtime's routing of physical input.
    pub fn with_dispatch_evidence(self, evidence: Option<DeclaredEventDispatchEvidence>) -> (r: Self)
        ensures
            r.dispatch_evidence == evidence,
            r.request_id == self.request_id,
            r.frame == self.frame,
            r.result_identity == self.result_identity,
            r.routed_event_target == self.routed_event_target,
            r.event_summary == self.event_summary,
            r.handled == self.handled,
            r.messages == self.messages,
            r.revision_before == self.revision_before,
            r.revision_after == self.revision_after,
            r.diagnostics == self.diagnostics,
            r.stages@.len() == self.stages@.len(),
            match evidence {
                Some(e) => if e.source.label@ == backend_presented_label() {
                    &&& r.mode == DebugControlMode::PhysicalEquivalent
                    &&& (self.stages@.len() > 0 ==> stage_is(r.stages@[0], DebugControlTraceStageKind::Generated,
                        "slipway-backend-native"@, Some(self.routed_event_target@),
                        "backend-presented physical input entered the backend event lifecycle"@))
                    &&& (self.stages@.len() > 1 ==> stage_is(r.stages@[1], DebugControlTraceStageKind::Routed,
                        "slipway-runtime"@, Some(self.routed_event_target@),
                        "runtime routed backend-presented physical input to the declared target"@))
                    &&& forall|i: int| 2 <= i < self.stages@.len() ==> r.stages@[i] == self.stages@[i]
                } else {
                    r.mode == self.mode && r.stages == self.stages
                },
                None => r.mode == self.mode && r.stages == self.stages,
            },
    {
        let mut trace = self;
        let presented = match &evidence {
            Some(e) => str_eq(e.source.label.as_str(), evidence_source_backend_presented_label()),
            None => false,
        };
        if presented {
            trace.mode = DebugControlMode::PhysicalEquivalent;
            let target = trace.routed_event_target.clone();
            if trace.stages.len() > 0 {
                trace.stages.set(0, DebugControlTraceStage::new(
                    DebugControlTraceStageKind::Generated,
                    "slipway-backend-native",
                    Some(target.clone()),
                    "backend-presented physical input entered the backend event lifecycle",
                ));
            }
            if trace.stages.len() > 1 {
                trace.stages.set(1, DebugControlTraceStage::routed(target.as_str(),
                    "runtime routed backend-presented physical input to the declared target"));
            }
        }
        trace.dispatch_evidence = evidence;
        trace
    }
}

} // verus!
