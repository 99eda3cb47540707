use vstd::prelude::*;
use crate::command::{DebugCommand, ProbeKind, RenderPacket};
use crate::evidence::{
    DebugFailure, DeclaredEventDispatchEvidence, DeclaredEventDispatchIdentity, Diagnostic,
    DiagnosticSeverity, EvidenceSource,
};
use crate::frame::{frame_eq, same_frame, FrameIdentity};
use crate::input::{InputEvent, TextCompositionEvent, TextCompositionPhase, WidgetSlotAddress};
use crate::screenshot::{
    correlation_of, product_selector, screenshot_violation, validate_presented_screenshot_product,
    PresentedScreenshotAdmission, PresentedScreenshotProduct,
};

verus! {

/// The status a runtime reports for a status command.
#[derive(Clone, Debug, PartialEq, Eq)]
pub struct DebugStatus {
    pub admitted: bool,
    pub detail: String,
    /// Runtime state revision at the time the status reply was assembled.
    pub revision: u64,
    /// Visible backend that registered itself with the runtime, when one has.
    pub backend_id: Option<String>,
    /// Number of backend input traces currently retained in the bounded ring.
    pub trace_buffer_depth: usize,
    /// Capacity of the backend input trace ring.
    pub trace_buffer_capacity: usize,
    /// Debug replies the runtime handler refused since the runtime started.
    pub refused_debug_replies: u64,
    /// Backend input traces recorded as unhandled since the runtime started.
    pub unhandled_backend_input_traces: u64,
}

/// Offscreen render evidence for one frame of one target.
#[derive(Clone, Debug, PartialEq, Eq)]
pub struct RenderEvidence {
    pub target: String,
    pub frame: FrameIdentity,
    pub source: EvidenceSource,
    pub provider_id: String,
    pub artifact_ref: Option<String>,
    pub artifact_path: Option<String>,
    pub pixel_hash: Option<String>,
    pub width: Option<u32>,
    pub height: Option<u32>,
    pub diagnostics: Vec<Diagnostic>,
}

/// A refused offscreen render.
#[derive(Clone, Debug, PartialEq, Eq)]
pub struct RenderRefusal {
    pub target: Option<String>,
    pub frame: FrameIdentity,
    pub source: Option<EvidenceSource>,
    pub provider_id: Option<String>,
    pub reason: String,
    pub diagnostics: Vec<Diagnostic>,
}

#[derive(Clone, Debug, PartialEq, Eq)]
pub enum RenderProduct {
    Evidence(RenderEvidence),
    Refusal(RenderRefusal),
}

/// A message a widget emitted while handling an event.
#[derive(Clone, Debug, PartialEq, Eq)]
pub struct EmittedMessage {
    pub target: String,
    pub name: String,
}

/// The shape of one state change an event caused.
#[derive(Clone, Debug, PartialEq, Eq)]
pub struct ChangeShape {
    pub target: String,
    pub slot: Option<WidgetSlotAddress>,
    pub field: String,
    pub before_present: bool,
    pub after_present: bool,
}

/// A diagnostic as it appears in a result identity.
#[derive(Clone, Debug, PartialEq, Eq)]
pub struct ResultDiagnostic {
    pub target: Option<String>,
    pub severity: DiagnosticSeverity,
    pub code: String,
}

/// What an event did, independent of when it was observed.
#[derive(Clone, Debug, PartialEq, Eq)]
pub struct EventResultIdentity {
    pub handled: bool,
    pub emitted_messages: Vec<EmittedMessage>,
    pub change_shapes: Vec<ChangeShape>,
    pub diagnostics: Vec<ResultDiagnostic>,
}

/// One observed piece of widget state.
#[derive(Clone, Debug, PartialEq, Eq)]
pub struct StateObservation {
    pub target: String,
    pub slot: Option<WidgetSlotAddress>,
    pub name: String,
    pub value: String,
}

/// One observed change of widget state.
#[derive(Clone, Debug, PartialEq, Eq)]
pub struct ChangeEvidence {
    pub target: String,
    pub slot: Option<WidgetSlotAddress>,
    pub field: String,
    pub before: Option<String>,
    pub after: Option<String>,
}

/// A probe product, holding what the debug protocol reports of it.
#[derive(Clone, Debug, PartialEq, Eq)]
pub enum ProbeProduct {
    Event {
        routed_target: String,
        event: InputEvent,
        dispatch_evidence: Option<DeclaredEventDispatchEvidence>,
        dispatch_identity: Option<DeclaredEventDispatchIdentity>,
        handled: bool,
        revision_before: u64,
        revision_after: u64,
        emitted_messages: Vec<EmittedMessage>,
        local_state: Vec<StateObservation>,
        changes: Vec<ChangeEvidence>,
        result_identity: EventResultIdentity,
        diagnostics: Vec<Diagnostic>,
    },
    Diagnostic(Diagnostic),
    RenderEvidence(RenderEvidence),
    RenderPacket(RenderPacket),
    ViewDefinition {
        target: String,
        frame: FrameIdentity,
        hit_regions: usize,
        focus_regions: usize,
        scroll_regions: usize,
        diagnostics: Vec<Diagnostic>,
    },
    State { target: String, observations: Vec<StateObservation> },
    Topology { root: String, traversal_count: usize },
    Change { target: String, changes: Vec<ChangeEvidence> },
    Paint { target: String, ops: usize },
    Semantics { root: String, nodes: usize },
    Surface { target: String, surfaces: usize },
    LayoutIntent {
        target: String,
        has_intrinsic_size: bool,
        has_size_policy: bool,
        has_overflow_policy: bool,
        has_scroll_policy: bool,
    },
    DispatchGraph { target: String, frame: FrameIdentity, graph: DispatchGraph },
}

#[derive(Clone, Copy, Debug, PartialEq, Eq, Structural)]
pub enum DispatchGraphNodeKind {
    Hit,
    Focus,
    Scroll,
    Occlusion,
}

#[derive(Clone, Copy, Debug, PartialEq, Eq, Structural)]
pub enum DispatchGraphEdgeKind {
    HitOrder,
    Occlusion,
    Capture,
    Chaining,
    FocusRoute,
}

#[derive(Clone, Copy, Debug, PartialEq, Eq, Structural)]
pub enum DispatchGraphChannel {
    Pointer,
    Wheel,
    FocusRouted,
}

/// The stacking order of a hit region.
#[derive(Clone, Copy, Debug, PartialEq, Eq, Structural, Default)]
pub struct HitRegionOrder {
    pub z_index: i32,
    pub paint_order: u32,
    pub traversal_order: u32,
}

/// One declared region in the dispatch graph.
#[derive(Clone, Debug, PartialEq, Eq)]
pub struct DispatchGraphNode {
    pub id: String,
    pub kind: DispatchGraphNodeKind,
    pub target: String,
    pub address: Option<WidgetSlotAddress>,
    pub bounds: crate::frame::Rect,
    pub order: HitRegionOrder,
    pub enabled: bool,
    /// The label of the region's pointer capture intent, if it declares one.
    pub capture: Option<String>,
    pub consumes_wheel: Option<bool>,
    pub blocks_pointer: Option<bool>,
    pub blocks_wheel: Option<bool>,
}

/// One ordering, occlusion, capture, chaining or focus relation between regions.
#[derive(Clone, Debug, PartialEq, Eq)]
pub struct DispatchGraphEdge {
    pub kind: DispatchGraphEdgeKind,
    pub channel: DispatchGraphChannel,
    pub from: String,
    pub to: String,
}

/// The declared dispatch regions of a target and their relations.
#[derive(Clone, Debug, PartialEq, Eq)]
pub struct DispatchGraph {
    pub target: String,
    pub nodes: Vec<DispatchGraphNode>,
    pub edges: Vec<DispatchGraphEdge>,
}

/// The frame a probe product is about, for the products that carry one.
pub open spec fn probe_frame(p: ProbeProduct) -> Option<FrameIdentity> {
    match p {
        ProbeProduct::ViewDefinition { frame, .. } => Some(frame),
        ProbeProduct::RenderPacket(packet) => Some(packet.frame),
        ProbeProduct::RenderEvidence(evidence) => Some(evidence.frame),
        ProbeProduct::DispatchGraph { frame, .. } => Some(frame),
        _ => None,
    }
}

pub fn probe_frame_identity(p: &ProbeProduct) -> (r: Option<&FrameIdentity>)
    ensures
        r matches Some(f) ==> probe_frame(*p) == Some(*f),
        r is None ==> probe_frame(*p) is None,
{
    match p {
        ProbeProduct::ViewDefinition { frame, .. } => Some(frame),
        ProbeProduct::RenderPacket(packet) => Some(&packet.frame),
        ProbeProduct::RenderEvidence(evidence) => Some(&evidence.frame),
        ProbeProduct::DispatchGraph { frame, .. } => Some(frame),
        _ => None,
    }
}

#[derive(Clone, Copy, Debug, PartialEq, Eq, Structural)]
pub enum MessageDisposition {
    Consumed,
    Ignored,
    ReductionUnavailable,
}

#[derive(Clone, Copy, Debug, PartialEq, Eq, Structural)]
pub enum DebugControlTraceStageKind {
    Generated,
    Routed,
    Consumed,
    Ignored,
    Reduced,
}

#[derive(Clone, Copy, Debug, PartialEq, Eq, Structural)]
pub enum DebugControlMode {
    SemanticDirect,
    PhysicalEquivalent,
}

#[derive(Clone, Debug, PartialEq, Eq)]
pub struct DebugControlTraceStage {
    pub stage: DebugControlTraceStageKind,
    pub actor: String,
    pub target: Option<String>,
    pub detail: String,
}

#[derive(Clone, Debug, PartialEq, Eq)]
pub struct DebugMessageTraceEntry {
    pub source: String,
    pub name: String,
    pub disposition: MessageDisposition,
}

/// The request-scoped trace of one debug control.
#[derive(Clone, Debug, PartialEq, Eq)]
pub struct DebugControlTrace {
    pub request_id: String,
    pub frame: FrameIdentity,
    pub mode: DebugControlMode,
    pub dispatch_evidence: Option<DeclaredEventDispatchEvidence>,
    pub result_identity: Option<EventResultIdentity>,
    pub routed_event_target: String,
    pub event_summary: String,
    pub handled: bool,
    pub stages: Vec<DebugControlTraceStage>,
    pub messages: Vec<DebugMessageTraceEntry>,
    pub revision_before: u64,
    pub revision_after: u64,
    pub diagnostics: Vec<Diagnostic>,
}

#[derive(Clone, Copy, Debug, PartialEq, Eq, Structural)]
pub enum CompositionPhaseProvenance {
    Native,
    Derived { from: TextCompositionPhase },
}

#[derive(Clone, Copy, Debug, PartialEq, Eq, Structural)]
pub enum DebugCompositionIngressObservation {
    IcedQueueSlice { sequence_index: usize },
    EguiRawInputSpan { event_index: usize },
    Derived { from_sequence_index: usize },
}

#[derive(Clone, Debug, PartialEq, Eq)]
pub struct DebugCompositionPhaseTrace {
    pub phase: TextCompositionPhase,
    pub backend_event: String,
    pub provenance: CompositionPhaseProvenance,
    pub event: TextCompositionEvent,
    pub ingress_observation: DebugCompositionIngressObservation,
    pub dispatch_evidence: DeclaredEventDispatchEvidence,
    pub app_handled: bool,
    pub result_identity: Option<EventResultIdentity>,
}

#[derive(Clone, Debug, PartialEq, Eq)]
pub struct DebugCompositionCommitMutation {
    pub trace: DebugControlTrace,
    pub before: String,
    pub after: String,
}

#[derive(Clone, Debug, PartialEq, Eq)]
pub struct DebugCompositionTrace {
    pub request_id: String,
    pub frame: FrameIdentity,
    pub backend_id: String,
    pub target: String,
    pub selected_region: String,
    pub focused_before: bool,
    pub focused_after: bool,
    pub phases: Vec<DebugCompositionPhaseTrace>,
    pub commit_mutation: Option<DebugCompositionCommitMutation>,
    pub completed: bool,
    pub failure: Option<DebugFailure>,
}

/// What a handler produced for a debug command.
#[derive(Clone, Debug, PartialEq, Eq)]
pub enum DebugReplyProduct {
    Status(DebugStatus),
    Probes(Vec<ProbeProduct>),
    Render(RenderProduct),
    Screenshot(PresentedScreenshotProduct),
    Diagnostics(Vec<Diagnostic>),
    ControlTrace(DebugControlTrace),
    CompositionTrace(DebugCompositionTrace),
    Error(DebugFailure),
}

/// A reply to one debug command.
#[derive(Clone, Debug, PartialEq, Eq)]
pub struct DebugReply {
    pub request_id: String,
    pub frame: FrameIdentity,
    pub product: DebugReplyProduct,
}

/// The probe product carries a frame other than `expected`.
pub open spec fn probe_frame_differs(p: ProbeProduct, expected: FrameIdentity) -> bool {
    match probe_frame(p) {
        Some(f) => !same_frame(f, expected),
        None => false,
    }
}

/// The result is an error reply with the given code.
pub open spec fn is_error_with(result: DebugReplyProduct, code: Seq<char>) -> bool {
    match result {
        DebugReplyProduct::Error(f) => f.code@ == code,
        _ => false,
    }
}

/// The product carries evidence for a frame other than `expected`.
pub open spec fn frame_mismatch(product: DebugReplyProduct, expected: FrameIdentity) -> bool {
    match product {
        DebugReplyProduct::Render(rp) => match rp {
            RenderProduct::Evidence(e) => !same_frame(e.frame, expected),
            RenderProduct::Refusal(r) => !same_frame(r.frame, expected),
        },
        DebugReplyProduct::Screenshot(s) => !same_frame(
            correlation_of(product_selector(s)),
            expected,
        ),
        DebugReplyProduct::ControlTrace(t) => !same_frame(t.frame, expected),
        DebugReplyProduct::CompositionTrace(t) => !same_frame(t.frame, expected),
        DebugReplyProduct::Probes(ps) => probes_mismatch(ps@, expected),
        DebugReplyProduct::Status(_) => false,
        DebugReplyProduct::Diagnostics(_) => false,
        DebugReplyProduct::Error(_) => false,
    }
}

/// A product that carries evidence for another frame than the command's is
/// never passed on: render evidence, render refusals, screenshots (by their
/// selector's correlation frame), control traces and composition traces whose
/// frame differs from the expected one in any field become the
/// frame-identity-mismatch error; one for the expected frame is checked no
/// further on that account.
pub proof fn lemma_checked_product_rejects_other_frames(
    expected: FrameIdentity,
    admission: Option<PresentedScreenshotAdmission>,
    product: DebugReplyProduct,
    result: DebugReplyProduct,
)
    requires
        checked_product_spec(expected, admission, product, result),
    ensures
        (product matches DebugReplyProduct::ControlTrace(t) && !same_frame(t.frame, expected))
            ==> (result matches DebugReplyProduct::Error(f) && f.code@ == "frame-identity-mismatch"@),
        (product matches DebugReplyProduct::CompositionTrace(t) && !same_frame(t.frame, expected))
            ==> (result matches DebugReplyProduct::Error(f) && f.code@ == "frame-identity-mismatch"@),
        (product matches DebugReplyProduct::Render(RenderProduct::Evidence(e)) && !same_frame(e.frame, expected))
            ==> (result matches DebugReplyProduct::Error(f) && f.code@ == "frame-identity-mismatch"@),
        (product matches DebugReplyProduct::Render(RenderProduct::Refusal(e)) && !same_frame(e.frame, expected))
            ==> (result matches DebugReplyProduct::Error(f) && f.code@ == "frame-identity-mismatch"@),
        (product matches DebugReplyProduct::Screenshot(s) && !same_frame(correlation_of(product_selector(s)), expected))
            ==> (result matches DebugReplyProduct::Error(f) && f.code@ == "frame-identity-mismatch"@),
        (product matches DebugReplyProduct::Probes(ps) && exists|i: int| 0 <= i < ps@.len() && #[trigger] probe_carries_other_frame(ps@[i], expected))
            ==> (result matches DebugReplyProduct::Error(f) && f.code@ == "frame-identity-mismatch"@),
        (product matches DebugReplyProduct::ControlTrace(t) && same_frame(t.frame, expected)) ==> result == product,
        (product matches DebugReplyProduct::CompositionTrace(t) && same_frame(t.frame, expected)) ==> result == product,
{
    if let DebugReplyProduct::Probes(ps) = product {
        if exists|i: int| 0 <= i < ps@.len() && #[trigger] probe_carries_other_frame(ps@[i], expected) {
            let i = choose|i: int| 0 <= i < ps@.len() && #[trigger] probe_carries_other_frame(ps@[i], expected);
            assert(probe_frame_differs(ps@[i], expected));
        }
    }
}

/// A probe that carries a frame (a view definition, a render packet, render
/// evidence or a dispatch graph) carries one other than `expected`.
pub open spec fn probe_carries_other_frame(p: ProbeProduct, expected: FrameIdentity) -> bool {
    match p {
        ProbeProduct::ViewDefinition { frame, .. } => !same_frame(frame, expected),
        ProbeProduct::RenderPacket(packet) => !same_frame(packet.frame, expected),
        ProbeProduct::RenderEvidence(evidence) => !same_frame(evidence.frame, expected),
        ProbeProduct::DispatchGraph { frame, .. } => !same_frame(frame, expected),
        _ => false,
    }
}

pub open spec fn probes_mismatch(ps: Seq<ProbeProduct>, expected: FrameIdentity) -> bool {
    exists|i: int| 0 <= i < ps.len() && #[trigger] probe_frame_differs(ps[i], expected)
}

pub fn frame_identity_mismatch(product: &DebugReplyProduct, expected: &FrameIdentity) -> (r: bool)
    ensures
        r == frame_mismatch(*product, *expected),
{
    match product {
        DebugReplyProduct::Render(RenderProduct::Evidence(e)) => !frame_eq(&e.frame, expected),
        DebugReplyProduct::Render(RenderProduct::Refusal(r)) => !frame_eq(&r.frame, expected),
        DebugReplyProduct::Screenshot(s) => {
            let selector = match s {
                PresentedScreenshotProduct::Captured(p) => &p.selector,
                PresentedScreenshotProduct::Refusal(r) => &r.selector,
            };
            !frame_eq(selector.correlation_frame(), expected)
        },
        DebugReplyProduct::ControlTrace(t) => !frame_eq(&t.frame, expected),
        DebugReplyProduct::CompositionTrace(t) => !frame_eq(&t.frame, expected),
        DebugReplyProduct::Probes(ps) => {
            let mut i: usize = 0;
            while i < ps.len()
                invariant
                    0 <= i <= ps@.len(),
                    *product == DebugReplyProduct::Probes(*ps),
                    forall|j: int| 0 <= j < i ==> !#[trigger] probe_frame_differs(ps@[j], *expected),
                decreases ps@.len() - i,
            {
                if let Some(f) = probe_frame_identity(&ps[i]) {
                    if !frame_eq(f, expected) {
                        assert(probe_frame_differs(ps@[i as int], *expected));
                        return true;
                    }
                }
                i += 1;
            }
            false
        },
        _ => false,
    }
}

pub open spec fn code_frame_identity_mismatch() -> Seq<char> {
    "frame-identity-mismatch"@
}

pub open spec fn code_admission_missing() -> Seq<char> {
    "screenshot-admission-missing"@
}

/// The product a bridge hands back for a handler's product: a frame mismatch
/// becomes a `frame-identity-mismatch` error; a screenshot product for a
/// non-screenshot command becomes `screenshot-admission-missing`; a screenshot
/// product that breaks a presented screenshot rule becomes that rule's error;
/// every other product is returned unchanged.
pub open spec fn checked_product_spec(
    frame: FrameIdentity,
    admission: Option<PresentedScreenshotAdmission>,
    product: DebugReplyProduct,
    result: DebugReplyProduct,
) -> bool {
    if frame_mismatch(product, frame) {
        is_error_with(result, code_frame_identity_mismatch())
    } else if let DebugReplyProduct::Screenshot(s) = product {
        match admission {
            None => is_error_with(result, code_admission_missing()),
            Some(a) => match screenshot_violation(frame, a, s) {
                None => result == product,
                Some(code) => is_error_with(result, code),
            },
        }
    } else {
        result == product
    }
}

pub fn checked_product(
    frame: &FrameIdentity,
    screenshot_admission: Option<PresentedScreenshotAdmission>,
    product: DebugReplyProduct,
) -> (r: DebugReplyProduct)
    ensures
        checked_product_spec(*frame, screenshot_admission, product, r),
{
    if frame_identity_mismatch(&product, frame) {
        DebugReplyProduct::Error(
            DebugFailure::new(
                "frame-identity-mismatch",
                "handler returned evidence for a different frame identity",
            ),
        )
    } else if let DebugReplyProduct::Screenshot(screenshot) = &product {
        match screenshot_admission {
            None => DebugReplyProduct::Error(
                DebugFailure::new(
                    "screenshot-admission-missing",
                    "screenshot product returned for a non-screenshot command",
                ),
            ),
            Some(admitted) => match validate_presented_screenshot_product(
                frame,
                admitted,
                screenshot,
            ) {
                Ok(()) => product,
                Err(failure) => DebugReplyProduct::Error(failure),
            },
        }
    } else {
        product
    }
}

/// A handler of debug commands, implemented by the runtime that owns the app state.
/// The debug bridge method a tool call travels through.
#[derive(Clone, Copy, Debug, PartialEq, Eq, Structural)]
pub enum McpProbeMethod {
    Status,
    Probe,
    Render,
    Screenshot,
    Control,
    Resize,
}

pub trait SlipwayDebugCommandHandler {
    /// Whether, in this state, the handler may answer `command` with `product`.
    /// A handler that does not say so may answer anything.
    open spec fn answers(&self, command: DebugCommand, product: DebugReplyProduct) -> bool {
        true
    }

    fn handle_debug_command(&mut self, command: DebugCommand) -> (product: DebugReplyProduct)
        ensures
            old(self).answers(command, product);
}

/// What a handler in this state may answer each command with.
pub open spec fn handler_answers<H: SlipwayDebugCommandHandler>(handler: H) -> spec_fn(DebugCommand, DebugReplyProduct) -> bool {
    |command: DebugCommand, product: DebugReplyProduct| handler.answers(command, product)
}

} // verus!
