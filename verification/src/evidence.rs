use vstd::prelude::*;
use vstd::string::*;
use crate::text::owned;

verus! {

/// How serious a diagnostic is.
#[derive(Clone, Copy, Debug, PartialEq, Eq, Structural)]
pub enum DiagnosticSeverity {
    Info,
    Warning,
    Error,
    Unsupported,
}

/// A diagnostic attached to evidence, optionally naming the widget it is about.
#[derive(Clone, Debug, PartialEq, Eq)]
pub struct Diagnostic {
    pub target: Option<String>,
    pub severity: DiagnosticSeverity,
    pub code: String,
    pub message: String,
}

impl Diagnostic {
    /// A copy of this diagnostic.
    pub fn duplicate(&self) -> (r: Self)
        ensures
            r == *self,
    {
        Diagnostic {
            target: match &self.target {
                Some(t) => Some(t.clone()),
                None => None,
            },
            severity: self.severity,
            code: self.code.clone(),
            message: self.message.clone(),
        }
    }
}

/// A copy of a list of diagnostics.
pub fn duplicate_diagnostics(diagnostics: &Vec<Diagnostic>) -> (r: Vec<Diagnostic>)
    ensures
        r@ == diagnostics@,
{
    let mut r: Vec<Diagnostic> = Vec::new();
    let mut i: usize = 0;
    while i < diagnostics.len()
        invariant
            i <= diagnostics@.len(),
            r@ == diagnostics@.take(i as int),
        decreases diagnostics@.len() - i,
    {
        r.push(diagnostics[i].duplicate());
        assert(diagnostics@.take(i + 1) =~= diagnostics@.take(i as int).push(diagnostics@[i as int]));
        i += 1;
    }
    assert(diagnostics@.take(i as int) =~= diagnostics@);
    r
}

/// Where a piece of evidence comes from.
#[derive(Clone, Debug, PartialEq, Eq)]
pub struct EvidenceSource {
    pub label: String,
    pub backend_id: Option<String>,
    pub provider_id: Option<String>,
    pub pass_id: Option<String>,
}

pub open spec fn backend_presented_label() -> Seq<char> {
    seq!['b', 'a', 'c', 'k', 'e', 'n', 'd', '_', 'p', 'r', 'e', 's', 'e', 'n', 't', 'e', 'd']
}

/// The label of evidence that a visible backend presented.
pub fn evidence_source_backend_presented_label() -> (r: &'static str)
    ensures
        r@ == backend_presented_label(),
{
    let s = "backend_presented";
    proof {
        reveal_strlit("backend_presented");
    }
    s
}

pub open spec fn post_hoc_diagnosis_label() -> Seq<char> {
    "post_hoc_diagnosis"@
}

/// The label of a dispatch diagnosis made after the fact, which is never
/// evidence of a real dispatch.
pub fn evidence_source_post_hoc_diagnosis_label() -> (r: &'static str)
    ensures
        r@ == post_hoc_diagnosis_label(),
{
    "post_hoc_diagnosis"
}

pub open spec fn canonical_offscreen_label() -> Seq<char> {
    seq!['c', 'a', 'n', 'o', 'n', 'i', 'c', 'a', 'l', '_', 'o', 'f', 'f', 's', 'c', 'r', 'e', 'e', 'n']
}

/// The label of evidence produced by an offscreen canonical renderer.
pub fn evidence_source_canonical_offscreen_label() -> (r: &'static str)
    ensures
        r@ == canonical_offscreen_label(),
{
    let s = "canonical_offscreen";
    proof {
        reveal_strlit("canonical_offscreen");
    }
    s
}

impl EvidenceSource {
    /// Evidence a visible backend presented in one named pass.
    pub fn backend_presented(backend_id: &str, pass_id: &str) -> (r: Self)
        ensures
            r.label@ == backend_presented_label(),
            r.backend_id matches Some(b) && b@ == backend_id@,
            r.pass_id matches Some(p) && p@ == pass_id@,
            r.provider_id is None,
    {
        EvidenceSource {
            label: owned(evidence_source_backend_presented_label()),
            backend_id: Some(owned(backend_id)),
            provider_id: None,
            pass_id: Some(owned(pass_id)),
        }
    }

    /// A diagnosis a backend made after the fact in one named pass.
    pub fn post_hoc_diagnosis(backend_id: &str, pass_id: &str) -> (r: Self)
        ensures
            r.label@ == post_hoc_diagnosis_label(),
            r.backend_id matches Some(b) && b@ == backend_id@,
            r.pass_id matches Some(p) && p@ == pass_id@,
            r.provider_id is None,
    {
        EvidenceSource {
            label: owned(evidence_source_post_hoc_diagnosis_label()),
            backend_id: Some(owned(backend_id)),
            provider_id: None,
            pass_id: Some(owned(pass_id)),
        }
    }

    /// Evidence an offscreen provider rendered.
    pub fn canonical_offscreen(provider_id: &str) -> (r: Self)
        ensures
            r.label@ == canonical_offscreen_label(),
            r.provider_id matches Some(p) && p@ == provider_id@,
            r.backend_id is None,
            r.pass_id is None,
    {
        EvidenceSource {
            label: owned(evidence_source_canonical_offscreen_label()),
            backend_id: None,
            provider_id: Some(owned(provider_id)),
            pass_id: None,
        }
    }
}

} // verus!

verus! {

/// Which declared dispatch channel routed an event.
#[derive(Clone, Copy, Debug, PartialEq, Eq, Structural)]
pub enum DeclaredEventDispatchKind {
    Pointer,
    Wheel,
    Scroll,
    Focus,
    Keyboard,
    Text,
    Command,
}

/// The coordinate space of a dispatch input position.
#[derive(Clone, Copy, Debug, PartialEq, Eq, Structural)]
pub enum DispatchPositionSpace {
    Content,
    Viewport,
}

/// Evidence of how one input was dispatched through the declared regions.
#[derive(Clone, Debug, PartialEq, Eq)]
pub struct DeclaredEventDispatchEvidence {
    pub source: EvidenceSource,
    pub frame: crate::frame::FrameIdentity,
    pub kind: DeclaredEventDispatchKind,
    pub input_position: Option<crate::frame::Point>,
    pub input_position_space: Option<DispatchPositionSpace>,
    pub candidate_regions: Vec<String>,
    pub selected_region: Option<String>,
    pub refusal_reason: Option<String>,
    pub generated_event: Option<crate::input::InputEvent>,
    pub route: Option<EventRoute>,
    pub capture_event: bool,
    pub diagnostics: Vec<Diagnostic>,
}

/// The part of dispatch evidence that identifies the dispatch, without its
/// source, refusal reason or diagnostics.
#[derive(Clone, Debug, PartialEq, Eq)]
pub struct DeclaredEventDispatchIdentity {
    pub frame: crate::frame::FrameIdentity,
    pub kind: DeclaredEventDispatchKind,
    pub input_position: Option<crate::frame::Point>,
    pub candidate_regions: Vec<String>,
    pub selected_region: Option<String>,
    pub generated_event: Option<crate::input::InputEvent>,
    pub route: Option<EventRoute>,
    pub capture_event: bool,
}

/// The route a dispatched event took: its id, slot address, widget path and phase label.
#[derive(Clone, Debug, PartialEq, Eq)]
pub struct EventRoute {
    pub route_id: Option<String>,
    pub address: Option<crate::input::WidgetSlotAddress>,
    pub path: Vec<String>,
    pub phase: String,
}

/// A debug request that failed, with its code and message.
#[derive(Clone, Debug, PartialEq, Eq)]
pub struct DebugFailure {
    pub code: String,
    pub message: String,
    pub dispatch_evidence: Option<DeclaredEventDispatchEvidence>,
}

impl DebugFailure {
    /// A failure with a code and a message and no dispatch evidence.
    pub fn new(code: &str, message: &str) -> (r: Self)
        ensures
            r.code@ == code@,
            r.message@ == message@,
            r.dispatch_evidence is None,
    {
        DebugFailure { code: owned(code), message: owned(message), dispatch_evidence: None }
    }
}

} // verus!
