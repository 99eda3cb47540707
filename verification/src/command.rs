use vstd::prelude::*;
use crate::evidence::Diagnostic;
use crate::frame::{Coord, FrameIdentity, Point};
use crate::input::{
    InputEvent, KeyEventKind, KeyboardDetails, Modifiers, PointerButton, PointerDetails,
    PointerEventKind, TextEditKind, TextSelectionRange,
};
use crate::screenshot::{
    admission_of, correlation_of, PresentedScreenshotAdmission, PresentedScreenshotRequest,
};
use crate::text::owned;

verus! {

/// The kinds of evidence a probe can ask for.
#[derive(Clone, Copy, Debug, PartialEq, Eq, Structural)]
pub enum ProbeKind {
    Topology,
    State,
    Event,
    Change,
    Diagnostics,
    Paint,
    Semantics,
    Surface,
    LayoutIntent,
    ViewDefinition,
    RenderPacket,
    RenderEvidence,
    DispatchGraph,
}

/// An explicit request for probe products.
#[derive(Clone, Debug, PartialEq, Eq)]
pub struct ProbeRequest {
    pub target: Option<String>,
    pub kinds: Vec<ProbeKind>,
    pub event_trace_limit: Option<usize>,
}

/// A request to render one frame of one target offscreen.
#[derive(Clone, Debug, PartialEq, Eq)]
pub struct RenderPacket {
    pub target: String,
    pub frame: FrameIdentity,
    /// How many paint operations the packet carries.
    pub paint_ops: usize,
    pub diagnostics: Vec<Diagnostic>,
}

/// How a physical-equivalent operation names the declaration it acts on.
#[derive(Clone, Debug, PartialEq, Eq)]
pub enum DebugPhysicalControlDeclarationSelector {
    Target { target: String },
    Region { region: String },
    Position { position: Point },
}

/// One preedit update of a text composition.
#[derive(Clone, Debug, PartialEq, Eq)]
pub struct DebugTextCompositionUpdate {
    pub preedit_text: String,
    pub cursor_range: Option<TextSelectionRange>,
}

/// A physical-equivalent debug operation resolved through declared routing.
#[derive(Clone, Debug, PartialEq, Eq)]
pub enum DebugPhysicalControl {
    Pointer {
        position: Point,
        kind: PointerEventKind,
        button: Option<PointerButton>,
        details: PointerDetails,
        pointer_is_pressed: bool,
    },
    Wheel { position: Point, delta_x: Coord, delta_y: Coord },
    Focus { selector: DebugPhysicalControlDeclarationSelector, focused: bool },
    Text { selector: DebugPhysicalControlDeclarationSelector, text: String },
    TextEdit {
        selector: DebugPhysicalControlDeclarationSelector,
        kind: TextEditKind,
        text: Option<String>,
        selection_before: Option<TextSelectionRange>,
        selection_after: Option<TextSelectionRange>,
    },
    Keyboard {
        selector: DebugPhysicalControlDeclarationSelector,
        key: String,
        kind: KeyEventKind,
        modifiers: Modifiers,
        details: KeyboardDetails,
    },
    Command {
        selector: DebugPhysicalControlDeclarationSelector,
        command: String,
        payload_ref: Option<String>,
    },
    Scroll { selector: DebugPhysicalControlDeclarationSelector, offset_x: Coord, offset_y: Coord },
    TextComposition {
        selector: DebugPhysicalControlDeclarationSelector,
        updates: Vec<DebugTextCompositionUpdate>,
        commit: String,
    },
}

#[derive(Clone, Debug, PartialEq, Eq)]
pub enum DebugCommandKind {
    Status { frame: FrameIdentity },
    Probe { frame: FrameIdentity, request: ProbeRequest },
    Render { packet: RenderPacket },
    Screenshot { request: PresentedScreenshotRequest },
    Control { frame: FrameIdentity, event: InputEvent, trace: bool },
    PhysicalControl { frame: FrameIdentity, operation: DebugPhysicalControl, trace: bool },
    Resize { frame: FrameIdentity },
}

/// A debug command with the request id it answers to.
#[derive(Clone, Debug, PartialEq, Eq)]
pub struct DebugCommand {
    pub request_id: String,
    pub kind: DebugCommandKind,
}

/// The frame identity a command is correlated with.
pub open spec fn command_frame(kind: DebugCommandKind) -> FrameIdentity {
    match kind {
        DebugCommandKind::Status { frame } => frame,
        DebugCommandKind::Probe { frame, .. } => frame,
        DebugCommandKind::Control { frame, .. } => frame,
        DebugCommandKind::PhysicalControl { frame, .. } => frame,
        DebugCommandKind::Resize { frame } => frame,
        DebugCommandKind::Render { packet } => packet.frame,
        DebugCommandKind::Screenshot { request } => correlation_of(request.selector),
    }
}

/// The screenshot admission of a command, present exactly for screenshot commands.
pub open spec fn command_admission(kind: DebugCommandKind) -> Option<PresentedScreenshotAdmission> {
    match kind {
        DebugCommandKind::Screenshot { request } => Some(admission_of(request.selector)),
        _ => None,
    }
}

pub open spec fn command_traced(kind: DebugCommandKind) -> bool {
    match kind {
        DebugCommandKind::Control { trace, .. } => trace,
        DebugCommandKind::PhysicalControl { trace, .. } => trace,
        _ => false,
    }
}

impl DebugCommand {
    pub fn status(request_id: &str, frame: FrameIdentity) -> (r: Self)
        ensures
            r.request_id@ == request_id@,
            r.kind == (DebugCommandKind::Status { frame }),
    {
        DebugCommand { request_id: owned(request_id), kind: DebugCommandKind::Status { frame } }
    }

    pub fn probe(request_id: &str, frame: FrameIdentity, request: ProbeRequest) -> (r: Self)
        ensures
            r.request_id@ == request_id@,
            r.kind == (DebugCommandKind::Probe { frame, request }),
    {
        DebugCommand {
            request_id: owned(request_id),
            kind: DebugCommandKind::Probe { frame, request },
        }
    }

    pub fn render(request_id: &str, packet: RenderPacket) -> (r: Self)
        ensures
            r.request_id@ == request_id@,
            r.kind == (DebugCommandKind::Render { packet }),
    {
        DebugCommand { request_id: owned(request_id), kind: DebugCommandKind::Render { packet } }
    }

    pub fn screenshot(request_id: &str, request: PresentedScreenshotRequest) -> (r: Self)
        ensures
            r.request_id@ == request_id@,
            r.kind == (DebugCommandKind::Screenshot { request }),
    {
        DebugCommand {
            request_id: owned(request_id),
            kind: DebugCommandKind::Screenshot { request },
        }
    }

    pub fn control(request_id: &str, frame: FrameIdentity, event: InputEvent) -> (r: Self)
        ensures
            r.request_id@ == request_id@,
            r.kind == (DebugCommandKind::Control { frame, event, trace: false }),
    {
        DebugCommand {
            request_id: owned(request_id),
            kind: DebugCommandKind::Control { frame, event, trace: false },
        }
    }

    pub fn control_with_trace(request_id: &str, frame: FrameIdentity, event: InputEvent) -> (r:
        Self)
        ensures
            r.request_id@ == request_id@,
            r.kind == (DebugCommandKind::Control { frame, event, trace: true }),
    {
        DebugCommand {
            request_id: owned(request_id),
            kind: DebugCommandKind::Control { frame, event, trace: true },
        }
    }

    pub fn physical_control_with_trace(
        request_id: &str,
        frame: FrameIdentity,
        operation: DebugPhysicalControl,
    ) -> (r: Self)
        ensures
            r.request_id@ == request_id@,
            r.kind == (DebugCommandKind::PhysicalControl { frame, operation, trace: true }),
    {
        DebugCommand {
            request_id: owned(request_id),
            kind: DebugCommandKind::PhysicalControl { frame, operation, trace: true },
        }
    }

    pub fn resize(request_id: &str, frame: FrameIdentity) -> (r: Self)
        ensures
            r.request_id@ == request_id@,
            r.kind == (DebugCommandKind::Resize { frame }),
    {
        DebugCommand { request_id: owned(request_id), kind: DebugCommandKind::Resize { frame } }
    }

    /// The frame identity this command is correlated with.
    pub fn frame_identity(&self) -> (r: &FrameIdentity)
        ensures
            *r == command_frame(self.kind),
    {
        match &self.kind {
            DebugCommandKind::Status { frame } => frame,
            DebugCommandKind::Probe { frame, .. } => frame,
            DebugCommandKind::Control { frame, .. } => frame,
            DebugCommandKind::PhysicalControl { frame, .. } => frame,
            DebugCommandKind::Resize { frame } => frame,
            DebugCommandKind::Render { packet } => &packet.frame,
            DebugCommandKind::Screenshot { request } => request.selector.correlation_frame(),
        }
    }

    /// The admission of a screenshot command; `None` for every other command.
    pub fn screenshot_admission(&self) -> (r: Option<PresentedScreenshotAdmission>)
        ensures
            r == command_admission(self.kind),
    {
        match &self.kind {
            DebugCommandKind::Screenshot { request } => Some(request.selector.admission()),
            _ => None,
        }
    }

    /// Whether this is a control or physical control command that asked for a trace.
    pub fn control_trace_enabled(&self) -> (r: bool)
        ensures
            r == command_traced(self.kind),
    {
        match &self.kind {
            DebugCommandKind::Control { trace, .. } => *trace,
            DebugCommandKind::PhysicalControl { trace, .. } => *trace,
            _ => false,
        }
    }
}

} // verus!
