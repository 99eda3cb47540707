use vstd::prelude::*;
use vstd::string::*;
use crate::command::{DebugCommand, DebugCommandKind, DebugPhysicalControl, DebugTextCompositionUpdate};
use crate::evidence::Diagnostic;
use crate::frame::{FrameIdentity, IcedPresentIdentityOverflow};
use crate::input::{
    PointerEventKind, TextCompositionEvent, TextCompositionPhase, TextSelectionRange,
    WidgetSlotAddress,
};
use crate::screenshot::{PresentedAlphaMode, PresentedSurfaceFormat, PresentedTransferFunction};

verus! {

/// What one runtime update did, as far as the redraw decision needs to know.
#[derive(Clone, Debug, PartialEq, Eq)]
pub enum SlipwayIcedRuntimeUpdate {
    Input { handled: bool, applied_messages: usize, diagnostics: Vec<Diagnostic> },
    DrainDebug,
    Noop,
}

/// The outcome of one app update of the iced runtime.
#[derive(Clone, Debug, PartialEq, Eq)]
pub struct SlipwayIcedRuntimeAppUpdate {
    pub runtime_update: Option<SlipwayIcedRuntimeUpdate>,
    pub debug_replies_drained: usize,
    pub debug_error: Option<String>,
}

pub open spec fn update_requires_redraw(
    update: SlipwayIcedRuntimeAppUpdate,
    trace_requires_redraw: bool,
) -> bool {
    if update.debug_error is Some {
        true
    } else {
        match update.runtime_update {
            Some(SlipwayIcedRuntimeUpdate::Input { handled, applied_messages, diagnostics }) => {
                if !handled {
                    diagnostics@.len() > 0
                } else {
                    applied_messages > 0 || diagnostics@.len() > 0 || trace_requires_redraw
                }
            },
            Some(SlipwayIcedRuntimeUpdate::DrainDebug) => update.debug_replies_drained > 0,
            Some(SlipwayIcedRuntimeUpdate::Noop) => false,
            None => false,
        }
    }
}

/// Whether an app update must request a redraw: a debug error always does;
/// handled input does when it applied messages, produced diagnostics or its
/// trace needs one; unhandled input only when it produced diagnostics; a
/// debug drain when it drained replies.
pub fn iced_runtime_update_requires_redraw(
    update: &SlipwayIcedRuntimeAppUpdate,
    trace_requires_redraw: bool,
) -> (r: bool)
    ensures
        r == update_requires_redraw(*update, trace_requires_redraw),
{
    if update.debug_error.is_some() {
        return true;
    }
    match &update.runtime_update {
        Some(SlipwayIcedRuntimeUpdate::Input { handled, applied_messages, diagnostics }) => {
            if !*handled {
                return diagnostics.len() > 0;
            }
            *applied_messages > 0 || diagnostics.len() > 0 || trace_requires_redraw
        },
        Some(SlipwayIcedRuntimeUpdate::DrainDebug) => update.debug_replies_drained > 0,
        Some(SlipwayIcedRuntimeUpdate::Noop) => false,
        None => false,
    }
}

/// What an update must redraw for: a debug error always needs a redraw; input
/// that produced diagnostics needs one whether or not it was handled, so the
/// diagnostics are shown; handled input that applied messages needs one; and
/// input that was handled without messages, diagnostics or a trace that needs
/// one, with no debug error, does not.
pub proof fn lemma_redraw_shows_what_an_update_changed(
    handled: bool,
    applied_messages: usize,
    diagnostics: Vec<Diagnostic>,
    debug_replies_drained: usize,
    debug_error: Option<String>,
    trace_requires_redraw: bool,
)
    ensures
        ({
            let update = SlipwayIcedRuntimeAppUpdate {
                runtime_update: Some(SlipwayIcedRuntimeUpdate::Input { handled, applied_messages, diagnostics }),
                debug_replies_drained,
                debug_error,
            };
            &&& debug_error is Some ==> update_requires_redraw(update, trace_requires_redraw)
            &&& diagnostics@.len() > 0 ==> update_requires_redraw(update, trace_requires_redraw)
            &&& handled && applied_messages > 0 ==> update_requires_redraw(update, trace_requires_redraw)
            &&& handled && trace_requires_redraw ==> update_requires_redraw(update, trace_requires_redraw)
            &&& (debug_error is None && applied_messages == 0 && diagnostics@.len() == 0 && !trace_requires_redraw)
                ==> !update_requires_redraw(update, trace_requires_redraw)
            &&& (debug_error is None && !handled && diagnostics@.len() == 0)
                ==> !update_requires_redraw(update, trace_requires_redraw)
        }),
{
}

/// An update without input redraws exactly when there is a debug error or it
/// drained debug replies that may have changed what is shown.
pub proof fn lemma_redraw_without_input(
    runtime_update: Option<SlipwayIcedRuntimeUpdate>,
    debug_replies_drained: usize,
    debug_error: Option<String>,
    trace_requires_redraw: bool,
)
    requires
        !(runtime_update matches Some(SlipwayIcedRuntimeUpdate::Input { .. })),
    ensures
        ({
            let update = SlipwayIcedRuntimeAppUpdate { runtime_update, debug_replies_drained, debug_error };
            update_requires_redraw(update, trace_requires_redraw) <==> (debug_error is Some
                || (runtime_update == Some(SlipwayIcedRuntimeUpdate::DrainDebug) && debug_replies_drained > 0))
        }),
{
}

/// At most this many redraw updates are delivered per frame.
pub const MAX_REDRAW_EVENT_UPDATES_PER_FRAME: usize = 3;

/// The redraw update is re-run on the same interface only when it changed
/// layout without emitting messages, and at most three times per frame.
pub fn should_re_tick_redraw_update(
    messages_is_empty: bool,
    has_layout_changed: bool,
    redraw_updates_delivered: usize,
) -> (r: bool)
    ensures
        r == (messages_is_empty && has_layout_changed && redraw_updates_delivered
            < MAX_REDRAW_EVENT_UPDATES_PER_FRAME),
{
    messages_is_empty && has_layout_changed && redraw_updates_delivered
        < MAX_REDRAW_EVENT_UPDATES_PER_FRAME
}

/// A widget's request for the next redraw; `At` carries a monotonic instant.
#[derive(Clone, Copy, Debug, PartialEq, Eq, Structural)]
pub enum RedrawRequest {
    NextFrame,
    At(u64),
    Wait,
}

/// How a redraw request is honored.
#[derive(Clone, Copy, Debug, PartialEq, Eq, Structural)]
pub enum RedrawRequestAction {
    RequestNow,
    ScheduleAt(u64),
    Keep,
}

/// `NextFrame` requests a redraw now; `At` schedules unless an earlier wakeup
/// is already scheduled; `Wait` requests nothing.
pub fn redraw_request_action(request: RedrawRequest, scheduled_redraw_at: Option<u64>) -> (r:
    RedrawRequestAction)
    ensures
        request == RedrawRequest::NextFrame ==> r == RedrawRequestAction::RequestNow,
        request == RedrawRequest::Wait ==> r == RedrawRequestAction::Keep,
        request matches RedrawRequest::At(at) ==> (if scheduled_redraw_at matches Some(s)
            && at >= s { r == RedrawRequestAction::Keep } else { r
            == RedrawRequestAction::ScheduleAt(at) }),
{
    match request {
        RedrawRequest::NextFrame => RedrawRequestAction::RequestNow,
        RedrawRequest::At(at) => {
            let earlier = match scheduled_redraw_at {
                None => true,
                Some(scheduled) => at < scheduled,
            };
            if earlier {
                RedrawRequestAction::ScheduleAt(at)
            } else {
                RedrawRequestAction::Keep
            }
        },
        RedrawRequest::Wait => RedrawRequestAction::Keep,
    }
}

/// Why presenting a surface failed.
#[derive(Clone, Copy, Debug, PartialEq, Eq, Structural)]
pub enum SurfaceError {
    OutOfMemory,
    Lost,
    Outdated,
    Timeout,
    Other,
}

/// The recovery for a failed present.
#[derive(Clone, Copy, Debug, PartialEq, Eq, Structural)]
pub enum PresentErrorRecovery {
    Exit,
    RecreateSurface,
    ReconfigureSurface,
    RetryNextFrame,
}

/// Out of memory is unrecoverable, a lost surface is recreated, an outdated
/// one reconfigured, and a timeout or other failure retried next frame.
pub fn present_error_recovery(error: &SurfaceError) -> (r: PresentErrorRecovery)
    ensures
        *error == SurfaceError::OutOfMemory ==> r == PresentErrorRecovery::Exit,
        *error == SurfaceError::Lost ==> r == PresentErrorRecovery::RecreateSurface,
        *error == SurfaceError::Outdated ==> r == PresentErrorRecovery::ReconfigureSurface,
        (*error == SurfaceError::Timeout || *error == SurfaceError::Other) ==> r
            == PresentErrorRecovery::RetryNextFrame,
{
    match error {
        SurfaceError::OutOfMemory => PresentErrorRecovery::Exit,
        SurfaceError::Lost => PresentErrorRecovery::RecreateSurface,
        SurfaceError::Outdated => PresentErrorRecovery::ReconfigureSurface,
        SurfaceError::Timeout | SurfaceError::Other => PresentErrorRecovery::RetryNextFrame,
    }
}

/// What became of one presentation attempt.
#[derive(Clone, Copy, Debug, PartialEq, Eq, Structural)]
pub enum IcedPresentationResult {
    /// The next present index would overflow; nothing was presented.
    SkippedOverflow,
    CompositorFailed(SurfaceError),
    Presented,
}

/// Finishes a presentation: a successful present commits the candidate frame
/// under the precomputed index; a failed one leaves the presented identity
/// and the backend present index as they were.
pub fn finish_iced_present(
    result: Result<(), SurfaceError>,
    render_candidate: FrameIdentity,
    precomputed_present_index: u64,
    backend_present_index: &mut u64,
    last_successfully_presented: &mut Option<FrameIdentity>,
) -> (r: IcedPresentationResult)
    ensures
        match result {
            Ok(()) => r == IcedPresentationResult::Presented
                && *final(backend_present_index) == precomputed_present_index
                && *final(last_successfully_presented) == Some(FrameIdentity { frame_index: precomputed_present_index, ..render_candidate }),
            Err(e) => r == IcedPresentationResult::CompositorFailed(e)
                && *final(backend_present_index) == *old(backend_present_index)
                && *final(last_successfully_presented) == *old(last_successfully_presented),
        },
{
    match result {
        Ok(()) => {
            crate::frame::commit_iced_successful_present(render_candidate, precomputed_present_index,
                backend_present_index, last_successfully_presented);
            IcedPresentationResult::Presented
        },
        Err(error) => IcedPresentationResult::CompositorFailed(error),
    }
}

/// What presented screenshot capture is pending when a frame is presented.
#[derive(Clone, Copy, Debug, PartialEq, Eq, Structural)]
pub enum PendingCaptureState {
    Absent,
    /// A capture waits for the next present to arm it.
    Armed,
    /// A capture was armed by an earlier present and waits for its readback.
    Waiting,
}

/// Which iced renderer draws the window: the wgpu renderer, which can read
/// back its acquired surface, or the tiny-skia fallback.
#[derive(Clone, Copy, Debug, PartialEq, Eq, Structural)]
pub enum RendererKind {
    Primary,
    Secondary,
}

/// What becomes of the pending capture after a present.
#[derive(Clone, Copy, Debug, PartialEq, Eq)]
pub enum CaptureAfterPresent {
    /// The pending capture, if any, stays as it was.
    Keep,
    /// The armed capture now waits for the readback of the committed frame.
    Wait,
    /// The armed capture is refused.
    Refuse { code: &'static str, reason: &'static str },
}

/// The outcome of presenting one frame: what became of the presentation and of the pending capture.
#[derive(Clone, Copy, Debug, PartialEq, Eq)]
pub struct PresentOutcomePlan {
    pub result: IcedPresentationResult,
    pub capture: CaptureAfterPresent,
}

pub open spec fn capture_refused(c: CaptureAfterPresent, code: Seq<char>, reason: Seq<char>) -> bool {
    c matches CaptureAfterPresent::Refuse { code: k, reason: m } && k@ == code && m@ == reason
}

/// Whether a present asks the compositor for a direct capture of the
/// acquired surface: only an armed capture on the wgpu renderer does.
pub fn iced_present_uses_direct_capture(pending: PendingCaptureState, renderer: RendererKind) -> (r: bool)
    ensures
        r == (pending == PendingCaptureState::Armed && renderer == RendererKind::Primary),
{
    match (pending, renderer) {
        (PendingCaptureState::Armed, RendererKind::Primary) => true,
        _ => false,
    }
}

/// Decides a present's outcome. When the next present index would overflow,
/// nothing is presented and an armed capture is refused. Otherwise the
/// compositor's result decides the presentation; an armed capture then waits
/// for its readback after a successful wgpu present, is refused when the
/// surface could not be acquired, and is refused on the tiny-skia fallback.
/// A capture that is absent or already waiting is kept as it was.
pub fn iced_present_outcome(
    preflight: Result<u64, IcedPresentIdentityOverflow>,
    pending: PendingCaptureState,
    renderer: RendererKind,
    present: Option<Result<(), SurfaceError>>,
) -> (r: PresentOutcomePlan)
    requires
        preflight is Ok ==> present is Some,
    ensures
        preflight is Err ==> r.result == IcedPresentationResult::SkippedOverflow && if pending == PendingCaptureState::Armed {
            capture_refused(r.capture, "screenshot-frame-index-overflow"@,
                "the iced backend presentation frame index overflowed before presentation"@)
        } else {
            r.capture == CaptureAfterPresent::Keep
        },
        preflight is Ok ==> {
            &&& r.result == match present->0 {
                Ok(()) => IcedPresentationResult::Presented,
                Err(e) => IcedPresentationResult::CompositorFailed(e),
            }
            &&& if pending != PendingCaptureState::Armed {
                r.capture == CaptureAfterPresent::Keep
            } else if renderer == RendererKind::Secondary {
                capture_refused(r.capture, "screenshot-renderer-unsupported"@,
                    "the active iced tiny-skia fallback has no acquired GPU surface texture"@)
            } else if present->0 is Ok {
                r.capture == CaptureAfterPresent::Wait
            } else {
                capture_refused(r.capture, "screenshot-surface-acquire-failed"@,
                    "the iced direct capture could not acquire the visible surface texture"@)
            }
        },
{
    if preflight.is_err() {
        let capture = match pending {
            PendingCaptureState::Armed => CaptureAfterPresent::Refuse {
                code: "screenshot-frame-index-overflow",
                reason: "the iced backend presentation frame index overflowed before presentation",
            },
            _ => CaptureAfterPresent::Keep,
        };
        return PresentOutcomePlan { result: IcedPresentationResult::SkippedOverflow, capture };
    }
    let presented = match present {
        Some(p) => p,
        None => Ok(()),
    };
    let result = match presented {
        Ok(()) => IcedPresentationResult::Presented,
        Err(e) => IcedPresentationResult::CompositorFailed(e),
    };
    let capture = match pending {
        PendingCaptureState::Armed => match renderer {
            RendererKind::Secondary => CaptureAfterPresent::Refuse {
                code: "screenshot-renderer-unsupported",
                reason: "the active iced tiny-skia fallback has no acquired GPU surface texture",
            },
            RendererKind::Primary => match result {
                IcedPresentationResult::Presented => CaptureAfterPresent::Wait,
                _ => CaptureAfterPresent::Refuse {
                    code: "screenshot-surface-acquire-failed",
                    reason: "the iced direct capture could not acquire the visible surface texture",
                },
            },
        },
        _ => CaptureAfterPresent::Keep,
    };
    PresentOutcomePlan { result, capture }
}

/// The window state that raw window events update before iced sees them:
/// whether an IME composition is in progress, whether a preedit is shown, and
/// how many mouse buttons are held.
#[derive(Clone, Copy, Debug, PartialEq, Eq, Structural)]
pub struct WindowInputState {
    pub ime_composing: bool,
    pub has_preedit: bool,
    pub pressed_mouse_buttons: u8,
}

/// The raw window events that change that state.
#[derive(Clone, Copy, Debug, PartialEq, Eq, Structural)]
pub enum WindowInputEvent {
    ImeEnabled,
    /// A preedit update: whether its text is empty and whether it carries a selection.
    ImePreedit { empty: bool, has_selection: bool },
    ImeCommit,
    ImeDisabled,
    MousePressed,
    MouseReleased,
}

/// Applies one raw window event. IME enabling starts a composition; a
/// preedit keeps it going while it has text or a selection, and otherwise
/// ends it and drops the preedit; a commit or disabling ends it and drops the
/// preedit. A mouse press or release counts the held buttons, saturating.
pub fn window_input_step(state: &mut WindowInputState, event: WindowInputEvent)
    ensures
        match event {
            WindowInputEvent::ImeEnabled => *final(state) == WindowInputState { ime_composing: true, ..*old(state) },
            WindowInputEvent::ImePreedit { empty, has_selection } => if !empty || has_selection {
                *final(state) == WindowInputState { ime_composing: true, ..*old(state) }
            } else {
                *final(state) == WindowInputState { ime_composing: false, has_preedit: false, ..*old(state) }
            },
            WindowInputEvent::ImeCommit | WindowInputEvent::ImeDisabled =>
                *final(state) == WindowInputState { ime_composing: false, has_preedit: false, ..*old(state) },
            WindowInputEvent::MousePressed => *final(state) == WindowInputState {
                pressed_mouse_buttons: if old(state).pressed_mouse_buttons == u8::MAX { u8::MAX } else { (old(state).pressed_mouse_buttons + 1) as u8 },
                ..*old(state)
            },
            WindowInputEvent::MouseReleased => *final(state) == WindowInputState {
                pressed_mouse_buttons: if old(state).pressed_mouse_buttons == 0 { 0 } else { (old(state).pressed_mouse_buttons - 1) as u8 },
                ..*old(state)
            },
        },
{
    match event {
        WindowInputEvent::ImeEnabled => {
            state.ime_composing = true;
        },
        WindowInputEvent::ImePreedit { empty, has_selection } => {
            state.ime_composing = !empty || has_selection;
            if !state.ime_composing {
                state.has_preedit = false;
            }
        },
        WindowInputEvent::ImeCommit | WindowInputEvent::ImeDisabled => {
            state.ime_composing = false;
            state.has_preedit = false;
        },
        WindowInputEvent::MousePressed => {
            if state.pressed_mouse_buttons < u8::MAX {
                state.pressed_mouse_buttons = state.pressed_mouse_buttons + 1;
            }
        },
        WindowInputEvent::MouseReleased => {
            if state.pressed_mouse_buttons > 0 {
                state.pressed_mouse_buttons = state.pressed_mouse_buttons - 1;
            }
        },
    }
}

/// A redraw request is deferred while a resize is pending on a window that
/// has already presented a frame, so the first frame is never held back.
pub fn should_defer_redraw_for_resize(resize_pending: bool, presented_frames: u64) -> (r: bool)
    ensures
        r == (resize_pending && presented_frames > 0),
{
    resize_pending && presented_frames > 0
}

/// What follows queuing a converted window event for iced.
#[derive(Clone, Copy, Debug, PartialEq, Eq, Structural)]
pub enum QueuedEventFollowUp {
    /// Nothing now.
    Nothing,
    /// Request a redraw; the event is dispatched with it.
    RequestRedraw,
    /// Keep the event queued so a burst of wheel ticks coalesces; the end of
    /// the event batch dispatches it.
    AwaitBatchEnd,
    /// Dispatch the queue now, then request a redraw.
    DispatchAndRedraw,
}

/// After a window event is queued: with no resize pending, a cursor move
/// requests a redraw, a wheel tick waits for the end of the batch, and any
/// other event is dispatched at once with a redraw; with a resize pending,
/// only a window that has not presented yet requests a redraw.
pub fn queued_event_follow_up(resize_pending: bool, cursor_moved: bool, wheel: bool, presented_frames: u64) -> (r: QueuedEventFollowUp)
    ensures
        !resize_pending ==> r == if cursor_moved {
            QueuedEventFollowUp::RequestRedraw
        } else if wheel {
            QueuedEventFollowUp::AwaitBatchEnd
        } else {
            QueuedEventFollowUp::DispatchAndRedraw
        },
        resize_pending ==> r == if presented_frames == 0 {
            QueuedEventFollowUp::RequestRedraw
        } else {
            QueuedEventFollowUp::Nothing
        },
{
    if !resize_pending {
        if cursor_moved {
            QueuedEventFollowUp::RequestRedraw
        } else if wheel {
            QueuedEventFollowUp::AwaitBatchEnd
        } else {
            QueuedEventFollowUp::DispatchAndRedraw
        }
    } else if presented_frames == 0 {
        QueuedEventFollowUp::RequestRedraw
    } else {
        QueuedEventFollowUp::Nothing
    }
}

/// The pressed mouse button count after a physical operation: a pointer press
/// adds one, a pointer release removes one (both saturating), anything else
/// leaves it alone.
pub fn seam_pressed_mouse_buttons_after(pressed: u8, operation: &DebugPhysicalControl) -> (r: u8)
    ensures
        (*operation matches DebugPhysicalControl::Pointer { kind, .. } && kind
            == PointerEventKind::Press) ==> r == (if pressed == u8::MAX { u8::MAX as int } else { pressed + 1 }),
        (*operation matches DebugPhysicalControl::Pointer { kind, .. } && kind
            == PointerEventKind::Release) ==> r == (if pressed == 0 { 0 } else { pressed - 1 }),
        !(*operation matches DebugPhysicalControl::Pointer { kind, .. } && (kind
            == PointerEventKind::Press || kind == PointerEventKind::Release)) ==> r == pressed,
{
    match operation {
        DebugPhysicalControl::Pointer { kind: PointerEventKind::Press, .. } => {
            if pressed == u8::MAX { u8::MAX } else { pressed + 1 }
        },
        DebugPhysicalControl::Pointer { kind: PointerEventKind::Release, .. } => {
            if pressed == 0 { 0 } else { pressed - 1 }
        },
        _ => pressed,
    }
}

/// The backend event label a composition phase is reported with.
pub fn composition_backend_event_label(phase: TextCompositionPhase) -> (r: &'static str)
    ensures
        phase == TextCompositionPhase::Start ==> r@ == "winit::Ime::Enabled"@,
        phase == TextCompositionPhase::Update ==> r@ == "winit::Ime::Preedit"@,
        phase == TextCompositionPhase::Commit ==> r@ == "winit::Ime::Commit"@,
        phase == TextCompositionPhase::End ==> r@ == "winit::Ime::Disabled"@,
        phase == TextCompositionPhase::Cancel ==> r@ == "winit::Ime::Cancelled"@,
{
    match phase {
        TextCompositionPhase::Start => "winit::Ime::Enabled",
        TextCompositionPhase::Update => "winit::Ime::Preedit",
        TextCompositionPhase::Commit => "winit::Ime::Commit",
        TextCompositionPhase::End => "winit::Ime::Disabled",
        TextCompositionPhase::Cancel => "winit::Ime::Cancelled",
    }
}

/// The UTF-8 byte offset of the `scalar_index`-th character, or the byte
/// length when the index is past the end.
pub fn unicode_scalar_to_byte_index(text: &str, scalar_index: usize) -> (r: usize)
    ensures
        scalar_index < text@.len() ==> r == vstd::utf8::encode_utf8(text@.subrange(0, scalar_index as int)).len() as usize,
        scalar_index >= text@.len() ==> r == text.spec_bytes().len() as usize,
{
    let n = text.unicode_len();
    if scalar_index < n {
        text.substring_char(0, scalar_index).len()
    } else {
        text.len()
    }
}

/// The composition phase at one position of a composition's native sequence:
/// start, then one update per preedit update, then commit, then end.
pub open spec fn composition_event_spec(
    updates: Seq<DebugTextCompositionUpdate>,
    commit: String,
    sequence_index: nat,
    target: String,
    target_slot: Option<WidgetSlotAddress>,
    e: TextCompositionEvent,
) -> bool {
    &&& e.target == target
    &&& same_slot(e.target_slot, target_slot)
    &&& if sequence_index == 0 {
        e.phase == TextCompositionPhase::Start && e.preedit_text@ == Seq::<char>::empty()
            && e.cursor_range is None
    } else if sequence_index <= updates.len() {
        e.phase == TextCompositionPhase::Update && e.preedit_text@ == updates[sequence_index
            - 1].preedit_text@ && e.cursor_range == updates[sequence_index - 1].cursor_range
    } else if sequence_index == updates.len() + 1 {
        e.phase == TextCompositionPhase::Commit && e.preedit_text@ == commit@ && e.cursor_range is None
    } else {
        e.phase == TextCompositionPhase::End && e.preedit_text@ == Seq::<char>::empty()
            && e.cursor_range is None
    }
}

/// The preedit updates and commit text of a text composition command.
pub open spec fn composition_parts(kind: DebugCommandKind) -> Option<(Seq<DebugTextCompositionUpdate>, String)> {
    match kind {
        DebugCommandKind::PhysicalControl { operation, .. } => match operation {
            DebugPhysicalControl::TextComposition { updates, commit, .. } => Some((updates@, commit)),
            _ => None,
        },
        _ => None,
    }
}

/// The characters of each path segment.
pub open spec fn path_views(path: Seq<String>) -> Seq<Seq<char>> {
    path.map_values(|s: String| s@)
}

/// Two optional widget slots name the same widget, path and ordinal.
pub open spec fn same_slot(a: Option<WidgetSlotAddress>, b: Option<WidgetSlotAddress>) -> bool {
    match (a, b) {
        (None, None) => true,
        (Some(x), Some(y)) => x.widget@ == y.widget@ && path_views(x.path@) == path_views(y.path@)
            && x.ordinal == y.ordinal,
        _ => false,
    }
}

pub fn clone_slot(slot: &WidgetSlotAddress) -> (r: WidgetSlotAddress)
    ensures
        same_slot(Some(r), Some(*slot)),
{
    let path = slot.path.clone();
    assert(path_views(path@) =~= path_views(slot.path@));
    WidgetSlotAddress { widget: slot.widget.clone(), path, ordinal: slot.ordinal }
}

/// The composition event a text composition command produces at one
/// sequence position; `None` for any other command.
pub fn composition_event_for_command(
    command: &DebugCommand,
    sequence_index: usize,
    target: &String,
    target_slot: Option<&WidgetSlotAddress>,
) -> (r: Option<TextCompositionEvent>)
    ensures
        match composition_parts(command.kind) {
            Some((updates, commit)) => match r {
                Some(e) => composition_event_spec(
                    updates,
                    commit,
                    sequence_index as nat,
                    *target,
                    match target_slot {
                        Some(s) => Some(*s),
                        None => None,
                    },
                    e,
                ),
                None => false,
            },
            None => r is None,
        },
{
    let (updates, commit) = match &command.kind {
        DebugCommandKind::PhysicalControl {
            operation: DebugPhysicalControl::TextComposition { updates, commit, .. },
            ..
        } => (updates, commit),
        _ => {
            return None;
        },
    };
    let slot = match target_slot {
        Some(s) => Some(clone_slot(s)),
        None => None,
    };
    let (phase, preedit_text, cursor_range) = if sequence_index == 0 {
        (TextCompositionPhase::Start, String::new(), None)
    } else if sequence_index <= updates.len() {
        let update = &updates[sequence_index - 1];
        (TextCompositionPhase::Update, update.preedit_text.clone(), update.cursor_range)
    } else if sequence_index == updates.len() + 1 {
        (TextCompositionPhase::Commit, commit.clone(), None)
    } else {
        (TextCompositionPhase::End, String::new(), None)
    };
    Some(
        TextCompositionEvent {
            target: target.clone(),
            target_slot: slot,
            phase,
            preedit_text,
            cursor_range,
        },
    )
}

} // verus!

verus! {

/// Where one queued iced event came from.
#[derive(Clone, Copy, Debug, PartialEq, Eq, Structural)]
pub enum IcedIngressOrigin {
    NativeOs,
    Debug { token: u64, final_in_plan: bool },
    DebugComposition { token: u64, sequence_index: usize, phase: TextCompositionPhase },
}

/// The debug token of an ingress origin; native input has token 0.
pub fn ingress_token(origin: &IcedIngressOrigin) -> (r: u64)
    ensures
        r == match *origin {
            IcedIngressOrigin::NativeOs => 0,
            IcedIngressOrigin::Debug { token, .. } => token,
            IcedIngressOrigin::DebugComposition { token, .. } => token,
        },
{
    match origin {
        IcedIngressOrigin::NativeOs => 0,
        IcedIngressOrigin::Debug { token, .. } => *token,
        IcedIngressOrigin::DebugComposition { token, .. } => *token,
    }
}

pub open spec fn origins_can_coalesce(previous: IcedIngressOrigin, next: IcedIngressOrigin) -> bool {
    match (previous, next) {
        (IcedIngressOrigin::NativeOs, IcedIngressOrigin::NativeOs) => true,
        (IcedIngressOrigin::Debug { token: a, .. }, IcedIngressOrigin::Debug { token: b, .. }) => a == b,
        _ => false,
    }
}

/// Native events coalesce with native events, debug events only within one
/// debug token, and composition events never.
pub fn iced_ingress_origins_can_coalesce(previous: &IcedIngressOrigin, next: &IcedIngressOrigin) -> (r: bool)
    ensures
        r == origins_can_coalesce(*previous, *next),
{
    match (previous, next) {
        (IcedIngressOrigin::NativeOs, IcedIngressOrigin::NativeOs) => true,
        (IcedIngressOrigin::Debug { token: a, .. }, IcedIngressOrigin::Debug { token: b, .. }) => *a == *b,
        _ => false,
    }
}

pub open spec fn merged_completion(previous: IcedIngressOrigin, next: IcedIngressOrigin) -> IcedIngressOrigin {
    match (previous, next) {
        (IcedIngressOrigin::Debug { token, final_in_plan: a }, IcedIngressOrigin::Debug { final_in_plan: b, .. }) =>
            IcedIngressOrigin::Debug { token, final_in_plan: a || b },
        _ => previous,
    }
}

/// A coalesced debug event is final in its plan when either part was.
pub fn merge_iced_ingress_completion(previous: &mut IcedIngressOrigin, next: &IcedIngressOrigin)
    ensures
        *final(previous) == merged_completion(*old(previous), *next),
{
    if let IcedIngressOrigin::Debug { token, final_in_plan } = *previous {
        if let IcedIngressOrigin::Debug { final_in_plan: next_final, .. } = *next {
            *previous = IcedIngressOrigin::Debug { token, final_in_plan: final_in_plan || next_final };
        }
    }
}

/// The coalescing class of an iced event.
#[derive(Clone, Copy, Debug, PartialEq, Eq, Structural)]
pub enum IcedEventClass {
    CursorMoved,
    WheelLines,
    WheelPixels,
    Other,
}

/// One pending iced event with its origin and optional commit mutation gate.
pub struct QueuedIcedIngress<E, G> {
    pub event: E,
    pub class: IcedEventClass,
    pub origin: IcedIngressOrigin,
    pub commit_mutation_gate: Option<G>,
}

/// The events one flush dispatches in one interface build.
pub struct QueuedIcedDispatchSlice<E, G> {
    pub events: Vec<E>,
    pub origin: IcedIngressOrigin,
    pub commit_mutation_gate: Option<G>,
}

pub open spec fn is_wheel(c: IcedEventClass) -> bool {
    c == IcedEventClass::WheelLines || c == IcedEventClass::WheelPixels
}

/// The queued event can join the last pending one: same coalescable origin
/// and neither carries a commit mutation gate.
pub open spec fn same_coalescing_origin<E, G>(events: Seq<QueuedIcedIngress<E, G>>, queued: QueuedIcedIngress<E, G>) -> bool {
    events.len() > 0 && origins_can_coalesce(events.last().origin, queued.origin)
        && queued.commit_mutation_gate is None && events.last().commit_mutation_gate is None
}

/// Adds an event to the pending queue: a cursor move replaces an adjacent
/// cursor move, a wheel event is summed into an adjacent wheel event of the
/// same delta variant, both only within one coalescable origin and without
/// commit gates; otherwise the event is appended. Returns whether it coalesced.
pub fn push_coalesced_pending_iced_event<E, G, F: Fn(&E, &E) -> E>(
    events: &mut Vec<QueuedIcedIngress<E, G>>,
    queued: QueuedIcedIngress<E, G>,
    sum_wheel: F,
) -> (r: bool)
    requires
        forall|a: &E, b: &E| call_requires(sum_wheel, (a, b)),
    ensures
        ({
            let same = same_coalescing_origin(old(events)@, queued);
            let n = old(events)@.len();
            if same && queued.class == IcedEventClass::CursorMoved && old(events)@.last().class == IcedEventClass::CursorMoved {
                &&& r
                &&& final(events)@.len() == n
                &&& final(events)@.take(n - 1) == old(events)@.take(n - 1)
                &&& final(events)@.last().event == queued.event
                &&& final(events)@.last().class == queued.class
                &&& final(events)@.last().origin == merged_completion(old(events)@.last().origin, queued.origin)
                &&& final(events)@.last().commit_mutation_gate is None
            } else if same && is_wheel(queued.class) && queued.class == old(events)@.last().class {
                &&& r
                &&& final(events)@.len() == n
                &&& final(events)@.take(n - 1) == old(events)@.take(n - 1)
                &&& call_ensures(sum_wheel, (&old(events)@.last().event, &queued.event), final(events)@.last().event)
                &&& final(events)@.last().class == queued.class
                &&& final(events)@.last().origin == merged_completion(old(events)@.last().origin, queued.origin)
                &&& final(events)@.last().commit_mutation_gate is None
            } else {
                &&& !r
                &&& final(events)@ == old(events)@.push(queued)
            }
        }),
{
    let n = events.len();
    let same = n > 0 && iced_ingress_origins_can_coalesce(&events[n - 1].origin, &queued.origin)
        && queued.commit_mutation_gate.is_none() && events[n - 1].commit_mutation_gate.is_none();
    if same && queued.class == IcedEventClass::CursorMoved && events[n - 1].class == IcedEventClass::CursorMoved {
        let mut last = events.pop().unwrap();
        merge_iced_ingress_completion(&mut last.origin, &queued.origin);
        last.event = queued.event;
        events.push(last);
        assert(events@.take(n - 1) =~= old(events)@.take(n - 1));
        true
    } else if same && (queued.class == IcedEventClass::WheelLines || queued.class == IcedEventClass::WheelPixels)
        && queued.class == events[n - 1].class {
        let mut last = events.pop().unwrap();
        let summed = sum_wheel(&last.event, &queued.event);
        merge_iced_ingress_completion(&mut last.origin, &queued.origin);
        last.event = summed;
        events.push(last);
        assert(events@.take(n - 1) =~= old(events)@.take(n - 1));
        true
    } else {
        events.push(queued);
        false
    }
}

/// Whether every pending event is a cursor move (and there is at least one).
pub fn pending_iced_events_are_cursor_only<E, G>(events: &Vec<QueuedIcedIngress<E, G>>) -> (r: bool)
    ensures
        r == (events@.len() > 0 && forall|i: int| 0 <= i < events@.len() ==> (#[trigger] events@[i]).class == IcedEventClass::CursorMoved),
{
    if events.len() == 0 {
        return false;
    }
    let mut i: usize = 0;
    while i < events.len()
        invariant
            i <= events@.len(),
            forall|j: int| 0 <= j < i ==> (#[trigger] events@[j]).class == IcedEventClass::CursorMoved,
        decreases events@.len() - i,
    {
        if events[i].class != IcedEventClass::CursorMoved {
            return false;
        }
        i += 1;
    }
    true
}

/// Cursor-only queues wait for the next redraw, whatever buttons are pressed.
pub fn should_defer_pending_cursor_only<E, G>(events: &Vec<QueuedIcedIngress<E, G>>, _pressed_mouse_buttons: u8) -> (r: bool)
    ensures
        r == (events@.len() > 0 && forall|i: int| 0 <= i < events@.len() ==> (#[trigger] events@[i]).class == IcedEventClass::CursorMoved),
{
    pending_iced_events_are_cursor_only(events)
}

/// Splits a drained queue into one dispatch slice per event, in queue order.
pub fn pending_dispatch_slices<E, G>(events: Vec<QueuedIcedIngress<E, G>>) -> (r: Vec<QueuedIcedDispatchSlice<E, G>>)
    ensures
        r@.len() == events@.len(),
        forall|i: int| #![trigger r@[i]] 0 <= i < r@.len() ==> r@[i].events@ == seq![events@[i].event]
            && r@[i].origin == events@[i].origin && r@[i].commit_mutation_gate == events@[i].commit_mutation_gate,
{
    let ghost original = events@;
    let mut rest = events;
    let mut reversed: Vec<QueuedIcedDispatchSlice<E, G>> = Vec::new();
    while rest.len() > 0
        invariant
            rest@.len() + reversed@.len() == original.len(),
            rest@ == original.take(rest@.len() as int),
            forall|i: int| #![trigger reversed@[i]] 0 <= i < reversed@.len() ==> {
                let j = original.len() - 1 - i;
                reversed@[i].events@ == seq![original[j].event] && reversed@[i].origin == original[j].origin
                    && reversed@[i].commit_mutation_gate == original[j].commit_mutation_gate
            },
        decreases rest@.len(),
    {
        let queued = rest.pop().unwrap();
        let mut one: Vec<E> = Vec::new();
        one.push(queued.event);
        reversed.push(QueuedIcedDispatchSlice { events: one, origin: queued.origin, commit_mutation_gate: queued.commit_mutation_gate });
        assert(rest@ =~= original.take(rest@.len() as int));
    }
    let mut out: Vec<QueuedIcedDispatchSlice<E, G>> = Vec::new();
    while reversed.len() > 0
        invariant
            out@.len() + reversed@.len() == original.len(),
            forall|i: int| #![trigger reversed@[i]] 0 <= i < reversed@.len() ==> {
                let j = original.len() - 1 - i;
                reversed@[i].events@ == seq![original[j].event] && reversed@[i].origin == original[j].origin
                    && reversed@[i].commit_mutation_gate == original[j].commit_mutation_gate
            },
            forall|i: int| #![trigger out@[i]] 0 <= i < out@.len() ==> out@[i].events@ == seq![original[i].event]
                && out@[i].origin == original[i].origin && out@[i].commit_mutation_gate == original[i].commit_mutation_gate,
        decreases reversed@.len(),
    {
        let ghost k = reversed@.len() - 1;
        let slice = reversed.pop().unwrap();
        out.push(slice);
    }
    out
}

} // verus!
