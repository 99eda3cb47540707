use slipway::frame::IcedPresentIdentityOverflow;
use slipway::iced::{
    iced_present_outcome, iced_present_uses_direct_capture, CaptureAfterPresent, IcedPresentationResult,
    PendingCaptureState, RendererKind,
};
use slipway::iced::{queued_event_follow_up, should_defer_redraw_for_resize, QueuedEventFollowUp};
use slipway::iced::{window_input_step, WindowInputEvent, WindowInputState};
use slipway::capture::{
    iced_capture_deadline_refusal, iced_capture_teardown_refusal, reduce_iced_capture_event,
    reduce_iced_capture_signal, direct_capture_refusal, DirectCaptureAlphaMode, DirectCaptureEvent,
    DirectCaptureFormat, DirectCaptureRefusal, IcedCaptureEvidence, IcedCaptureReduction,
    IcedCaptureSignal,
};
use slipway::frame::{Coord, FrameIdentity, Point, Rect, Size};
use slipway::iced::{
    iced_runtime_update_requires_redraw, pending_dispatch_slices,
    pending_iced_events_are_cursor_only, present_error_recovery, push_coalesced_pending_iced_event,
    redraw_request_action, should_defer_pending_cursor_only, should_re_tick_redraw_update,
    IcedEventClass, IcedIngressOrigin, PresentErrorRecovery, QueuedIcedIngress, RedrawRequest,
    RedrawRequestAction, SlipwayIcedRuntimeAppUpdate, SlipwayIcedRuntimeUpdate, SurfaceError,
};

#[derive(Clone, Copy, Debug, PartialEq)]
enum Delta {
    Lines { x: f32, y: f32 },
    Pixels { x: f32, y: f32 },
}

#[derive(Clone, Copy, Debug, PartialEq)]
enum TestEvent {
    CursorMoved { x: f32, y: f32 },
    WheelScrolled { delta: Delta },
    ButtonPressedLeft,
}

fn class_of(event: &TestEvent) -> IcedEventClass {
    match event {
        TestEvent::CursorMoved { .. } => IcedEventClass::CursorMoved,
        TestEvent::WheelScrolled { delta: Delta::Lines { .. } } => IcedEventClass::WheelLines,
        TestEvent::WheelScrolled { delta: Delta::Pixels { .. } } => IcedEventClass::WheelPixels,
        TestEvent::ButtonPressedLeft => IcedEventClass::Other,
    }
}

fn sum_wheel(previous: &TestEvent, next: &TestEvent) -> TestEvent {
    match (previous, next) {
        (
            TestEvent::WheelScrolled { delta: Delta::Lines { x: px, y: py } },
            TestEvent::WheelScrolled { delta: Delta::Lines { x, y } },
        ) => TestEvent::WheelScrolled { delta: Delta::Lines { x: px + x, y: py + y } },
        (
            TestEvent::WheelScrolled { delta: Delta::Pixels { x: px, y: py } },
            TestEvent::WheelScrolled { delta: Delta::Pixels { x, y } },
        ) => TestEvent::WheelScrolled { delta: Delta::Pixels { x: px + x, y: py + y } },
        _ => *next,
    }
}

fn native_ingress(event: TestEvent) -> QueuedIcedIngress<TestEvent, ()> {
    QueuedIcedIngress {
        class: class_of(&event),
        event,
        origin: IcedIngressOrigin::NativeOs,
        commit_mutation_gate: None,
    }
}

fn debug_ingress(token: u64, final_in_plan: bool, event: TestEvent) -> QueuedIcedIngress<TestEvent, ()> {
    QueuedIcedIngress {
        class: class_of(&event),
        event,
        origin: IcedIngressOrigin::Debug { token, final_in_plan },
        commit_mutation_gate: None,
    }
}

fn cursor_moved_event(x: f32, y: f32) -> QueuedIcedIngress<TestEvent, ()> {
    native_ingress(TestEvent::CursorMoved { x, y })
}

fn wheel_lines_event(x: f32, y: f32) -> QueuedIcedIngress<TestEvent, ()> {
    native_ingress(TestEvent::WheelScrolled { delta: Delta::Lines { x, y } })
}

fn wheel_pixels_event(x: f32, y: f32) -> QueuedIcedIngress<TestEvent, ()> {
    native_ingress(TestEvent::WheelScrolled { delta: Delta::Pixels { x, y } })
}

fn push(events: &mut Vec<QueuedIcedIngress<TestEvent, ()>>, queued: QueuedIcedIngress<TestEvent, ()>) -> bool {
    push_coalesced_pending_iced_event(events, queued, sum_wheel)
}

#[test]
fn redraw_update_re_ticks_only_for_message_free_layout_changes_with_reference_bound() {
    assert!(should_re_tick_redraw_update(true, true, 1));
    assert!(should_re_tick_redraw_update(true, true, 2));
    assert!(
        !should_re_tick_redraw_update(true, true, 3),
        "iced_winit caps consecutive redraw updates at three per frame"
    );
    assert!(
        !should_re_tick_redraw_update(false, true, 1),
        "messages break the re-tick loop and take the message-application flow"
    );
    assert!(!should_re_tick_redraw_update(true, false, 1));
}

#[test]
fn handled_input_without_state_or_message_change_does_not_request_redraw() {
    let update = SlipwayIcedRuntimeAppUpdate {
        runtime_update: Some(SlipwayIcedRuntimeUpdate::Input {
            handled: true,
            applied_messages: 0,
            diagnostics: Vec::new(),
        }),
        debug_replies_drained: 0,
        debug_error: None,
    };

    assert!(!iced_runtime_update_requires_redraw(&update, false));
    assert!(iced_runtime_update_requires_redraw(&update, true));
}

#[test]
fn input_redraw_gate_preserves_messages_diagnostics_and_debug_errors() {
    let with_message = SlipwayIcedRuntimeAppUpdate {
        runtime_update: Some(SlipwayIcedRuntimeUpdate::Input {
            handled: true,
            applied_messages: 1,
            diagnostics: Vec::new(),
        }),
        debug_replies_drained: 0,
        debug_error: None,
    };
    assert!(iced_runtime_update_requires_redraw(&with_message, false));

    let with_error = SlipwayIcedRuntimeAppUpdate {
        runtime_update: Some(SlipwayIcedRuntimeUpdate::Noop),
        debug_replies_drained: 0,
        debug_error: Some("debug failed".to_string()),
    };
    assert!(iced_runtime_update_requires_redraw(&with_error, false));
}

#[test]
fn drained_debug_replies_request_redraw_only_when_some_drained() {
    let mut update = SlipwayIcedRuntimeAppUpdate {
        runtime_update: Some(SlipwayIcedRuntimeUpdate::DrainDebug),
        debug_replies_drained: 0,
        debug_error: None,
    };
    assert!(!iced_runtime_update_requires_redraw(&update, true));
    update.debug_replies_drained = 2;
    assert!(iced_runtime_update_requires_redraw(&update, false));
    update.runtime_update = None;
    assert!(!iced_runtime_update_requires_redraw(&update, true));
}

#[test]
fn redraw_request_honoring_matches_iced_winit_schedule_semantics() {
    let now = 1_000_000u64;
    let earlier = now + 4_000_000;
    let later = now + 16_000_000;

    assert_eq!(redraw_request_action(RedrawRequest::NextFrame, None), RedrawRequestAction::RequestNow);
    assert_eq!(redraw_request_action(RedrawRequest::NextFrame, Some(later)), RedrawRequestAction::RequestNow);
    assert_eq!(redraw_request_action(RedrawRequest::At(earlier), None), RedrawRequestAction::ScheduleAt(earlier));
    assert_eq!(redraw_request_action(RedrawRequest::At(earlier), Some(later)), RedrawRequestAction::ScheduleAt(earlier));
    assert_eq!(
        redraw_request_action(RedrawRequest::At(later), Some(earlier)),
        RedrawRequestAction::Keep,
        "a later At request must not push back an earlier scheduled wakeup"
    );
    assert_eq!(
        redraw_request_action(RedrawRequest::Wait, None),
        RedrawRequestAction::Keep,
        "Wait must request nothing so redraw ticks cannot self-sustain a repaint storm"
    );
    assert_eq!(redraw_request_action(RedrawRequest::Wait, Some(earlier)), RedrawRequestAction::Keep);
}

#[test]
fn present_error_recovery_matches_the_iced_winit_reference_actions() {
    assert_eq!(present_error_recovery(&SurfaceError::OutOfMemory), PresentErrorRecovery::Exit);
    assert_eq!(present_error_recovery(&SurfaceError::Lost), PresentErrorRecovery::RecreateSurface);
    assert_eq!(present_error_recovery(&SurfaceError::Outdated), PresentErrorRecovery::ReconfigureSurface);
    assert_eq!(present_error_recovery(&SurfaceError::Timeout), PresentErrorRecovery::RetryNextFrame);
    assert_eq!(present_error_recovery(&SurfaceError::Other), PresentErrorRecovery::RetryNextFrame);
}

#[test]
fn pending_iced_events_coalesce_adjacent_cursor_moves() {
    let mut events = Vec::new();
    assert!(!push(&mut events, cursor_moved_event(10.0, 20.0)));
    assert!(push(&mut events, cursor_moved_event(30.0, 40.0)));
    assert_eq!(events.len(), 1);
    assert_eq!(events[0].event, TestEvent::CursorMoved { x: 30.0, y: 40.0 });
}

#[test]
fn pending_iced_events_preserve_button_boundaries_between_cursor_moves() {
    let mut events = Vec::new();
    push(&mut events, cursor_moved_event(10.0, 20.0));
    push(&mut events, native_ingress(TestEvent::ButtonPressedLeft));
    assert!(!push(&mut events, cursor_moved_event(30.0, 40.0)));
    assert_eq!(events.len(), 3);
    assert_eq!(events[0].event, TestEvent::CursorMoved { x: 10.0, y: 20.0 });
    assert_eq!(events[1].event, TestEvent::ButtonPressedLeft);
    assert_eq!(events[2].event, TestEvent::CursorMoved { x: 30.0, y: 40.0 });
}

#[test]
fn pending_iced_events_preserve_wheel_boundary_after_cursor_move() {
    let mut events = Vec::new();
    push(&mut events, cursor_moved_event(10.0, 20.0));
    push(&mut events, wheel_lines_event(0.0, -1.0));
    assert_eq!(events.len(), 2);
    assert_eq!(events[0].event, TestEvent::CursorMoved { x: 10.0, y: 20.0 });
    assert!(matches!(events[1].event, TestEvent::WheelScrolled { .. }));
}

#[test]
fn pending_iced_events_coalesce_adjacent_same_variant_wheel_events_by_summation() {
    let mut events = Vec::new();
    assert!(!push(&mut events, wheel_lines_event(1.0, -1.0)));
    assert!(push(&mut events, wheel_lines_event(0.5, -2.0)));
    assert_eq!(events.len(), 1);
    assert_eq!(events[0].event, TestEvent::WheelScrolled { delta: Delta::Lines { x: 1.5, y: -3.0 } });

    let mut events = Vec::new();
    assert!(!push(&mut events, wheel_pixels_event(2.0, -24.0)));
    assert!(push(&mut events, wheel_pixels_event(-1.0, -16.0)));
    assert_eq!(events.len(), 1);
    assert_eq!(events[0].event, TestEvent::WheelScrolled { delta: Delta::Pixels { x: 1.0, y: -40.0 } });
}

#[test]
fn pending_iced_events_never_merge_lines_and_pixels_wheel_deltas() {
    let mut events = Vec::new();
    assert!(!push(&mut events, wheel_lines_event(0.0, -1.0)));
    assert!(!push(&mut events, wheel_pixels_event(0.0, -24.0)));
    assert!(!push(&mut events, wheel_lines_event(0.0, -2.0)));
    assert_eq!(events.len(), 3);
    assert_eq!(events[0].event, TestEvent::WheelScrolled { delta: Delta::Lines { x: 0.0, y: -1.0 } });
    assert_eq!(events[1].event, TestEvent::WheelScrolled { delta: Delta::Pixels { x: 0.0, y: -24.0 } });
    assert_eq!(events[2].event, TestEvent::WheelScrolled { delta: Delta::Lines { x: 0.0, y: -2.0 } });
}

#[test]
fn pending_iced_events_never_merge_wheel_events_across_cursor_move_boundary() {
    let mut events = Vec::new();
    push(&mut events, wheel_lines_event(0.0, -1.0));
    push(&mut events, cursor_moved_event(10.0, 20.0));
    assert!(!push(&mut events, wheel_lines_event(0.0, -2.0)));
    assert_eq!(events.len(), 3);
    assert_eq!(events[0].event, TestEvent::WheelScrolled { delta: Delta::Lines { x: 0.0, y: -1.0 } });
    assert_eq!(events[1].event, TestEvent::CursorMoved { x: 10.0, y: 20.0 });
    assert_eq!(events[2].event, TestEvent::WheelScrolled { delta: Delta::Lines { x: 0.0, y: -2.0 } });
}

#[test]
fn pending_wheel_events_flush_at_the_current_iteration_boundary_not_the_next_redraw() {
    let mut events = Vec::new();
    push(&mut events, wheel_lines_event(0.0, -1.0));
    assert!(!should_defer_pending_cursor_only(&events, 0));

    let mut events = Vec::new();
    push(&mut events, cursor_moved_event(10.0, 20.0));
    assert!(should_defer_pending_cursor_only(&events, 0));
    push(&mut events, wheel_lines_event(0.0, -1.0));
    assert!(!should_defer_pending_cursor_only(&events, 0));
}

#[test]
fn pending_iced_events_cursor_only_requires_deferred_frame_flush() {
    let mut events = Vec::new();
    assert!(!pending_iced_events_are_cursor_only(&events));
    push(&mut events, cursor_moved_event(10.0, 20.0));
    assert!(pending_iced_events_are_cursor_only(&events));
    push(&mut events, native_ingress(TestEvent::ButtonPressedLeft));
    assert!(!pending_iced_events_are_cursor_only(&events));
}

#[test]
fn pending_cursor_moves_defer_to_next_redraw_even_while_mouse_button_is_pressed() {
    let mut events = Vec::new();
    push(&mut events, cursor_moved_event(10.0, 20.0));
    assert!(should_defer_pending_cursor_only(&events, 0));
    assert!(should_defer_pending_cursor_only(&events, 1));
}

#[test]
fn pending_dispatch_slices_flush_a_coalesced_wheel_burst_as_one_single_build_slice() {
    let mut pending = Vec::new();
    push(&mut pending, wheel_lines_event(0.0, -1.0));
    push(&mut pending, wheel_lines_event(0.0, -2.0));
    let slices = pending_dispatch_slices(pending);
    assert_eq!(slices.len(), 1);
    assert_eq!(slices[0].events, vec![TestEvent::WheelScrolled { delta: Delta::Lines { x: 0.0, y: -3.0 } }]);
}

#[test]
fn pending_dispatch_slices_never_share_a_build_between_a_wheel_and_a_later_press() {
    let mut pending = Vec::new();
    push(&mut pending, wheel_lines_event(0.0, -1.0));
    push(&mut pending, native_ingress(TestEvent::ButtonPressedLeft));
    let slices = pending_dispatch_slices(pending);
    assert_eq!(slices.len(), 2);
    assert!(matches!(slices[0].events.as_slice(), [TestEvent::WheelScrolled { .. }]));
    assert_eq!(slices[1].events, vec![TestEvent::ButtonPressedLeft]);
}

#[test]
fn pending_dispatch_slices_keep_coalesced_cursor_moves_as_one_single_build_slice() {
    let mut pending = Vec::new();
    push(&mut pending, cursor_moved_event(10.0, 20.0));
    push(&mut pending, cursor_moved_event(30.0, 40.0));
    let slices = pending_dispatch_slices(pending);
    assert_eq!(slices.len(), 1);
    assert_eq!(slices[0].events, vec![TestEvent::CursorMoved { x: 30.0, y: 40.0 }]);
}

#[test]
fn pending_dispatch_slices_yield_one_slice_per_event_preserving_queue_order() {
    let mut pending = Vec::new();
    push(&mut pending, cursor_moved_event(10.0, 20.0));
    push(&mut pending, native_ingress(TestEvent::ButtonPressedLeft));
    push(&mut pending, wheel_lines_event(0.0, -1.0));
    push(&mut pending, cursor_moved_event(30.0, 40.0));
    let queued: Vec<TestEvent> = pending.iter().map(|queued| queued.event).collect();
    let slices = pending_dispatch_slices(pending);
    assert_eq!(slices.len(), queued.len(), "one dispatch slice per queued event");
    for (slice, event) in slices.iter().zip(queued.iter()) {
        assert_eq!(slice.events.len(), 1);
        assert_eq!(slice.events[0], *event);
    }
}

#[test]
fn pending_debug_events_coalesce_only_within_one_token_and_keep_final_marker() {
    let mut events = Vec::new();
    assert!(!push(&mut events, debug_ingress(7, false, TestEvent::CursorMoved { x: 1.0, y: 2.0 })));
    assert!(push(&mut events, debug_ingress(7, true, TestEvent::CursorMoved { x: 3.0, y: 4.0 })));
    assert!(!push(&mut events, debug_ingress(8, true, TestEvent::CursorMoved { x: 5.0, y: 6.0 })));
    assert_eq!(events.len(), 2);
    assert_eq!(events[0].origin, IcedIngressOrigin::Debug { token: 7, final_in_plan: true });
    assert_eq!(events[1].origin, IcedIngressOrigin::Debug { token: 8, final_in_plan: true });
}

fn coord(value: f32) -> Coord {
    Coord { bits: value.to_bits() }
}

fn step223_capture_frame(index: u64) -> FrameIdentity {
    FrameIdentity {
        surface_id: "iced-step223-capture".to_string(),
        surface_instance_id: "iced-step223-instance".to_string(),
        revision: 7,
        frame_index: index,
        viewport: Rect {
            origin: Point { x: coord(0.0), y: coord(0.0) },
            size: Size { width: coord(1.0), height: coord(1.0) },
        },
    }
}

fn step223_presented_event(token: u64, width: u32) -> DirectCaptureEvent {
    DirectCaptureEvent::Presented {
        token,
        format: DirectCaptureFormat::Rgba8Unorm,
        alpha: DirectCaptureAlphaMode::Opaque,
        width,
        height: 1,
    }
}

fn step223_mapped_event(token: u64, bytes: &[u8]) -> DirectCaptureEvent {
    DirectCaptureEvent::Mapped { token, result: Some(bytes.to_vec()) }
}

fn assert_step223_capture_continues(reduction: IcedCaptureReduction) {
    assert!(matches!(reduction, IcedCaptureReduction::Continue));
}

#[test]
fn step223_capture_state_accepts_either_event_order_and_retains_first_duplicates() {
    for mapped_first in [false, true] {
        let committed = step223_capture_frame(11);
        let mut evidence = IcedCaptureEvidence::empty();
        if mapped_first {
            assert_step223_capture_continues(reduce_iced_capture_event(41, Some(&committed), &mut evidence, step223_mapped_event(41, &[1, 2, 3, 4])));
        }
        assert_step223_capture_continues(reduce_iced_capture_event(41, Some(&committed), &mut evidence, step223_presented_event(41, 1)));
        assert_step223_capture_continues(reduce_iced_capture_event(41, Some(&committed), &mut evidence, step223_presented_event(41, 99)));
        if !mapped_first {
            assert_step223_capture_continues(reduce_iced_capture_event(41, Some(&committed), &mut evidence, step223_mapped_event(41, &[1, 2, 3, 4])));
        }
        assert_step223_capture_continues(reduce_iced_capture_event(41, Some(&committed), &mut evidence, step223_mapped_event(41, &[9, 9, 9, 9])));

        let presented = evidence.presented.as_ref().expect("Presented retained");
        assert_eq!(presented.width, 1);
        assert_eq!(committed, step223_capture_frame(11));
        assert_eq!(evidence.mapped.as_deref(), Some(&[1, 2, 3, 4][..]));
    }
}

#[test]
fn step223_capture_state_ignores_wrong_and_late_tokens_without_mutation() {
    let requested = step223_capture_frame(3);
    let mut evidence = IcedCaptureEvidence::empty();
    assert_step223_capture_continues(reduce_iced_capture_event(52, Some(&requested), &mut evidence, step223_presented_event(51, 7)));
    assert_step223_capture_continues(reduce_iced_capture_event(52, Some(&requested), &mut evidence, step223_mapped_event(51, &[7, 7, 7, 7])));
    assert!(evidence.presented.is_none());
    assert!(evidence.mapped.is_none());

    let committed = step223_capture_frame(4);
    assert_step223_capture_continues(reduce_iced_capture_event(52, Some(&committed), &mut evidence, step223_presented_event(52, 1)));
    let captured = committed.clone();
    assert_step223_capture_continues(reduce_iced_capture_event(52, Some(&requested), &mut evidence, step223_presented_event(51, 88)));
    assert_eq!(committed, captured);

    let mut next_request = IcedCaptureEvidence::empty();
    assert_step223_capture_continues(reduce_iced_capture_event(53, Some(&requested), &mut next_request, step223_mapped_event(52, &[1, 2, 3, 4])));
    assert!(next_request.mapped.is_none());
}

#[test]
fn step223_capture_state_refuses_map_poll_and_renderer_failures_once() {
    let requested = step223_capture_frame(4);
    for (signal, expected_code) in [
        (IcedCaptureSignal::MapFailed, "screenshot-map-failed"),
        (IcedCaptureSignal::PollFailed, "screenshot-poll-failed"),
        (IcedCaptureSignal::Refused { code: "screenshot-zero-size", reason: "zero size" }, "screenshot-zero-size"),
    ] {
        let mut evidence = IcedCaptureEvidence::empty();
        let IcedCaptureReduction::Refused { code, .. } = reduce_iced_capture_signal(Some(&requested), &mut evidence, signal) else {
            panic!("failure must terminally refuse");
        };
        assert_eq!(code, expected_code);
        assert!(evidence.mapped.is_none());
    }

    let mut evidence = IcedCaptureEvidence::empty();
    assert_step223_capture_continues(reduce_iced_capture_signal(Some(&requested), &mut evidence, IcedCaptureSignal::Mapped(vec![1, 2, 3, 4])));
    assert_step223_capture_continues(reduce_iced_capture_signal(Some(&requested), &mut evidence, IcedCaptureSignal::MapFailed));
    assert_eq!(evidence.mapped.as_deref(), Some(&[1, 2, 3, 4][..]));
}

#[test]
fn step223_capture_state_deadline_and_teardown_preserve_only_presented_identity() {
    let (captured, deadline_code, _) = iced_capture_deadline_refusal(None);
    assert!(captured.is_none());
    assert_eq!(deadline_code, "screenshot-deadline");
    let (captured, teardown_code, _) = iced_capture_teardown_refusal(None);
    assert!(captured.is_none());
    assert_eq!(teardown_code, "screenshot-window-teardown");

    let committed = step223_capture_frame(9);
    let mut waiting = IcedCaptureEvidence::empty();
    assert_step223_capture_continues(reduce_iced_capture_event(61, Some(&committed), &mut waiting, step223_presented_event(61, 1)));
    let expected = Some(step223_capture_frame(9));
    assert_eq!(iced_capture_deadline_refusal(Some(&committed)).0, expected);
    assert_eq!(iced_capture_teardown_refusal(Some(&committed)).0, expected);
}

#[test]
fn direct_capture_refusal_codes_are_concrete_and_exhaustive() {
    let refusals = [
        (DirectCaptureRefusal::CopySrcUnsupported, "screenshot-copy-src-unsupported"),
        (DirectCaptureRefusal::FormatUnsupported, "screenshot-format-unsupported"),
        (DirectCaptureRefusal::AlphaUnsupported, "screenshot-alpha-unsupported"),
        (DirectCaptureRefusal::ZeroSize, "screenshot-zero-size"),
        (DirectCaptureRefusal::ViewportUnavailable, "screenshot-viewport-unavailable"),
        (DirectCaptureRefusal::AlreadyArmed, "screenshot-already-armed"),
    ];
    for (refusal, expected) in refusals {
        let (code, reason) = direct_capture_refusal(refusal);
        assert_eq!(code, expected);
        assert!(!reason.is_empty());
    }
}

#[test]
fn refused_capture_event_reports_its_code_and_failed_map_refuses() {
    let mut evidence = IcedCaptureEvidence::empty();
    let IcedCaptureReduction::Refused { code, .. } = reduce_iced_capture_event(
        5,
        None,
        &mut evidence,
        DirectCaptureEvent::Refused { token: 5, reason: DirectCaptureRefusal::AlreadyArmed },
    ) else {
        panic!("refused event refuses");
    };
    assert_eq!(code, "screenshot-already-armed");
    let IcedCaptureReduction::Refused { code, .. } = reduce_iced_capture_event(
        5,
        None,
        &mut evidence,
        DirectCaptureEvent::Mapped { token: 5, result: None },
    ) else {
        panic!("failed map refuses while nothing is mapped");
    };
    assert_eq!(code, "screenshot-map-failed");
}

#[derive(Clone, Debug, PartialEq)]
struct CommitGate {
    token: u64,
    commit_sequence_index: usize,
    target: String,
    region_id: String,
}

#[derive(Clone, Debug, PartialEq)]
enum GatedEvent {
    ImeCommit(String),
    CursorMoved { x: f32, y: f32 },
}

#[test]
fn admitted_composition_commit_gate_moves_once_without_coalescing() {
    let gate = CommitGate {
        token: 31,
        commit_sequence_index: 2,
        target: "text-target".to_string(),
        region_id: "text-region".to_string(),
    };
    let keep_next = |_previous: &GatedEvent, next: &GatedEvent| next.clone();
    let mut pending: Vec<QueuedIcedIngress<GatedEvent, CommitGate>> = Vec::new();
    assert!(!push_coalesced_pending_iced_event(
        &mut pending,
        QueuedIcedIngress {
            event: GatedEvent::ImeCommit("commit".to_string()),
            class: IcedEventClass::Other,
            origin: IcedIngressOrigin::DebugComposition {
                token: 31,
                sequence_index: 2,
                phase: slipway::input::TextCompositionPhase::Commit,
            },
            commit_mutation_gate: Some(gate),
        },
        keep_next,
    ));
    assert!(!push_coalesced_pending_iced_event(
        &mut pending,
        QueuedIcedIngress {
            event: GatedEvent::CursorMoved { x: 1.0, y: 1.0 },
            class: IcedEventClass::CursorMoved,
            origin: IcedIngressOrigin::Debug { token: 31, final_in_plan: true },
            commit_mutation_gate: None,
        },
        keep_next,
    ));

    let slices = pending_dispatch_slices(pending);
    assert_eq!(slices.len(), 2);
    let moved_gate = slices[0]
        .commit_mutation_gate
        .as_ref()
        .expect("the expected Commit owns its one non-cloned gate");
    assert_eq!(moved_gate.token, 31);
    assert_eq!(moved_gate.commit_sequence_index, 2);
    assert!(slices[1].commit_mutation_gate.is_none());
}

#[test]
fn present_outcome_refuses_armed_capture_on_overflow_and_keeps_waiting_one() {
    let armed = iced_present_outcome(Err(IcedPresentIdentityOverflow), PendingCaptureState::Armed, RendererKind::Primary, None);
    assert_eq!(armed.result, IcedPresentationResult::SkippedOverflow);
    assert_eq!(
        armed.capture,
        CaptureAfterPresent::Refuse {
            code: "screenshot-frame-index-overflow",
            reason: "the iced backend presentation frame index overflowed before presentation",
        }
    );
    let waiting = iced_present_outcome(Err(IcedPresentIdentityOverflow), PendingCaptureState::Waiting, RendererKind::Primary, None);
    assert_eq!(waiting.capture, CaptureAfterPresent::Keep);
}

#[test]
fn present_outcome_arms_waits_or_refuses_by_renderer_and_present_result() {
    assert!(iced_present_uses_direct_capture(PendingCaptureState::Armed, RendererKind::Primary));
    assert!(!iced_present_uses_direct_capture(PendingCaptureState::Armed, RendererKind::Secondary));
    assert!(!iced_present_uses_direct_capture(PendingCaptureState::Waiting, RendererKind::Primary));

    let ok = iced_present_outcome(Ok(3), PendingCaptureState::Armed, RendererKind::Primary, Some(Ok(())));
    assert_eq!(ok.result, IcedPresentationResult::Presented);
    assert_eq!(ok.capture, CaptureAfterPresent::Wait);

    let lost = iced_present_outcome(Ok(3), PendingCaptureState::Armed, RendererKind::Primary, Some(Err(SurfaceError::Lost)));
    assert_eq!(lost.result, IcedPresentationResult::CompositorFailed(SurfaceError::Lost));
    assert_eq!(
        lost.capture,
        CaptureAfterPresent::Refuse {
            code: "screenshot-surface-acquire-failed",
            reason: "the iced direct capture could not acquire the visible surface texture",
        }
    );

    let fallback = iced_present_outcome(Ok(3), PendingCaptureState::Armed, RendererKind::Secondary, Some(Ok(())));
    assert_eq!(fallback.result, IcedPresentationResult::Presented);
    assert_eq!(
        fallback.capture,
        CaptureAfterPresent::Refuse {
            code: "screenshot-renderer-unsupported",
            reason: "the active iced tiny-skia fallback has no acquired GPU surface texture",
        }
    );

    let plain = iced_present_outcome(Ok(3), PendingCaptureState::Absent, RendererKind::Primary, Some(Ok(())));
    assert_eq!(plain.capture, CaptureAfterPresent::Keep);
}

#[test]
fn window_input_step_tracks_composition_preedit_and_held_buttons() {
    let mut state = WindowInputState { ime_composing: false, has_preedit: true, pressed_mouse_buttons: 0 };
    window_input_step(&mut state, WindowInputEvent::ImeEnabled);
    assert!(state.ime_composing);
    window_input_step(&mut state, WindowInputEvent::ImePreedit { empty: false, has_selection: false });
    assert!(state.ime_composing && state.has_preedit);
    window_input_step(&mut state, WindowInputEvent::ImePreedit { empty: true, has_selection: false });
    assert!(!state.ime_composing && !state.has_preedit);
    state.has_preedit = true;
    window_input_step(&mut state, WindowInputEvent::ImeCommit);
    assert!(!state.ime_composing && !state.has_preedit);
    window_input_step(&mut state, WindowInputEvent::MouseReleased);
    assert_eq!(state.pressed_mouse_buttons, 0);
    window_input_step(&mut state, WindowInputEvent::MousePressed);
    window_input_step(&mut state, WindowInputEvent::MousePressed);
    assert_eq!(state.pressed_mouse_buttons, 2);
    state.pressed_mouse_buttons = u8::MAX;
    window_input_step(&mut state, WindowInputEvent::MousePressed);
    assert_eq!(state.pressed_mouse_buttons, u8::MAX);
}

#[test]
fn resize_defers_redraws_only_after_the_first_frame() {
    assert!(should_defer_redraw_for_resize(true, 1));
    assert!(!should_defer_redraw_for_resize(true, 0));
    assert!(!should_defer_redraw_for_resize(false, 5));
    assert_eq!(queued_event_follow_up(false, true, false, 3), QueuedEventFollowUp::RequestRedraw);
    assert_eq!(queued_event_follow_up(false, false, true, 3), QueuedEventFollowUp::AwaitBatchEnd);
    assert_eq!(queued_event_follow_up(false, false, false, 3), QueuedEventFollowUp::DispatchAndRedraw);
    assert_eq!(queued_event_follow_up(true, false, false, 0), QueuedEventFollowUp::RequestRedraw);
    assert_eq!(queued_event_follow_up(true, true, false, 2), QueuedEventFollowUp::Nothing);
}
