use slipway::native::{text_composition_ingress_check, text_composition_region_check, TextEditCommandFacts, TextEditFacts};
use slipway::command::{DebugPhysicalControl, DebugPhysicalControlDeclarationSelector};
use slipway::evidence::{
    evidence_source_post_hoc_diagnosis_label, DeclaredEventDispatchEvidence,
    DeclaredEventDispatchKind, DispatchPositionSpace, EvidenceSource,
};
use slipway::frame::{Coord, FrameIdentity, Point, Rect, Size};
use slipway::native::{
    egui_events_for_native_physical_operation, native_physical_no_match_failure,
    EguiNativePhysicalControlPlan, ICED_BACKEND_ID,
};

fn coord(value: f32) -> Coord {
    Coord { bits: value.to_bits() }
}

#[test]
fn seam_no_match_failure_states_events_were_dispatched() {
    let failure = native_physical_no_match_failure(None, 2);
    assert_eq!(
        failure.code,
        "native-physical-control-produced-no-backend-input"
    );
    assert!(
        failure.message.contains("events were dispatched"),
        "{}",
        failure.message
    );
    assert!(
        failure
            .message
            .contains("2 non-matching backend input message(s) were withheld"),
        "{}",
        failure.message
    );
    assert!(failure.dispatch_evidence.is_none());
}

#[test]
fn seam_no_match_failure_attaches_post_hoc_diagnosis() {
    let refusal = DeclaredEventDispatchEvidence {
        source: EvidenceSource::backend_presented(ICED_BACKEND_ID, "physical-input"),
        frame: FrameIdentity {
            surface_id: "test-surface".to_string(),
            surface_instance_id: "test-instance".to_string(),
            revision: 0,
            frame_index: 0,
            viewport: Rect {
                origin: Point { x: coord(0.0), y: coord(0.0) },
                size: Size { width: coord(100.0), height: coord(100.0) },
            },
        },
        kind: DeclaredEventDispatchKind::Wheel,
        input_position: Some(Point { x: coord(4.0), y: coord(4.0) }),
        input_position_space: Some(DispatchPositionSpace::Content),
        candidate_regions: vec!["dead-region".to_string()],
        selected_region: None,
        refusal_reason: Some("wheel found no scrollable consumer".to_string()),
        generated_event: None,
        route: None,
        capture_event: false,
        diagnostics: Vec::new(),
    };

    let failure = native_physical_no_match_failure(Some(refusal), 0);

    let diagnosis = failure
        .dispatch_evidence
        .as_ref()
        .expect("no-match failure attaches the post-hoc diagnosis");
    assert_eq!(diagnosis.source.label, evidence_source_post_hoc_diagnosis_label());
    assert!(
        failure.message.contains("events were dispatched"),
        "{}",
        failure.message
    );
    assert!(
        failure
            .message
            .contains("wheel found no scrollable consumer"),
        "{}",
        failure.message
    );
    assert!(failure.message.contains("dead-region"), "{}", failure.message);
    assert!(failure.message.ends_with("; candidates=[dead-region]"));
}

#[test]
fn no_match_diagnosis_lists_every_candidate_and_defaults_the_reason() {
    let mut refusal = DeclaredEventDispatchEvidence {
        source: EvidenceSource::backend_presented(ICED_BACKEND_ID, "physical-input"),
        frame: FrameIdentity {
            surface_id: "s".to_string(),
            surface_instance_id: "i".to_string(),
            revision: 1,
            frame_index: 2,
            viewport: Rect {
                origin: Point { x: coord(0.0), y: coord(0.0) },
                size: Size { width: coord(10.0), height: coord(10.0) },
            },
        },
        kind: DeclaredEventDispatchKind::Pointer,
        input_position: None,
        input_position_space: None,
        candidate_regions: vec!["a".to_string(), "b".to_string(), "c".to_string()],
        selected_region: None,
        refusal_reason: None,
        generated_event: None,
        route: None,
        capture_event: false,
        diagnostics: Vec::new(),
    };
    let failure = native_physical_no_match_failure(Some(refusal.clone()), 1);
    assert!(failure
        .message
        .ends_with("is attached: dispatch refused without a recorded reason; candidates=[a, b, c]"));
    let diagnosis = failure.dispatch_evidence.expect("diagnosis attached");
    assert_eq!(diagnosis.source.backend_id.as_deref(), Some(ICED_BACKEND_ID));
    assert_eq!(diagnosis.source.pass_id.as_deref(), Some("physical-control-no-match"));
    refusal.source = diagnosis.source.clone();
    assert_eq!(diagnosis, refusal);
}

#[test]
fn egui_native_physical_control_mutates_focus_and_scroll_only() {
    let selector = DebugPhysicalControlDeclarationSelector::Target { target: "w".to_string() };
    assert_eq!(
        egui_events_for_native_physical_operation(&DebugPhysicalControl::Focus {
            selector: selector.clone(),
            focused: true,
        }),
        Ok(EguiNativePhysicalControlPlan::BackendNativeMutation)
    );
    assert_eq!(
        egui_events_for_native_physical_operation(&DebugPhysicalControl::Scroll {
            selector: selector.clone(),
            offset_x: coord(0.0),
            offset_y: coord(4.0),
        }),
        Ok(EguiNativePhysicalControlPlan::BackendNativeMutation)
    );
    let refused = egui_events_for_native_physical_operation(&DebugPhysicalControl::Text {
        selector,
        text: "abc".to_string(),
    })
    .expect_err("text is not injected natively");
    assert_eq!(refused.code, "native-physical-control-ingress-unavailable");
}

use slipway::command::DebugTextCompositionUpdate;
use slipway::iced::{seam_pressed_mouse_buttons_after, unicode_scalar_to_byte_index};
use slipway::input::{
    KeyEventKind, KeyLocation, KeyboardDetails, Modifiers, PointerButton, PointerDetails,
    PointerDeviceKind, PointerEventKind, TextEditKind, TextSelectionRange,
};
use slipway::native::{iced_composition_ime_plan, iced_events_for_native_physical_operation, ImeEventPlan, NativeEventPlan};

#[test]
fn composition_unicode_scalar_ranges_convert_to_winit_byte_ranges() {
    let text = "a\u{1F642}\u{D55C}";
    assert_eq!(unicode_scalar_to_byte_index(text, 0), 0);
    assert_eq!(unicode_scalar_to_byte_index(text, 1), 1);
    assert_eq!(unicode_scalar_to_byte_index(text, 2), 5);
    assert_eq!(unicode_scalar_to_byte_index(text, 3), text.len());
    assert_eq!(unicode_scalar_to_byte_index(text, 99), text.len());
}

fn target_selector() -> DebugPhysicalControlDeclarationSelector {
    DebugPhysicalControlDeclarationSelector::Target { target: "text-target".to_string() }
}

#[test]
fn iced_native_physical_text_uses_ime_commit_event() {
    let events = iced_events_for_native_physical_operation(DebugPhysicalControl::Text {
        selector: target_selector(),
        text: "abc".to_string(),
    })
    .expect("text physical control maps to iced event");
    assert_eq!(events, vec![NativeEventPlan::ImeCommit { text: "abc".to_string() }]);
}

fn default_details() -> KeyboardDetails {
    KeyboardDetails {
        logical_key: None,
        physical_key: None,
        text: None,
        repeat: false,
        location: KeyLocation::Standard,
    }
}

fn no_modifiers() -> Modifiers {
    Modifiers { shift: false, control: false, alt: false, meta: false }
}

#[test]
fn iced_native_physical_keyboard_uses_iced_keyboard_event() {
    let events = iced_events_for_native_physical_operation(DebugPhysicalControl::Keyboard {
        selector: target_selector(),
        key: "Enter".to_string(),
        kind: KeyEventKind::Press,
        modifiers: no_modifiers(),
        details: default_details(),
    })
    .expect("keyboard physical control maps to iced event");

    assert!(matches!(
        events.as_slice(),
        [NativeEventPlan::Key { key, kind: KeyEventKind::Press, .. }] if key == "Enter"
    ));
}

fn pointer_operation(kind: PointerEventKind) -> DebugPhysicalControl {
    DebugPhysicalControl::Pointer {
        position: Point { x: coord(4.0), y: coord(4.0) },
        kind,
        button: Some(PointerButton::Primary),
        details: PointerDetails {
            pointer_id: None,
            device: PointerDeviceKind::Mouse,
            buttons: slipway::input::PointerButtons { primary: false, secondary: false, auxiliary: false },
            modifiers: no_modifiers(),
            pressure: None,
            tilt_x: None,
            tilt_y: None,
            twist: None,
        },
        pointer_is_pressed: matches!(kind, PointerEventKind::Press),
    }
}

#[test]
fn seam_pointer_press_and_release_mirror_pressed_mouse_button_bookkeeping() {
    let pressed = seam_pressed_mouse_buttons_after(0, &pointer_operation(PointerEventKind::Press));
    assert_eq!(pressed, 1);
    let released =
        seam_pressed_mouse_buttons_after(pressed, &pointer_operation(PointerEventKind::Release));
    assert_eq!(released, 0);
    assert_eq!(
        seam_pressed_mouse_buttons_after(0, &pointer_operation(PointerEventKind::Release)),
        0
    );
    assert_eq!(
        seam_pressed_mouse_buttons_after(1, &pointer_operation(PointerEventKind::Move)),
        1
    );
    assert_eq!(
        seam_pressed_mouse_buttons_after(
            1,
            &DebugPhysicalControl::Wheel {
                position: Point { x: coord(4.0), y: coord(4.0) },
                delta_x: coord(0.0),
                delta_y: coord(1.0),
            }
        ),
        1
    );
}

#[test]
fn iced_native_physical_text_edit_delete_uses_keyboard_event() {
    let events = iced_events_for_native_physical_operation(DebugPhysicalControl::TextEdit {
        selector: target_selector(),
        kind: TextEditKind::DeleteBackward,
        text: None,
        selection_before: None,
        selection_after: None,
    })
    .expect("delete text edit maps to native backspace");

    assert!(matches!(
        events.as_slice(),
        [NativeEventPlan::Key { key, .. }] if key == "Backspace"
    ));
}

#[test]
fn composition_becomes_enabled_preedits_commit_and_disabled() {
    let plan = iced_composition_ime_plan(
        &vec![
            DebugTextCompositionUpdate {
                preedit_text: "\u{D55C}a".to_string(),
                cursor_range: Some(TextSelectionRange { anchor: 1, focus: 2 }),
            },
            DebugTextCompositionUpdate { preedit_text: "x".to_string(), cursor_range: None },
        ],
        &"\u{D55C}".to_string(),
    );
    assert_eq!(
        plan,
        vec![
            ImeEventPlan::Enabled,
            ImeEventPlan::Preedit { text: "\u{D55C}a".to_string(), cursor: Some((3, 4)) },
            ImeEventPlan::Preedit { text: "x".to_string(), cursor: None },
            ImeEventPlan::Commit { text: "\u{D55C}".to_string() },
            ImeEventPlan::Disabled,
        ]
    );
}

use slipway::iced::IcedIngressOrigin;
use slipway::input::{CommandEvent, InputEvent, TextCompositionPhase, WidgetSlotAddress};
use slipway::native::{
    commit_mutation_gate_matches, ingress_pass_id, BackendInputEvent, IcedNativeCommitMutationGate,
    NativeTextMutation,
};

fn mutation(target: &str, path: &[&str]) -> NativeTextMutation {
    NativeTextMutation {
        target: target.to_string(),
        target_slot: Some(WidgetSlotAddress {
            widget: "editor".to_string(),
            path: path.iter().map(|p| p.to_string()).collect(),
            ordinal: 0,
        }),
        region_id: "text-region".to_string(),
        input: BackendInputEvent {
            event: InputEvent::Command(CommandEvent {
                target: target.to_string(),
                target_slot: None,
                command: "noop".to_string(),
                payload_ref: None,
                source: None,
            }),
            dispatch_evidence: None,
        },
        before: "a".to_string(),
        after: "ab".to_string(),
    }
}

#[test]
fn commit_gate_admits_only_its_own_commit_for_its_target_slot_and_region() {
    let gate = IcedNativeCommitMutationGate {
        token: 31,
        commit_sequence_index: 2,
        target: "text-target".to_string(),
        target_slot: mutation("text-target", &["root", "form"]).target_slot,
        region_id: "text-region".to_string(),
    };
    let commit = IcedIngressOrigin::DebugComposition {
        token: 31,
        sequence_index: 2,
        phase: TextCompositionPhase::Commit,
    };
    let ok = mutation("text-target", &["root", "form"]);
    assert!(commit_mutation_gate_matches(&commit, Some(&gate), &ok));
    assert!(!commit_mutation_gate_matches(&commit, None, &ok));
    assert!(!commit_mutation_gate_matches(&commit, Some(&gate), &mutation("other", &["root", "form"])));
    assert!(!commit_mutation_gate_matches(&commit, Some(&gate), &mutation("text-target", &["root", "list"])));
    assert!(!commit_mutation_gate_matches(&commit, Some(&gate), &mutation("text-target", &["root"])));
    let update = IcedIngressOrigin::DebugComposition {
        token: 31,
        sequence_index: 1,
        phase: TextCompositionPhase::Update,
    };
    assert!(!commit_mutation_gate_matches(&update, Some(&gate), &ok));
    assert!(!commit_mutation_gate_matches(&IcedIngressOrigin::NativeOs, Some(&gate), &ok));
}

#[test]
fn ingress_passes_name_native_debug_and_composition_input() {
    assert_eq!(ingress_pass_id(&IcedIngressOrigin::NativeOs), "physical-input/native-os");
    assert_eq!(
        ingress_pass_id(&IcedIngressOrigin::Debug { token: 1, final_in_plan: false }),
        "physical-input/debug-injected"
    );
    assert_eq!(
        ingress_pass_id(&IcedIngressOrigin::DebugComposition {
            token: 1,
            sequence_index: 0,
            phase: TextCompositionPhase::Start,
        }),
        "physical-input/debug-injected/composition"
    );
}

#[test]
fn text_composition_checks_refuse_in_order() {
    let missing = text_composition_region_check(None).unwrap_err();
    assert_eq!(missing.code, "native-physical-control-text-composition-region-not-found");
    let no_edit = text_composition_region_check(Some(&None)).unwrap_err();
    assert_eq!(no_edit.code, "native-physical-control-text-composition-text-edit-required");
    let disabled = Some(TextEditFacts {
        editable: true,
        edit_commands: vec![TextEditCommandFacts { enabled: false, kind: TextEditKind::ReplaceBuffer }],
    });
    assert_eq!(
        text_composition_region_check(Some(&disabled)).unwrap_err().code,
        "native-physical-control-text-composition-commit-unavailable"
    );
    let ready = Some(TextEditFacts {
        editable: true,
        edit_commands: vec![
            TextEditCommandFacts { enabled: true, kind: TextEditKind::InsertText },
            TextEditCommandFacts { enabled: true, kind: TextEditKind::ReplaceBuffer },
        ],
    });
    assert!(text_composition_region_check(Some(&ready)).is_ok());
    assert_eq!(
        text_composition_ingress_check(false, true).unwrap_err().code,
        "native-physical-control-text-composition-focus-unstable"
    );
    assert_eq!(
        text_composition_ingress_check(true, false).unwrap_err().code,
        "native-physical-control-window-unavailable"
    );
    assert!(text_composition_ingress_check(true, true).is_ok());
}
