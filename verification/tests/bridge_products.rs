use slipway::iced::{finish_iced_present, IcedPresentationResult, SurfaceError};
use slipway::command::DebugCommand;
use slipway::evidence::EvidenceSource;
use slipway::frame::{
    commit_iced_successful_present, iced_capture_frame_is_exact_next,
    preflight_next_iced_present_index, Coord, FrameIdentity, IcedPresentIdentityOverflow, Point,
    Rect, Size,
};
use slipway::reply::{checked_product, DebugReplyProduct};
use slipway::screenshot::{
    presented_pixels_pass_id, validate_presented_screenshot_product, PresentedAlphaMode,
    PresentedCapturePath, PresentedPixels, PresentedScreenshotAdmission,
    PresentedScreenshotProduct, PresentedScreenshotRefusal, PresentedScreenshotRequest,
    PresentedScreenshotSelector, PresentedSurfaceFormat, PresentedTransferFunction,
};

fn coord(value: f32) -> Coord {
    Coord { bits: value.to_bits() }
}

fn frame(index: u64) -> FrameIdentity {
    FrameIdentity {
        surface_id: "surface".to_string(),
        surface_instance_id: "instance".to_string(),
        revision: 4,
        frame_index: index,
        viewport: Rect {
            origin: Point { x: coord(0.0), y: coord(0.0) },
            size: Size { width: coord(200.0), height: coord(100.0) },
        },
    }
}

fn presented_pixels(
    selector: PresentedScreenshotSelector,
    captured_frame: FrameIdentity,
) -> PresentedPixels {
    PresentedPixels {
        selector,
        captured_frame,
        source: EvidenceSource::backend_presented("test-backend", presented_pixels_pass_id()),
        capture_path: PresentedCapturePath::DirectAcquiredSurfaceTextureCopy,
        source_format: PresentedSurfaceFormat::Rgba8UnormSrgb,
        transfer: PresentedTransferFunction::Srgb,
        alpha: PresentedAlphaMode::Opaque,
        width: 1,
        height: 1,
        bytes: vec![1, 2, 3, 255],
        diagnostics: Vec::new(),
    }
}

#[test]
fn screenshot_selectors_exhaustively_report_honest_correlation_fields() {
    let exact_frame = frame(40);
    let current_context = frame(3);
    let exact = PresentedScreenshotSelector::Exact { expected_frame: exact_frame.clone() };
    let current = PresentedScreenshotSelector::Current { request_context: current_context.clone() };

    assert_eq!(exact.admission(), PresentedScreenshotAdmission::Exact);
    assert_eq!(exact.correlation_frame(), &exact_frame);
    assert_eq!(current.admission(), PresentedScreenshotAdmission::Current);
    assert_eq!(current.correlation_frame(), &current_context);

    let exact_command =
        DebugCommand::screenshot("exact", PresentedScreenshotRequest { selector: exact.clone() });
    let current_command = DebugCommand::screenshot(
        "current",
        PresentedScreenshotRequest { selector: current.clone() },
    );
    assert_eq!(exact_command.frame_identity(), &exact_frame);
    assert_eq!(current_command.frame_identity(), &current_context);
    assert_eq!(exact_command.screenshot_admission(), Some(PresentedScreenshotAdmission::Exact));
    assert_eq!(
        current_command.screenshot_admission(),
        Some(PresentedScreenshotAdmission::Current)
    );
}

#[test]
fn current_product_keeps_context_as_correlation_not_expected_identity() {
    let request_context = frame(5);
    let mut captured = frame(90);
    captured.surface_id = "presented-surface".to_string();
    captured.surface_instance_id = "presented-instance".to_string();
    captured.revision = 77;
    let product = DebugReplyProduct::Screenshot(PresentedScreenshotProduct::Captured(
        presented_pixels(
            PresentedScreenshotSelector::Current { request_context: request_context.clone() },
            captured,
        ),
    ));

    assert_eq!(
        checked_product(&request_context, Some(PresentedScreenshotAdmission::Current), product.clone()),
        product
    );
}

#[test]
fn screenshot_validator_rejects_wrong_admission_for_capture_and_refusal() {
    let correlation = frame(50);
    let mut captured = correlation.clone();
    captured.frame_index += 1;
    let selector = PresentedScreenshotSelector::Exact { expected_frame: correlation.clone() };
    let products = [
        PresentedScreenshotProduct::Captured(presented_pixels(selector.clone(), captured)),
        PresentedScreenshotProduct::Refusal(PresentedScreenshotRefusal {
            selector,
            captured_frame: None,
            backend_id: Some("test-backend".to_string()),
            code: "test-refusal".to_string(),
            reason: "test refusal".to_string(),
            diagnostics: Vec::new(),
        }),
    ];

    for product in products {
        let failure = validate_presented_screenshot_product(
            &correlation,
            PresentedScreenshotAdmission::Current,
            &product,
        )
        .expect_err("product admission must match the consumed request");
        assert_eq!(failure.code, "screenshot-admission-mismatch");
    }
}

#[test]
fn screenshot_validator_rejects_wrong_correlation_and_exact_captured_identity() {
    let expected = frame(60);
    let selector = PresentedScreenshotSelector::Exact { expected_frame: expected.clone() };
    let refusal = PresentedScreenshotProduct::Refusal(PresentedScreenshotRefusal {
        selector: selector.clone(),
        captured_frame: None,
        backend_id: None,
        code: "test-refusal".to_string(),
        reason: "test refusal".to_string(),
        diagnostics: Vec::new(),
    });
    let failure =
        validate_presented_screenshot_product(&frame(61), PresentedScreenshotAdmission::Exact, &refusal)
            .expect_err("refusal correlation must match the reply frame");
    assert_eq!(failure.code, "screenshot-requested-frame-mismatch");

    let mut wrong_captured = expected.clone();
    wrong_captured.frame_index += 1;
    wrong_captured.surface_instance_id = "wrong-instance".to_string();
    let captured = PresentedScreenshotProduct::Captured(presented_pixels(selector, wrong_captured));
    let failure =
        validate_presented_screenshot_product(&expected, PresentedScreenshotAdmission::Exact, &captured)
            .expect_err("exact capture must preserve the complete admitted identity");
    assert_eq!(failure.code, "screenshot-captured-frame-transition-invalid");
}

#[test]
fn screenshot_validator_keeps_rgba_checks_for_current() {
    let request_context = frame(70);
    let mut pixels = presented_pixels(
        PresentedScreenshotSelector::Current { request_context: request_context.clone() },
        frame(200),
    );
    pixels.bytes = vec![0, 0, 0];

    let failure = validate_presented_screenshot_product(
        &request_context,
        PresentedScreenshotAdmission::Current,
        &PresentedScreenshotProduct::Captured(pixels),
    )
    .expect_err("current captures retain artifact validation");
    assert_eq!(failure.code, "screenshot-artifact-invalid-rgba");
}

#[test]
fn validator_accepts_exact_next_capture_and_checks_provenance_and_transfer() {
    let expected = frame(9);
    let selector = PresentedScreenshotSelector::Exact { expected_frame: expected.clone() };
    let mut pixels = presented_pixels(selector.clone(), frame(10));
    assert_eq!(
        validate_presented_screenshot_product(
            &expected,
            PresentedScreenshotAdmission::Exact,
            &PresentedScreenshotProduct::Captured(pixels.clone()),
        ),
        Ok(())
    );
    pixels.transfer = PresentedTransferFunction::Linear;
    let failure = validate_presented_screenshot_product(
        &expected,
        PresentedScreenshotAdmission::Exact,
        &PresentedScreenshotProduct::Captured(pixels.clone()),
    )
    .unwrap_err();
    assert_eq!(failure.code, "screenshot-transfer-function-mismatch");
    pixels.transfer = PresentedTransferFunction::Srgb;
    pixels.source.pass_id = Some("other-pass".to_string());
    let failure = validate_presented_screenshot_product(
        &expected,
        PresentedScreenshotAdmission::Exact,
        &PresentedScreenshotProduct::Captured(pixels),
    )
    .unwrap_err();
    assert_eq!(failure.code, "screenshot-presented-provenance-invalid");
}

#[test]
fn screenshot_product_for_non_screenshot_command_is_refused() {
    let context = frame(1);
    let product = DebugReplyProduct::Screenshot(PresentedScreenshotProduct::Captured(
        presented_pixels(PresentedScreenshotSelector::Current { request_context: context.clone() }, frame(2)),
    ));
    let DebugReplyProduct::Error(failure) = checked_product(&context, None, product) else {
        panic!("screenshot product without admission must become an error");
    };
    assert_eq!(failure.code, "screenshot-admission-missing");
    let DebugReplyProduct::Error(failure) = checked_product(
        &frame(3),
        None,
        DebugReplyProduct::Screenshot(PresentedScreenshotProduct::Refusal(PresentedScreenshotRefusal {
            selector: PresentedScreenshotSelector::Current { request_context: context },
            captured_frame: None,
            backend_id: None,
            code: "x".to_string(),
            reason: "y".to_string(),
            diagnostics: Vec::new(),
        })),
    ) else {
        panic!("mismatched frame must become an error");
    };
    assert_eq!(failure.code, "frame-identity-mismatch");
}

fn step223_capture_frame(index: u64) -> FrameIdentity {
    FrameIdentity {
        surface_id: "iced-step223-capture".to_string(),
        surface_instance_id: "iced-step223-instance".to_string(),
        revision: 7,
        frame_index: index,
        viewport: Rect {
            origin: Point { x: coord(0.0), y: coord(0.0) },
            size: Size { width: coord(1.0), height: coord(1.0) },
        },
    }
}

#[test]
fn current_two_cycle_continuous_repaint_commits_distinct_actual_presentations() {
    let request_context = step223_capture_frame(0);
    let selectors = [
        PresentedScreenshotSelector::Current { request_context: request_context.clone() },
        PresentedScreenshotSelector::Current { request_context: request_context.clone() },
    ];
    let unchanged_render_candidate = step223_capture_frame(0);
    let mut backend_present_index = 0;
    let mut last_successfully_presented = None;
    let mut committed = Vec::new();

    for selector in selectors {
        let PresentedScreenshotSelector::Current { request_context } = selector else {
            panic!("fixture must retain Current custody");
        };
        let next = preflight_next_iced_present_index(backend_present_index)
            .expect("next repaint index is representable");
        commit_iced_successful_present(
            unchanged_render_candidate.clone(),
            next,
            &mut backend_present_index,
            &mut last_successfully_presented,
        );
        let presented =
            last_successfully_presented.as_ref().expect("successful repaint commits identity");
        assert_ne!(presented.frame_index, request_context.frame_index);
        committed.push(presented.frame_index);
    }

    assert_eq!(committed, [1, 2]);
    assert_eq!(backend_present_index, 2);
}

#[test]
fn present_index_overflow_preflight_reverts_and_fails_without_identity_mutation() {
    let backend_present_index = u64::MAX;
    let last_successfully_presented = Some(step223_capture_frame(u64::MAX));
    let before = last_successfully_presented.clone();

    assert_eq!(
        preflight_next_iced_present_index(backend_present_index),
        Err(IcedPresentIdentityOverflow)
    );
    assert_eq!(backend_present_index, u64::MAX);
    assert_eq!(last_successfully_presented, before);
}

#[test]
fn exact_next_requires_all_non_index_candidate_fields_unchanged() {
    let expected = step223_capture_frame(20);
    let mut captured = step223_capture_frame(21);
    assert!(iced_capture_frame_is_exact_next(&expected, &captured));
    captured.revision += 1;
    assert!(!iced_capture_frame_is_exact_next(&expected, &captured));
}

#[test]
fn finishing_a_present_commits_only_on_success() {
    let mut index = 4;
    let mut presented = Some(frame(4));
    let failed = finish_iced_present(Err(SurfaceError::Lost), frame(9), 5, &mut index, &mut presented);
    assert_eq!(failed, IcedPresentationResult::CompositorFailed(SurfaceError::Lost));
    assert_eq!(index, 4);
    assert_eq!(presented, Some(frame(4)));

    let ok = finish_iced_present(Ok(()), frame(9), 5, &mut index, &mut presented);
    assert_eq!(ok, IcedPresentationResult::Presented);
    assert_eq!(index, 5);
    assert_eq!(presented, Some(frame(5)));
}
