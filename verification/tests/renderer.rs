use slipway::renderer::{text_style_seed, BaselineShift, FontStyle, TextStyleKey};
use slipway::evidence::DiagnosticSeverity;
use slipway::frame::{Coord, FrameIdentity, Point, Rect, Size};
use slipway::renderer::{
    artifact_ref, compare_artifact_bytes, font_weight_pixels, font_weight_value, pixel_hash,
    pixel_offset, sanitize, ArtifactLookupError, CpuDebugRenderer, DebugRenderArtifact,
    DebugRendererConfig, FontWeight, PixelBounds, RenderedPixels, render_start_diagnostics,
};
use slipway::evidence::{Diagnostic, EvidenceSource};

fn coord(value: f32) -> Coord {
    Coord { bits: value.to_bits() }
}

fn frame(width: f32, height: f32, index: u64) -> FrameIdentity {
    FrameIdentity {
        surface_id: "surface".to_string(),
        surface_instance_id: "instance".to_string(),
        revision: 1,
        frame_index: index,
        viewport: Rect {
            origin: Point { x: coord(0.0), y: coord(0.0) },
            size: Size { width: coord(width), height: coord(height) },
        },
    }
}

/// A `size` by `size` image, cleared to transparent black, with the top-left
/// `fill_w` by `fill_h` pixels set to `color`.
fn filled(size: u32, fill_w: u32, fill_h: u32, color: [u8; 4]) -> Vec<u8> {
    let mut rgba = vec![0u8; (size * size * 4) as usize];
    for y in 0..fill_h {
        for x in 0..fill_w {
            let offset = pixel_offset(size, size, x as i32, y as i32).expect("pixel inside");
            rgba[offset..offset + 4].copy_from_slice(&color);
        }
    }
    rgba
}

fn artifact(provider: &str, index: u64, size: u32, rgba: Vec<u8>) -> DebugRenderArtifact {
    let frame = frame(size as f32, size as f32, index);
    let hash = pixel_hash(size, size, &rgba);
    DebugRenderArtifact {
        artifact_ref: artifact_ref(provider, "widget", &frame, &hash),
        artifact_path: None,
        target: "widget".to_string(),
        frame,
        width: size,
        height: size,
        rgba,
        pixel_hash: hash,
        diagnostics: Vec::new(),
    }
}

#[test]
fn comparison_of_recorded_artifacts_reports_exact_match_and_mismatch() {
    let mut renderer = CpuDebugRenderer::default();
    let provider = renderer.provider_id().to_string();
    let first = artifact(&provider, 4, 24, filled(24, 8, 8, [255, 0, 0, 255]));
    let second = artifact(&provider, 5, 24, filled(24, 8, 8, [255, 0, 0, 255]));
    let changed = artifact(&provider, 6, 24, filled(24, 12, 8, [0, 0, 255, 255]));
    let (first_ref, second_ref, changed_ref) = (
        first.artifact_ref.clone(),
        second.artifact_ref.clone(),
        changed.artifact_ref.clone(),
    );
    renderer.record_artifact(first);
    renderer.record_artifact(second);
    renderer.record_artifact(changed);
    assert_eq!(renderer.artifacts().len(), 3);

    let exact = renderer
        .compare_artifacts(&first_ref, &second_ref)
        .expect("compare exact");
    assert!(exact.exact_match);
    assert_eq!(exact.mismatch_pixel_count, 0);
    assert_eq!(exact.total_pixel_count, 24 * 24);

    let mismatch = renderer
        .compare_artifacts(&first_ref, &changed_ref)
        .expect("compare mismatch");
    assert!(!mismatch.exact_match);
    assert_eq!(mismatch.mismatch_pixel_count, 12 * 8);
    assert!(mismatch.mismatch_pixel_count > 0);
    assert!(mismatch.diagnostics.is_empty());

    assert_eq!(
        renderer.compare_artifacts(&first_ref, "missing"),
        Err(ArtifactLookupError::MissingArtifact {
            artifact_ref: "missing".to_string()
        })
    );
}

#[test]
fn recording_an_existing_reference_replaces_the_artifact() {
    let mut renderer = CpuDebugRenderer::default();
    let original = artifact("p", 1, 2, filled(2, 1, 1, [1, 2, 3, 4]));
    let mut replacement = original.clone();
    replacement.diagnostics.clear();
    replacement.artifact_path = Some("/artifacts/replacement.png".to_string());
    let reference = original.artifact_ref.clone();
    renderer.record_artifact(original);
    renderer.record_artifact(replacement);
    assert_eq!(renderer.artifacts().len(), 1);
    assert_eq!(
        renderer
            .artifact(&reference)
            .expect("artifact stored")
            .artifact_path
            .as_deref(),
        Some("/artifacts/replacement.png")
    );
    assert!(renderer.artifact("slipway-debug-renderer://other").is_none());
}

#[test]
fn different_dimensions_mismatch_every_pixel_of_the_larger_with_a_warning() {
    let small = artifact("p", 1, 2, filled(2, 0, 0, [0, 0, 0, 0]));
    let large = artifact("p", 2, 3, filled(3, 0, 0, [0, 0, 0, 0]));
    let comparison = compare_artifact_bytes(&small, &large);
    assert!(!comparison.exact_match);
    assert_eq!(comparison.left_dimensions, (2, 2));
    assert_eq!(comparison.right_dimensions, (3, 3));
    assert_eq!(comparison.total_pixel_count, 9);
    assert_eq!(comparison.mismatch_pixel_count, 9);
    assert_eq!(comparison.diagnostics.len(), 1);
    assert_eq!(comparison.diagnostics[0].severity, DiagnosticSeverity::Warning);
}

#[test]
fn pixel_hash_is_fnv1a64_of_dimensions_and_bytes() {
    assert_eq!(
        pixel_hash(2, 1, &[255, 0, 0, 255, 0, 0, 255, 255]),
        "fnv1a64:226fde2b8d0b756a"
    );
    assert_eq!(pixel_hash(0, 0, &[]), "fnv1a64:a8c7f832281a39c5");
}

#[test]
fn artifact_references_sanitize_each_component() {
    assert_eq!(sanitize("a b/c.d-e_f:g"), "a_b_c.d-e_f_g");
    assert_eq!(sanitize("한"), "_");
    let frame = frame(4.0, 4.0, 9);
    assert_eq!(
        artifact_ref("slipway-debug-renderer.cpu.v1", "list/item 1", &frame, "fnv1a64:00ff"),
        "slipway-debug-renderer://slipway-debug-renderer.cpu.v1/surface/instance/1/9/list_item_1-fnv1a64_00ff"
    );
}

#[test]
fn render_size_check_refuses_empty_and_oversized_viewports() {
    let renderer = CpuDebugRenderer::new(DebugRendererConfig {
        provider_id: "p".to_string(),
        clear_rgba: [0, 0, 0, 0],
        max_pixels: 100,
    });
    assert_eq!(
        renderer.render_size_check(0, 10).as_deref(),
        Some("debug renderer requires a positive viewport")
    );
    assert_eq!(
        renderer.render_size_check(11, 10).as_deref(),
        Some("debug renderer viewport has 110 pixels, above configured max 100")
    );
    assert_eq!(renderer.render_size_check(10, 10), None);
}

#[test]
fn pixel_offsets_and_clipping_stay_inside_the_target() {
    assert_eq!(pixel_offset(4, 3, 1, 2), Some((2 * 4 + 1) * 4));
    assert_eq!(pixel_offset(4, 3, 4, 0), None);
    assert_eq!(pixel_offset(4, 3, -1, 0), None);
    let clipped = PixelBounds { x0: -3, y0: 2, x1: 9, y1: 7 }.clipped(8, 5);
    assert_eq!(clipped, PixelBounds { x0: 0, y0: 2, x1: 8, y1: 5 });
}

#[test]
fn font_weights_clamp_and_map_to_stroke_pixels() {
    assert_eq!(font_weight_value(FontWeight::Normal), 400);
    assert_eq!(font_weight_value(FontWeight::Bold), 700);
    assert_eq!(font_weight_value(FontWeight::Weight(0)), 1);
    assert_eq!(font_weight_value(FontWeight::Weight(2000)), 1000);
    assert_eq!(font_weight_pixels(FontWeight::Normal), 1);
    assert_eq!(font_weight_pixels(FontWeight::Weight(600)), 2);
    assert_eq!(font_weight_pixels(FontWeight::Weight(850)), 3);
}

#[test]
fn finished_render_keeps_artifact_and_reports_write_failures() {
    let mut renderer = CpuDebugRenderer::default();
    let frame = frame(2.0, 1.0, 3);
    let rendered = RenderedPixels {
        width: 2,
        height: 1,
        rgba: vec![255, 0, 0, 255, 0, 0, 255, 255],
        diagnostics: Vec::new(),
    };
    let reference = renderer.rendered_artifact_ref("widget", &frame, &rendered);
    assert_eq!(
        reference,
        "slipway-debug-renderer://slipway-debug-renderer.cpu.v1/surface/instance/1/3/widget-fnv1a64_226fde2b8d0b756a"
    );

    let evidence = renderer.finish_render(
        "widget".to_string(),
        frame.clone(),
        rendered.clone(),
        Ok("/artifacts/widget.png".to_string()),
    );
    assert_eq!(evidence.artifact_ref.as_deref(), Some(reference.as_str()));
    assert_eq!(evidence.artifact_path.as_deref(), Some("/artifacts/widget.png"));
    assert_eq!(evidence.pixel_hash.as_deref(), Some("fnv1a64:226fde2b8d0b756a"));
    assert_eq!((evidence.width, evidence.height), (Some(2), Some(1)));
    assert_eq!(evidence.source, EvidenceSource::canonical_offscreen("slipway-debug-renderer.cpu.v1"));
    assert!(evidence.diagnostics.is_empty());
    assert_eq!(renderer.artifacts().len(), 1);

    let failed = renderer.finish_render(
        "widget".to_string(),
        frame,
        rendered,
        Err("disk full".to_string()),
    );
    assert_eq!(failed.artifact_path, None);
    assert_eq!(failed.diagnostics.len(), 1);
    assert_eq!(failed.diagnostics[0].code, "debug-render-png-artifact-write-failed");
    assert_eq!(
        failed.diagnostics[0].message,
        "debug renderer could not write PNG artifact: disk full"
    );
    assert_eq!(renderer.artifacts().len(), 1);
    assert_eq!(renderer.artifact(&reference).expect("kept").artifact_path, None);
}

#[test]
fn render_refusal_carries_reason_and_packet_diagnostics() {
    let renderer = CpuDebugRenderer::new(DebugRendererConfig {
        provider_id: "p".to_string(),
        clear_rgba: [0, 0, 0, 0],
        max_pixels: 4,
    });
    let diagnostics = vec![Diagnostic {
        target: None,
        severity: DiagnosticSeverity::Info,
        code: "packet".to_string(),
        message: "from packet".to_string(),
    }];
    let refusal = renderer
        .render_refusal("widget", &frame(3.0, 2.0, 1), 3, 2, &diagnostics)
        .expect("six pixels are above the maximum");
    assert_eq!(refusal.reason, "debug renderer viewport has 6 pixels, above configured max 4");
    assert_eq!(refusal.provider_id.as_deref(), Some("p"));
    assert_eq!(refusal.diagnostics, diagnostics);
    assert!(renderer.render_refusal("widget", &frame(2.0, 2.0, 1), 2, 2, &diagnostics).is_none());

    let started = render_start_diagnostics("widget", &diagnostics, true);
    assert_eq!(started.len(), 2);
    assert_eq!(started[1].code, "render-surfaces-not-rasterized");
    assert_eq!(render_start_diagnostics("widget", &diagnostics, false), diagnostics);
}

#[test]
fn text_style_seed_folds_family_size_weight_style_decorations_and_baseline() {
    let styled = TextStyleKey {
        font_family: "Inter".to_string(),
        size_bits: 14.0f32.to_bits(),
        font_weight: FontWeight::Bold,
        font_style: FontStyle::Italic,
        underline: true,
        strikethrough: false,
        baseline: BaselineShift::Superscript,
    };
    assert_eq!(text_style_seed(&styled), 2841944814);
    let plain = TextStyleKey {
        font_family: String::new(),
        size_bits: 0.0f32.to_bits(),
        font_weight: FontWeight::Normal,
        font_style: FontStyle::Normal,
        underline: false,
        strikethrough: false,
        baseline: BaselineShift::Normal,
    };
    assert_eq!(text_style_seed(&plain), 3831865847);
    let mut struck = styled.clone();
    struck.strikethrough = true;
    assert_ne!(text_style_seed(&struck), text_style_seed(&styled));
}

#[test]
fn default_renderer_config_is_cpu_provider_with_transparent_clear() {
    let config = DebugRendererConfig::default();
    assert_eq!(config.provider_id, "slipway-debug-renderer.cpu.v1");
    assert_eq!(config.clear_rgba, [0, 0, 0, 0]);
    assert_eq!(config.max_pixels, 16_777_216);
    let renderer = CpuDebugRenderer::default();
    assert_eq!(renderer.provider_id(), "slipway-debug-renderer.cpu.v1");
}

fn finish_filled(renderer: &mut CpuDebugRenderer, index: u64, fill_w: u32, color: [u8; 4]) -> String {
    let evidence = renderer.finish_render(
        "widget".to_string(),
        frame(24.0, 24.0, index),
        RenderedPixels { width: 24, height: 24, rgba: filled(24, fill_w, 8, color), diagnostics: Vec::new() },
        Ok(format!("/artifacts/{index}.png")),
    );
    evidence.artifact_ref.expect("artifact ref")
}

#[test]
fn comparison_reports_exact_match_and_mismatch() {
    // The rasterized pixels of an 8x8 red fill (twice) and a 12x8 blue fill
    // on a 24x24 viewport cleared to transparent black.
    let mut renderer = CpuDebugRenderer::default();
    let first = finish_filled(&mut renderer, 4, 8, [255, 0, 0, 255]);
    let second = finish_filled(&mut renderer, 5, 8, [255, 0, 0, 255]);
    let changed = finish_filled(&mut renderer, 6, 12, [0, 0, 255, 255]);

    let exact = renderer.compare_artifacts(&first, &second).expect("compare exact");
    assert!(exact.exact_match);
    assert_eq!(exact.mismatch_pixel_count, 0);

    let mismatch = renderer.compare_artifacts(&first, &changed).expect("compare mismatch");
    assert!(!mismatch.exact_match);
    assert!(mismatch.mismatch_pixel_count > 0);
}
