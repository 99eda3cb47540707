use slipway::frame::{Coord, Size};
use slipway::report::visible_frame_timing_report;
use slipway::timing::{
    parse_usize, percentile_ns, visible_frame_trace_capacity, VisibleFrameTimingRecorder,
};

#[test]
fn visible_frame_timing_summary_uses_bounded_samples_and_240hz_budget() {
    let mut recorder =
        VisibleFrameTimingRecorder::new("iced", Some("not-written-in-this-test.csv".to_string()), 3);

    recorder.record("iced.draw_present", 1_000_000, 0, None);
    recorder.record("iced.draw_present", 2_000_000, 1, None);
    recorder.record("iced.draw_present", 5_000_000, 2, None);
    recorder.record("iced.draw_present", 6_000_000, 3, None);

    let summary = recorder.summary();
    assert_eq!(summary.backend, "iced");
    assert_eq!(summary.budget_hz, 240);
    assert_eq!(summary.budget_ns, 4_166_666);
    assert!(!summary.budget_passed);
    assert_eq!(summary.over_budget_samples, 2);
    assert!(summary.root_frame_budget_passed);
    assert_eq!(summary.root_frame_over_budget_samples, 0);
    assert_eq!(summary.total_samples, 3);
    assert_eq!(summary.dropped_samples, 1);
    assert_eq!(summary.kinds.len(), 1);
    assert_eq!(summary.kinds[0].kind, "iced.draw_present");
    assert_eq!(summary.kinds[0].samples, 3);
    assert_eq!(summary.kinds[0].p50_ns, 5_000_000);
    assert_eq!(summary.kinds[0].p95_ns, 6_000_000);
    assert_eq!(summary.kinds[0].p99_ns, 6_000_000);
    assert_eq!(summary.kinds[0].max_ns, 6_000_000);
    assert_eq!(summary.kinds[0].over_budget_samples, 2);
}

#[test]
fn summary_orders_kinds_and_counts_root_frames() {
    let mut recorder = VisibleFrameTimingRecorder::new("egui", Some("x".to_string()), 8);
    recorder.record("iced.redraw_requested", 9_000_000, 0, None);
    recorder.record("egui.render_ui", 1_000, 0, None);
    recorder.record("a.first", 7_000_000, 0, None);
    recorder.record("iced.redraw_requested", 3_000_000, 0, None);
    let summary = recorder.summary();
    let kinds: Vec<&str> = summary.kinds.iter().map(|k| k.kind.as_str()).collect();
    assert_eq!(kinds, ["a.first", "egui.render_ui", "iced.redraw_requested"]);
    assert_eq!(summary.over_budget_samples, 2);
    assert_eq!(summary.root_frame_over_budget_samples, 1);
    assert!(!summary.root_frame_budget_passed);
    assert_eq!(summary.kinds[2].samples, 2);
    assert_eq!(summary.kinds[2].p50_ns, 3_000_000);
    assert_eq!(summary.kinds[2].max_ns, 9_000_000);
    assert_eq!(summary.dropped_samples, 0);
}

#[test]
fn disabled_recorder_records_nothing() {
    let mut recorder = VisibleFrameTimingRecorder::disabled("iced");
    assert!(!recorder.is_enabled());
    recorder.record("iced.redraw_requested", 9_000_000, 0, None);
    let summary = recorder.summary();
    assert_eq!(summary.total_samples, 0);
    assert!(summary.budget_passed);
    assert_eq!(summary.capacity, 8192);
}

#[test]
fn percentile_uses_nearest_rank_and_zero_for_empty() {
    assert_eq!(percentile_ns(&[], 50), 0);
    assert_eq!(percentile_ns(&[10, 20, 30, 40], 50), 20);
    assert_eq!(percentile_ns(&[10, 20, 30, 40], 0), 10);
    assert_eq!(percentile_ns(&[10, 20, 30, 40], 99), 40);
    assert_eq!(percentile_ns(&[10, 20, 30, 40], 100), 40);
}

#[test]
fn timing_report_lists_header_kind_summaries_and_sample_rows() {
    let mut recorder = VisibleFrameTimingRecorder::new("iced", Some("report.csv".to_string()), 4);
    let viewport = Size {
        width: Coord { bits: 320.0f32.to_bits() },
        height: Coord { bits: 180.5f32.to_bits() },
    };
    recorder.record("iced.redraw_requested", 1_000, 2, Some(viewport));
    recorder.record("iced.draw_present", 5_000_000, 0, None);
    let summary = recorder.summary();
    let cells: Vec<(String, String)> = recorder
        .samples()
        .iter()
        .map(|sample| match sample.viewport {
            Some(size) => (
                f32::from_bits(size.width.bits).to_string(),
                f32::from_bits(size.height.bits).to_string(),
            ),
            None => (String::new(), String::new()),
        })
        .collect();
    let report = visible_frame_timing_report(&summary, recorder.samples(), &cells);
    assert_eq!(
        report,
        "# slipway-visible-frame-timing version=1 backend=iced budget_hz=240 budget_ns=4166666 \
budget_status=FAIL over_budget_total=1 root_frame_budget_status=PASS root_frame_over_budget_total=0 \
samples=2 dropped=0 capacity=4\n\
# summary kind samples p50_ns p95_ns p99_ns max_ns over_budget\n\
# summary iced.draw_present 1 5000000 5000000 5000000 5000000 1\n\
# summary iced.redraw_requested 1 1000 1000 1000 1000 0\n\
sequence,backend,kind,duration_ns,event_count,viewport_width,viewport_height\n\
0,iced,iced.redraw_requested,1000,2,320,180.5\n\
1,iced,iced.draw_present,5000000,0,,\n"
    );
}

#[test]
fn trace_capacity_settings_parse_as_positive_counts_or_fall_back() {
    assert_eq!(visible_frame_trace_capacity(None), 8192);
    assert_eq!(visible_frame_trace_capacity(Some("16")), 16);
    assert_eq!(visible_frame_trace_capacity(Some("+16")), 16);
    assert_eq!(visible_frame_trace_capacity(Some("0")), 8192);
    assert_eq!(visible_frame_trace_capacity(Some("-1")), 8192);
    assert_eq!(visible_frame_trace_capacity(Some(" 16")), 8192);
    assert_eq!(visible_frame_trace_capacity(Some("")), 8192);
    assert_eq!(visible_frame_trace_capacity(Some("99999999999999999999999")), 8192);
    assert_eq!(parse_usize("+"), None);
    assert_eq!(parse_usize("007"), Some(7));
    assert_eq!(parse_usize(&usize::MAX.to_string()), Some(usize::MAX));
}
