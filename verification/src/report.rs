//! The text report of visible frame timing: a header with the budget
//! verdicts, one summary line per kind, and one CSV row per retained sample.
use vstd::prelude::*;
use std::collections::VecDeque;
use crate::text::{decimal, owned, push_decimal, push_decimal_wide};
use crate::timing::{VisibleFrameTimingKindSummary, VisibleFrameTimingSample, VisibleFrameTimingSummary};

verus! {

pub open spec fn status_word(passed: bool) -> Seq<char> {
    if passed { "PASS"@ } else { "FAIL"@ }
}

/// The two header lines: the run's verdicts and counts, then the column
/// names of the per-kind summary lines.
pub open spec fn report_header(s: VisibleFrameTimingSummary) -> Seq<char> {
    "# slipway-visible-frame-timing version=1 backend="@ + s.backend@
        + " budget_hz="@ + decimal(s.budget_hz as nat)
        + " budget_ns="@ + decimal(s.budget_ns as nat)
        + " budget_status="@ + status_word(s.budget_passed)
        + " over_budget_total="@ + decimal(s.over_budget_samples as nat)
        + " root_frame_budget_status="@ + status_word(s.root_frame_budget_passed)
        + " root_frame_over_budget_total="@ + decimal(s.root_frame_over_budget_samples as nat)
        + " samples="@ + decimal(s.total_samples as nat)
        + " dropped="@ + decimal(s.dropped_samples as nat)
        + " capacity="@ + decimal(s.capacity as nat) + "\n"@
        + "# summary kind samples p50_ns p95_ns p99_ns max_ns over_budget\n"@
}

pub open spec fn kind_line(k: VisibleFrameTimingKindSummary) -> Seq<char> {
    "# summary "@ + k.kind@ + " "@ + decimal(k.samples as nat) + " "@ + decimal(k.p50_ns as nat)
        + " "@ + decimal(k.p95_ns as nat) + " "@ + decimal(k.p99_ns as nat) + " "@ + decimal(k.max_ns as nat)
        + " "@ + decimal(k.over_budget_samples as nat) + "\n"@
}

pub open spec fn kind_lines(kinds: Seq<VisibleFrameTimingKindSummary>) -> Seq<char>
    decreases kinds.len(),
{
    if kinds.len() == 0 {
        Seq::empty()
    } else {
        kind_lines(kinds.drop_last()) + kind_line(kinds.last())
    }
}

pub open spec fn csv_header() -> Seq<char> {
    "sequence,backend,kind,duration_ns,event_count,viewport_width,viewport_height\n"@
}

/// One CSV row; the viewport cells are the sample's viewport width and height
/// as text, or empty when it has none.
pub open spec fn sample_line(backend: Seq<char>, s: VisibleFrameTimingSample, cells: (String, String)) -> Seq<char> {
    decimal(s.sequence as nat) + ","@ + backend + ","@ + s.kind@ + ","@ + decimal(s.duration_ns as nat)
        + ","@ + decimal(s.event_count as nat) + ","@ + cells.0@ + ","@ + cells.1@ + "\n"@
}

pub open spec fn sample_lines(backend: Seq<char>, samples: Seq<VisibleFrameTimingSample>, cells: Seq<(String, String)>) -> Seq<char>
    decreases samples.len(),
{
    if samples.len() == 0 {
        Seq::empty()
    } else {
        sample_lines(backend, samples.drop_last(), cells.drop_last())
            + sample_line(backend, samples.last(), cells[samples.len() - 1])
    }
}

/// The whole report.
pub open spec fn timing_report(s: VisibleFrameTimingSummary, samples: Seq<VisibleFrameTimingSample>, cells: Seq<(String, String)>) -> Seq<char> {
    report_header(s) + kind_lines(s.kinds@) + csv_header() + sample_lines(s.backend@, samples, cells)
}

fn push(out: &mut String, s: &str)
    ensures
        final(out)@ == old(out)@ + s@,
{
    out.append(s);
}

fn push_status(out: &mut String, passed: bool)
    ensures
        final(out)@ == old(out)@ + status_word(passed),
{
    if passed {
        push(out, "PASS");
    } else {
        push(out, "FAIL");
    }
}

fn push_header(out: &mut String, s: &VisibleFrameTimingSummary)
    ensures
        final(out)@ == old(out)@ + report_header(*s),
{
    let ghost start = out@;
    push(out, "# slipway-visible-frame-timing version=1 backend=");
    push(out, s.backend.as_str());
    push(out, " budget_hz=");
    push_decimal(out, s.budget_hz);
    push(out, " budget_ns=");
    push_decimal_wide(out, s.budget_ns);
    push(out, " budget_status=");
    push_status(out, s.budget_passed);
    push(out, " over_budget_total=");
    push_decimal(out, s.over_budget_samples as u64);
    push(out, " root_frame_budget_status=");
    push_status(out, s.root_frame_budget_passed);
    push(out, " root_frame_over_budget_total=");
    push_decimal(out, s.root_frame_over_budget_samples as u64);
    push(out, " samples=");
    push_decimal(out, s.total_samples as u64);
    push(out, " dropped=");
    push_decimal(out, s.dropped_samples);
    push(out, " capacity=");
    push_decimal(out, s.capacity as u64);
    push(out, "\n");
    push(out, "# summary kind samples p50_ns p95_ns p99_ns max_ns over_budget\n");
    assert(out@ =~= start + report_header(*s));
}

fn push_kind_line(out: &mut String, k: &VisibleFrameTimingKindSummary)
    ensures
        final(out)@ == old(out)@ + kind_line(*k),
{
    let ghost start = out@;
    push(out, "# summary ");
    push(out, k.kind.as_str());
    push(out, " ");
    push_decimal(out, k.samples as u64);
    push(out, " ");
    push_decimal_wide(out, k.p50_ns);
    push(out, " ");
    push_decimal_wide(out, k.p95_ns);
    push(out, " ");
    push_decimal_wide(out, k.p99_ns);
    push(out, " ");
    push_decimal_wide(out, k.max_ns);
    push(out, " ");
    push_decimal(out, k.over_budget_samples as u64);
    push(out, "\n");
    assert(out@ =~= start + kind_line(*k));
}

fn push_sample_line(out: &mut String, backend: &str, s: &VisibleFrameTimingSample, cells: &(String, String))
    ensures
        final(out)@ == old(out)@ + sample_line(backend@, *s, *cells),
{
    let ghost start = out@;
    push_decimal(out, s.sequence);
    push(out, ",");
    push(out, backend);
    push(out, ",");
    push(out, s.kind.as_str());
    push(out, ",");
    push_decimal_wide(out, s.duration_ns);
    push(out, ",");
    push_decimal(out, s.event_count as u64);
    push(out, ",");
    push(out, cells.0.as_str());
    push(out, ",");
    push(out, cells.1.as_str());
    push(out, "\n");
    assert(out@ =~= start + sample_line(backend@, *s, *cells));
}

/// The visible frame timing report of a summary and the retained samples;
/// `viewport_cells` holds, per sample, its viewport width and height as text
/// (both empty when the sample has no viewport).
pub fn visible_frame_timing_report(
    summary: &VisibleFrameTimingSummary,
    samples: &VecDeque<VisibleFrameTimingSample>,
    viewport_cells: &Vec<(String, String)>,
) -> (r: String)
    requires
        viewport_cells@.len() == samples@.len(),
    ensures
        r@ == timing_report(*summary, samples@, viewport_cells@),
{
    let mut out = String::new();
    push_header(&mut out, summary);
    let ghost head = out@;
    let mut i: usize = 0;
    while i < summary.kinds.len()
        invariant
            i <= summary.kinds@.len(),
            out@ == head + kind_lines(summary.kinds@.take(i as int)),
        decreases summary.kinds@.len() - i,
    {
        push_kind_line(&mut out, &summary.kinds[i]);
        assert(summary.kinds@.take(i + 1).drop_last() =~= summary.kinds@.take(i as int));
        i += 1;
    }
    assert(summary.kinds@.take(i as int) =~= summary.kinds@);
    push(&mut out, "sequence,backend,kind,duration_ns,event_count,viewport_width,viewport_height\n");
    let ghost rows = out@;
    let mut j: usize = 0;
    while j < samples.len()
        invariant
            j <= samples@.len(),
            viewport_cells@.len() == samples@.len(),
            out@ == rows + sample_lines(summary.backend@, samples@.take(j as int), viewport_cells@.take(j as int)),
        decreases samples@.len() - j,
    {
        push_sample_line(&mut out, summary.backend.as_str(), &samples[j], &viewport_cells[j]);
        assert(samples@.take(j + 1).drop_last() =~= samples@.take(j as int));
        assert(viewport_cells@.take(j + 1).drop_last() =~= viewport_cells@.take(j as int));
        j += 1;
    }
    assert(samples@.take(j as int) =~= samples@);
    assert(viewport_cells@.take(j as int) =~= viewport_cells@);
    out
}

} // verus!
