use vstd::prelude::*;
use std::collections::VecDeque;
use crate::frame::Size;
use crate::sort::{sort_u128, u128_leq};
use vstd::relations::sorted_by;
use crate::text::{lemma_lex_irreflexive, lemma_lex_total, lemma_lex_transitive, lex_lt, owned, str_eq, str_lt};

verus! {

pub const VISIBLE_FRAME_BUDGET_HZ: u64 = 240;

/// The per-frame budget at 240 Hz, in nanoseconds.
pub const VISIBLE_FRAME_BUDGET_NS: u128 = 1_000_000_000 / 240;

pub const DEFAULT_VISIBLE_FRAME_TRACE_CAPACITY: usize = 8192;

/// One recorded visible frame timing sample.
#[derive(Clone, Debug, PartialEq, Eq)]
pub struct VisibleFrameTimingSample {
    pub sequence: u64,
    pub kind: String,
    pub duration_ns: u128,
    pub event_count: usize,
    pub viewport: Option<Size>,
}

/// The timing summary of one sample kind.
#[derive(Clone, Debug, PartialEq, Eq)]
pub struct VisibleFrameTimingKindSummary {
    pub kind: String,
    pub samples: usize,
    pub p50_ns: u128,
    pub p95_ns: u128,
    pub p99_ns: u128,
    pub max_ns: u128,
    pub over_budget_samples: usize,
}

/// The timing summary of every retained sample against the 240 Hz budget.
#[derive(Clone, Debug, PartialEq, Eq)]
pub struct VisibleFrameTimingSummary {
    pub backend: String,
    pub budget_hz: u64,
    pub budget_ns: u128,
    pub budget_passed: bool,
    pub over_budget_samples: usize,
    pub root_frame_budget_passed: bool,
    pub root_frame_over_budget_samples: usize,
    pub capacity: usize,
    pub dropped_samples: u64,
    pub total_samples: usize,
    pub kinds: Vec<VisibleFrameTimingKindSummary>,
}

/// A bounded ring of visible frame timing samples; recording is enabled
/// exactly when an output path is configured.
pub struct VisibleFrameTimingRecorder {
    backend: String,
    path: Option<String>,
    capacity: usize,
    samples: VecDeque<VisibleFrameTimingSample>,
    next_sequence: u64,
    dropped_samples: u64,
}

pub open spec fn root_kind_a() -> Seq<char> {
    "iced.redraw_requested"@
}

pub open spec fn root_kind_b() -> Seq<char> {
    "egui.render_ui"@
}

pub open spec fn is_root_kind(kind: Seq<char>) -> bool {
    kind == root_kind_a() || kind == root_kind_b()
}

/// Whether a sample kind times a whole visible root frame.
pub fn is_visible_root_frame_timing_kind(kind: &str) -> (r: bool)
    ensures
        r == is_root_kind(kind@),
{
    str_eq(kind, "iced.redraw_requested") || str_eq(kind, "egui.render_ui")
}

/// The index `percentile_ns` reads: the nearest-rank position, clamped into the slice.
pub open spec fn percentile_index(len: nat, percentile: nat) -> int {
    let product = if len * percentile > usize::MAX { usize::MAX as nat } else { len * percentile };
    let rank = if product % 100 == 0 { product / 100 } else { product / 100 + 1 };
    if rank == 0 { 0 } else if rank - 1 < len - 1 { rank - 1 } else { len - 1 }
}

pub open spec fn percentile_of(sorted: Seq<u128>, percentile: nat) -> u128 {
    if sorted.len() == 0 { 0 } else { sorted[percentile_index(sorted.len(), percentile)] }
}

/// The nearest-rank percentile of ascending samples; 0 for no samples.
pub fn percentile_ns(sorted: &[u128], percentile: usize) -> (r: u128)
    ensures
        r == percentile_of(sorted@, percentile as nat),
{
    let len = sorted.len();
    if len == 0 {
        return 0;
    }
    let product: usize = if percentile != 0 && len > usize::MAX / percentile {
        usize::MAX
    } else {
        proof {
            if percentile != 0 {
                assert(len * percentile <= usize::MAX) by (nonlinear_arith)
                    requires
                        len <= usize::MAX / percentile,
                        percentile > 0,
                ;
            }
        }
        len * percentile
    };
    proof {
        if percentile != 0 && len > usize::MAX / percentile {
            assert(len * percentile > usize::MAX) by (nonlinear_arith)
                requires
                    len > usize::MAX / percentile,
                    percentile > 0,
            ;
        }
    }
    let rank = if product % 100 == 0 { product / 100 } else { product / 100 + 1 };
    let index = if rank == 0 { 0 } else if rank - 1 < len - 1 { rank - 1 } else { len - 1 };
    sorted[index]
}

/// The durations of the samples of one kind, in recording order.
pub open spec fn durations_of(samples: Seq<VisibleFrameTimingSample>, kind: Seq<char>) -> Seq<u128>
    decreases samples.len(),
{
    if samples.len() == 0 {
        seq![]
    } else {
        let rest = durations_of(samples.drop_last(), kind);
        if samples.last().kind@ == kind { rest.push(samples.last().duration_ns) } else { rest }
    }
}

/// How many durations exceed the budget.
pub open spec fn count_over_budget(d: Seq<u128>) -> nat
    decreases d.len(),
{
    if d.len() == 0 {
        0
    } else {
        count_over_budget(d.drop_last()) + if d.last() > VISIBLE_FRAME_BUDGET_NS { 1nat } else { 0nat }
    }
}

/// How many root-frame samples exceed the budget.
pub open spec fn count_root_over_budget(samples: Seq<VisibleFrameTimingSample>) -> nat
    decreases samples.len(),
{
    if samples.len() == 0 {
        0
    } else {
        count_root_over_budget(samples.drop_last()) + if is_root_kind(samples.last().kind@)
            && samples.last().duration_ns > VISIBLE_FRAME_BUDGET_NS { 1nat } else { 0nat }
    }
}

/// The kinds are the distinct sample kinds, each once, in ascending order.
pub open spec fn kinds_exact(kinds: Seq<Seq<char>>, samples: Seq<VisibleFrameTimingSample>) -> bool {
    &&& forall|i: int, j: int| 0 <= i < j < kinds.len() ==> lex_lt(#[trigger] kinds[i], #[trigger] kinds[j])
    &&& forall|i: int| 0 <= i < samples.len() ==> kinds.contains(#[trigger] samples[i].kind@)
    &&& forall|i: int| #![trigger kinds[i]] 0 <= i < kinds.len() ==> exists|j: int| 0 <= j < samples.len() && #[trigger] samples[j].kind@ == kinds[i]
}

/// A kind summary reports exactly the samples of its kind.
pub open spec fn kind_summary_exact(k: VisibleFrameTimingKindSummary, samples: Seq<VisibleFrameTimingSample>) -> bool {
    let d = durations_of(samples, k.kind@).sort_by(u128_leq());
    &&& k.samples == d.len()
    &&& k.p50_ns == percentile_of(d, 50)
    &&& k.p95_ns == percentile_of(d, 95)
    &&& k.p99_ns == percentile_of(d, 99)
    &&& k.max_ns == (if d.len() == 0 { 0 } else { d.last() })
    &&& k.over_budget_samples == count_over_budget(durations_of(samples, k.kind@))
}

pub open spec fn sum_over_budget(kinds: Seq<VisibleFrameTimingKindSummary>) -> nat
    decreases kinds.len(),
{
    if kinds.len() == 0 { 0 } else { sum_over_budget(kinds.drop_last()) + kinds.last().over_budget_samples as nat }
}

pub open spec fn views(v: Seq<String>) -> Seq<Seq<char>> {
    v.map_values(|s: String| s@)
}

pub open spec fn summary_kind_names(v: Seq<VisibleFrameTimingKindSummary>) -> Seq<Seq<char>> {
    v.map_values(|k: VisibleFrameTimingKindSummary| k.kind@)
}

/// The number of samples over budget, whatever their kind.
pub open spec fn count_all_over_budget(samples: Seq<VisibleFrameTimingSample>) -> nat
    decreases samples.len(),
{
    if samples.len() == 0 {
        0
    } else {
        count_all_over_budget(samples.drop_last()) + if samples.last().duration_ns > VISIBLE_FRAME_BUDGET_NS { 1nat } else { 0nat }
    }
}

/// Sum of the over-budget counts of each kind in `kinds`.
pub open spec fn sum_kind_over(kinds: Seq<Seq<char>>, samples: Seq<VisibleFrameTimingSample>) -> nat
    decreases kinds.len(),
{
    if kinds.len() == 0 {
        0
    } else {
        sum_kind_over(kinds.drop_last(), samples) + count_over_budget(durations_of(samples, kinds.last()))
    }
}

pub open spec fn indicator_count(kinds: Seq<Seq<char>>, k: Seq<char>) -> nat
    decreases kinds.len(),
{
    if kinds.len() == 0 {
        0
    } else {
        indicator_count(kinds.drop_last(), k) + if kinds.last() == k { 1nat } else { 0nat }
    }
}

proof fn lemma_indicator_distinct(kinds: Seq<Seq<char>>, k: Seq<char>)
    requires
        kinds.no_duplicates(),
    ensures
        indicator_count(kinds, k) == if kinds.contains(k) { 1nat } else { 0nat },
    decreases kinds.len(),
{
    if kinds.len() > 0 {
        let init = kinds.drop_last();
        assert(init.no_duplicates());
        lemma_indicator_distinct(init, k);
        if kinds.last() == k {
            assert(!init.contains(k)) by {
                if init.contains(k) {
                    let i = choose|i: int| 0 <= i < init.len() && init[i] == k;
                    assert(kinds[i] == kinds[kinds.len() - 1]);
                }
            }
            assert(kinds.contains(k)) by {
                assert(kinds[kinds.len() - 1] == k);
            }
        } else {
            assert(kinds.contains(k) == init.contains(k)) by {
                if kinds.contains(k) {
                    let i = choose|i: int| 0 <= i < kinds.len() && kinds[i] == k;
                    assert(i < kinds.len() - 1);
                    assert(init[i] == k);
                }
                if init.contains(k) {
                    let i = choose|i: int| 0 <= i < init.len() && init[i] == k;
                    assert(kinds[i] == k);
                }
            }
        }
    }
}

/// Adding one sample raises exactly the count of its own kind.
proof fn lemma_sum_kind_over_push(
    kinds: Seq<Seq<char>>,
    samples: Seq<VisibleFrameTimingSample>,
    x: VisibleFrameTimingSample,
)
    ensures
        sum_kind_over(kinds, samples.push(x)) == sum_kind_over(kinds, samples) + indicator_count(
            kinds,
            x.kind@,
        ) * (if x.duration_ns > VISIBLE_FRAME_BUDGET_NS { 1nat } else { 0nat }),
    decreases kinds.len(),
{
    if kinds.len() > 0 {
        lemma_sum_kind_over_push(kinds.drop_last(), samples, x);
        assert(samples.push(x).drop_last() =~= samples);
        let k = kinds.last();
        let d = durations_of(samples, k);
        if x.kind@ == k {
            assert(durations_of(samples.push(x), k) == d.push(x.duration_ns));
            assert(d.push(x.duration_ns).drop_last() =~= d);
        } else {
            assert(durations_of(samples.push(x), k) == d);
        }
        let over: nat = if x.duration_ns > VISIBLE_FRAME_BUDGET_NS { 1nat } else { 0nat };
        let a = indicator_count(kinds.drop_last(), x.kind@);
        let b: nat = if kinds.last() == x.kind@ { 1nat } else { 0nat };
        assert((a + b) * over == a * over + b * over) by (nonlinear_arith);
    }
}

/// Summing the per-kind over-budget counts over the distinct kinds of the
/// samples counts every over-budget sample exactly once.
pub proof fn lemma_kind_counts_partition(
    kinds: Seq<Seq<char>>,
    samples: Seq<VisibleFrameTimingSample>,
)
    requires
        kinds.no_duplicates(),
        forall|i: int| 0 <= i < samples.len() ==> kinds.contains(#[trigger] samples[i].kind@),
    ensures
        sum_kind_over(kinds, samples) == count_all_over_budget(samples),
    decreases samples.len(),
{
    if samples.len() == 0 {
        lemma_sum_kind_over_empty(kinds, samples);
    } else {
        let init = samples.drop_last();
        let x = samples.last();
        assert forall|i: int| 0 <= i < init.len() implies kinds.contains(#[trigger] init[i].kind@) by {
            assert(init[i] == samples[i]);
        }
        lemma_kind_counts_partition(kinds, init);
        assert(init.push(x) =~= samples);
        lemma_sum_kind_over_push(kinds, init, x);
        assert(kinds.contains(samples[samples.len() - 1].kind@));
        lemma_indicator_distinct(kinds, x.kind@);
    }
}

proof fn lemma_sum_kind_over_empty(kinds: Seq<Seq<char>>, samples: Seq<VisibleFrameTimingSample>)
    requires
        samples.len() == 0,
    ensures
        sum_kind_over(kinds, samples) == 0,
    decreases kinds.len(),
{
    if kinds.len() > 0 {
        lemma_sum_kind_over_empty(kinds.drop_last(), samples);
    }
}

proof fn lemma_count_all_bounded(samples: Seq<VisibleFrameTimingSample>)
    ensures
        count_all_over_budget(samples) <= samples.len(),
    decreases samples.len(),
{
    if samples.len() > 0 {
        lemma_count_all_bounded(samples.drop_last());
    }
}

proof fn lemma_sorted_strict_no_dup(kinds: Seq<Seq<char>>)
    requires
        forall|i: int, j: int| 0 <= i < j < kinds.len() ==> lex_lt(#[trigger] kinds[i], #[trigger] kinds[j]),
    ensures
        kinds.no_duplicates(),
{
    assert forall|i: int, j: int| 0 <= i < kinds.len() && 0 <= j < kinds.len() && i != j implies kinds[i] != kinds[j] by {
        if i < j {
            assert(lex_lt(kinds[i], kinds[j]));
        } else {
            assert(lex_lt(kinds[j], kinds[i]));
        }
        lemma_lex_irreflexive(kinds[i]);
    }
}

proof fn lemma_sum_kind_over_prefix(kinds: Seq<Seq<char>>, samples: Seq<VisibleFrameTimingSample>, m: int)
    requires
        0 <= m <= kinds.len(),
    ensures
        sum_kind_over(kinds.take(m), samples) <= sum_kind_over(kinds, samples),
    decreases kinds.len(),
{
    if m < kinds.len() {
        assert(kinds.drop_last().take(m) =~= kinds.take(m));
        lemma_sum_kind_over_prefix(kinds.drop_last(), samples, m);
    } else {
        assert(kinds.take(m) =~= kinds);
    }
}

/// The value of a string of decimal digits.
pub open spec fn digits_value(s: Seq<char>) -> int
    decreases s.len(),
{
    if s.len() == 0 {
        0
    } else {
        digits_value(s.drop_last()) * 10 + (s.last() as int - '0' as int)
    }
}

pub open spec fn all_digits(s: Seq<char>) -> bool {
    forall|i: int| 0 <= i < s.len() ==> '0' <= #[trigger] s[i] && s[i] <= '9'
}

/// What `usize::from_str` accepts: an optional `+`, then one or more digits
/// whose value fits `usize`.
pub open spec fn parsed_usize(s: Seq<char>) -> Option<nat> {
    let body = if s.len() > 0 && s[0] == '+' { s.skip(1) } else { s };
    if body.len() > 0 && all_digits(body) && digits_value(body) <= usize::MAX {
        Some(digits_value(body) as nat)
    } else {
        None
    }
}

/// The trace capacity a setting asks for: its value when it parses as a
/// positive count, and the default otherwise.
pub open spec fn trace_capacity(setting: Option<Seq<char>>) -> nat {
    match setting {
        Some(s) => match parsed_usize(s) {
            Some(n) => if n > 0 { n } else { DEFAULT_VISIBLE_FRAME_TRACE_CAPACITY as nat },
            None => DEFAULT_VISIBLE_FRAME_TRACE_CAPACITY as nat,
        },
        None => DEFAULT_VISIBLE_FRAME_TRACE_CAPACITY as nat,
    }
}

proof fn lemma_digits_value_nonneg(s: Seq<char>)
    requires
        all_digits(s),
    ensures
        digits_value(s) >= 0,
    decreases s.len(),
{
    if s.len() > 0 {
        assert(all_digits(s.drop_last()));
        lemma_digits_value_nonneg(s.drop_last());
    }
}

proof fn lemma_digits_value_grows(s: Seq<char>, n: int)
    requires
        all_digits(s),
        0 <= n <= s.len(),
    ensures
        digits_value(s.take(n)) <= digits_value(s),
    decreases s.len() - n,
{
    if n < s.len() {
        lemma_digits_value_grows(s, n + 1);
        assert(s.take(n + 1).drop_last() =~= s.take(n));
        assert(all_digits(s.take(n)));
        lemma_digits_value_nonneg(s.take(n));
        assert(s.take(n + 1).last() == s[n]);
    } else {
        assert(s.take(n) =~= s);
    }
}

proof fn lemma_prefix_overflow_rejects(body: Seq<char>, k: int)
    requires
        0 <= k <= body.len(),
        digits_value(body.take(k)) > usize::MAX,
    ensures
        !(all_digits(body) && digits_value(body) <= usize::MAX),
{
    if all_digits(body) {
        lemma_digits_value_grows(body, k);
    }
}

/// Parses a decimal count as `usize::from_str` does.
pub fn parse_usize(s: &str) -> (r: Option<usize>)
    ensures
        match parsed_usize(s@) {
            Some(n) => r == Some(n as usize),
            None => r is None,
        },
{
    let n = s.unicode_len();
    let mut start: usize = 0;
    if n > 0 && s.get_char(0) == '+' {
        start = 1;
    }
    let ghost body = if s@.len() > 0 && s@[0] == '+' { s@.skip(1) } else { s@ };
    assert(body =~= s@.skip(start as int));
    if start >= n {
        return None;
    }
    let mut value: usize = 0;
    let mut i: usize = start;
    assert(body.take(0) =~= Seq::<char>::empty());
    while i < n
        invariant
            n == s@.len(),
            start <= i <= n,
            body =~= s@.skip(start as int),
            body == (if s@.len() > 0 && s@[0] == '+' { s@.skip(1) } else { s@ }),
            all_digits(body.take(i - start)),
            value == digits_value(body.take(i - start)),
        decreases n - i,
    {
        let c = s.get_char(i);
        assert(body[i - start] == c);
        if c < '0' || c > '9' {
            assert(!all_digits(body));
            return None;
        }
        let d = (c as u32 - '0' as u32) as usize;
        let ghost k: int = i - start + 1;
        assert(body.take(k).drop_last() =~= body.take(k - 1));
        assert(body.take(k).last() == c);
        assert(all_digits(body.take(k)));
        assert(digits_value(body.take(k)) == value * 10 + d);
        match value.checked_mul(10) {
            Some(t) => match t.checked_add(d) {
                Some(v) => value = v,
                None => {
                    proof {
                        lemma_prefix_overflow_rejects(body, k);
                    }
                    return None;
                },
            },
            None => {
                proof {
                    lemma_prefix_overflow_rejects(body, k);
                }
                return None;
            },
        }
        i += 1;
    }
    assert(body.take(i - start) =~= body);
    Some(value)
}

/// The trace capacity of a setting: a positive count when it parses as one,
/// and the default otherwise.
pub fn visible_frame_trace_capacity(setting: Option<&str>) -> (r: usize)
    ensures
        r == trace_capacity(match setting {
            Some(s) => Some(s@),
            None => None::<Seq<char>>,
        }),
        r > 0,
{
    match setting {
        Some(s) => {
            let parsed = parse_usize(s);
            proof {
                let body = if s@.len() > 0 && s@[0] == '+' { s@.skip(1) } else { s@ };
                if all_digits(body) {
                    lemma_digits_value_nonneg(body);
                }
                if let Some(m) = parsed_usize(s@) {
                    assert(m <= usize::MAX);
                    assert(parsed == Some(m as usize));
                }
            }
            match parsed {
                Some(n) => if n > 0 { n } else { DEFAULT_VISIBLE_FRAME_TRACE_CAPACITY },
                None => DEFAULT_VISIBLE_FRAME_TRACE_CAPACITY,
            }
        },
        None => DEFAULT_VISIBLE_FRAME_TRACE_CAPACITY,
    }
}

proof fn lemma_percentile_index_monotone(len: nat, p: nat, q: nat)
    requires
        len > 0,
        p <= q,
    ensures
        0 <= percentile_index(len, p) <= percentile_index(len, q) < len,
{
    assert(len * p <= len * q) by (nonlinear_arith)
        requires
            p <= q,
    ;
    let pp = if len * p > usize::MAX { usize::MAX as nat } else { len * p };
    let pq = if len * q > usize::MAX { usize::MAX as nat } else { len * q };
    assert(pp <= pq);
    let rp = if pp % 100 == 0 { pp / 100 } else { pp / 100 + 1 };
    let rq = if pq % 100 == 0 { pq / 100 } else { pq / 100 + 1 };
    assert(rp <= rq) by (nonlinear_arith)
        requires
            pp <= pq,
            rp == if pp % 100 == 0 { pp / 100 } else { pp / 100 + 1 },
            rq == if pq % 100 == 0 { pq / 100 } else { pq / 100 + 1 },
    ;
}

/// Each kind's reported percentiles are ordered: the median is at most the
/// 95th percentile, which is at most the 99th, which is at most the maximum.
pub proof fn lemma_kind_percentiles_ordered(k: VisibleFrameTimingKindSummary, samples: Seq<VisibleFrameTimingSample>)
    requires
        kind_summary_exact(k, samples),
    ensures
        k.p50_ns <= k.p95_ns,
        k.p95_ns <= k.p99_ns,
        k.p99_ns <= k.max_ns,
{
    let d = durations_of(samples, k.kind@).sort_by(u128_leq());
    crate::sort::lemma_u128_leq_total();
    durations_of(samples, k.kind@).lemma_sort_by_ensures(u128_leq());
    assert(sorted_by(d, u128_leq()));
    if d.len() > 0 {
        let n = d.len();
        lemma_percentile_index_monotone(n, 50, 95);
        lemma_percentile_index_monotone(n, 95, 99);
        lemma_percentile_index_monotone(n, 99, 100);
        let i50 = percentile_index(n, 50);
        let i95 = percentile_index(n, 95);
        let i99 = percentile_index(n, 99);
        if i50 < i95 {
            assert(u128_leq()(d[i50], d[i95]));
        }
        if i95 < i99 {
            assert(u128_leq()(d[i95], d[i99]));
        }
        if i99 < n - 1 {
            assert(u128_leq()(d[i99], d[n - 1]));
        }
    }
}

impl VisibleFrameTimingRecorder {
    pub closed spec fn samples_view(&self) -> Seq<VisibleFrameTimingSample> {
        self.samples@
    }

    pub closed spec fn capacity_view(&self) -> nat {
        self.capacity as nat
    }

    pub closed spec fn enabled_view(&self) -> bool {
        self.path is Some
    }

    pub closed spec fn path_view(&self) -> Option<Seq<char>> {
        match self.path {
            Some(p) => Some(p@),
            None => None,
        }
    }

    pub closed spec fn backend_view(&self) -> Seq<char> {
        self.backend@
    }

    pub closed spec fn next_sequence_view(&self) -> u64 {
        self.next_sequence
    }

    pub closed spec fn dropped_view(&self) -> u64 {
        self.dropped_samples
    }

    /// The ring never holds more samples than its positive capacity.
    pub closed spec fn wf(&self) -> bool {
        &&& self.capacity > 0
        &&& self.samples@.len() <= self.capacity
    }

    /// A recorder writing to `path` (when given) that keeps at most `capacity` samples.
    pub fn new(backend: &str, path: Option<String>, capacity: usize) -> (r: Self)
        requires
            capacity > 0,
        ensures
            r.wf(),
            r.backend_view() == backend@,
            r.enabled_view() == path is Some,
            r.path_view() == (match path { Some(p) => Some(p@), None => None::<Seq<char>> }),
            r.capacity_view() == capacity,
            r.samples_view() == Seq::<VisibleFrameTimingSample>::empty(),
            r.next_sequence_view() == 0,
            r.dropped_view() == 0,
    {
        VisibleFrameTimingRecorder {
            backend: owned(backend),
            path,
            capacity,
            samples: VecDeque::new(),
            next_sequence: 0,
            dropped_samples: 0,
        }
    }

    /// A recorder that records nothing.
    pub fn disabled(backend: &str) -> (r: Self)
        ensures
            r.wf(),
            r.backend_view() == backend@,
            !r.enabled_view(),
            r.capacity_view() == DEFAULT_VISIBLE_FRAME_TRACE_CAPACITY,
            r.samples_view() == Seq::<VisibleFrameTimingSample>::empty(),
            r.next_sequence_view() == 0,
            r.dropped_view() == 0,
    {
        Self::new(backend, None, DEFAULT_VISIBLE_FRAME_TRACE_CAPACITY)
    }

    pub fn is_enabled(&self) -> (r: bool)
        ensures
            r == self.enabled_view(),
    {
        self.path.is_some()
    }

    /// The configured output path.
    pub fn path(&self) -> (r: Option<&String>)
        ensures
            r is Some == self.enabled_view(),
            r matches Some(p) ==> self.path_view() == Some(p@),
    {
        match &self.path {
            Some(p) => Some(p),
            None => None,
        }
    }

    pub fn backend(&self) -> (r: &str)
        ensures
            r@ == self.backend_view(),
    {
        self.backend.as_str()
    }

    /// The retained samples, oldest first.
    pub fn samples(&self) -> (r: &VecDeque<VisibleFrameTimingSample>)
        ensures
            r@ == self.samples_view(),
    {
        &self.samples
    }

    /// Records one sample when enabled; a full ring drops its oldest sample first.
    pub fn record(&mut self, kind: &str, duration_ns: u128, event_count: usize, viewport: Option<Size>)
        requires
            old(self).wf(),
            old(self).enabled_view() && old(self).samples_view().len() == old(self).capacity_view()
                ==> old(self).dropped_view() < u64::MAX,
        ensures
            final(self).wf(),
            final(self).backend_view() == old(self).backend_view(),
            final(self).path_view() == old(self).path_view(),
            final(self).enabled_view() == old(self).enabled_view(),
            final(self).capacity_view() == old(self).capacity_view(),
            !old(self).enabled_view() ==> final(self).samples_view() == old(self).samples_view()
                && final(self).next_sequence_view() == old(self).next_sequence_view()
                && final(self).dropped_view() == old(self).dropped_view(),
            old(self).enabled_view() ==> {
                let full = old(self).samples_view().len() == old(self).capacity_view();
                let kept = if full { old(self).samples_view().drop_first() } else { old(self).samples_view() };
                &&& final(self).samples_view().len() == kept.len() + 1
                &&& final(self).samples_view().drop_last() == kept
                &&& final(self).samples_view().last().sequence == old(self).next_sequence_view()
                &&& final(self).samples_view().last().kind@ == kind@
                &&& final(self).samples_view().last().duration_ns == duration_ns
                &&& final(self).samples_view().last().event_count == event_count
                &&& final(self).samples_view().last().viewport == viewport
                &&& final(self).dropped_view() == old(self).dropped_view() + if full { 1int } else { 0int }
                &&& final(self).next_sequence_view() == if old(self).next_sequence_view() == u64::MAX {
                    u64::MAX as int
                } else {
                    old(self).next_sequence_view() + 1
                }
            },
    {
        if self.path.is_none() {
            return;
        }
        let ghost old_samples = self.samples@;
        if self.samples.len() == self.capacity {
            let _ = self.samples.pop_front();
            self.dropped_samples = self.dropped_samples + 1;
        }
        let ghost kept = self.samples@;
        let sequence = self.next_sequence;
        self.next_sequence = if self.next_sequence == u64::MAX { u64::MAX } else { self.next_sequence + 1 };
        self.samples.push_back(
            VisibleFrameTimingSample { sequence, kind: owned(kind), duration_ns, event_count, viewport },
        );
        assert(self.samples@.drop_last() =~= kept);
        assert(old_samples.len() == self.capacity ==> kept =~= old_samples.drop_first());
    }

    /// Summarises the retained samples per kind (kinds in ascending order)
    /// against the 240 Hz budget.
    pub fn summary(&self) -> (r: VisibleFrameTimingSummary)
        requires
            self.wf(),
        ensures
            r.backend@ == self.backend_view(),
            r.budget_hz == VISIBLE_FRAME_BUDGET_HZ,
            r.budget_ns == VISIBLE_FRAME_BUDGET_NS,
            r.capacity == self.capacity_view(),
            r.dropped_samples == self.dropped_view(),
            r.total_samples == self.samples_view().len(),
            kinds_exact(summary_kind_names(r.kinds@), self.samples_view()),
            forall|i: int| 0 <= i < r.kinds@.len() ==> kind_summary_exact(#[trigger] r.kinds@[i], self.samples_view()),
            r.over_budget_samples == sum_over_budget(r.kinds@),
            r.over_budget_samples == count_all_over_budget(self.samples_view()),
            r.budget_passed == (r.over_budget_samples == 0),
            r.root_frame_over_budget_samples == count_root_over_budget(self.samples_view()),
            r.root_frame_budget_passed == (r.root_frame_over_budget_samples == 0),
    {
        let ghost samples = self.samples@;
        let n = self.samples.len();
        let mut kinds: Vec<String> = Vec::new();
        let mut i: usize = 0;
        while i < n
            invariant
                n == samples.len(),
                samples == self.samples@,
                i <= n,
                forall|a: int, b: int| 0 <= a < b < kinds@.len() ==> lex_lt(#[trigger] views(kinds@)[a], #[trigger] views(kinds@)[b]),
                forall|j: int| 0 <= j < i ==> views(kinds@).contains(#[trigger] samples[j].kind@),
                forall|m: int| #![trigger views(kinds@)[m]] 0 <= m < kinds@.len() ==> exists|j: int| 0 <= j < i && #[trigger] samples[j].kind@ == views(kinds@)[m],
            decreases n - i,
        {
            let kind = self.samples[i].kind.as_str();
            let mut p: usize = 0;
            while p < kinds.len() && str_lt(kinds[p].as_str(), kind)
                invariant
                    p <= kinds@.len(),
                    forall|q: int| 0 <= q < p ==> lex_lt(#[trigger] views(kinds@)[q], kind@),
                decreases kinds@.len() - p,
            {
                p += 1;
            }
            let ghost before = kinds@;
            if p < kinds.len() && str_eq(kinds[p].as_str(), kind) {
                assert(views(kinds@)[p as int] == kind@);
                assert forall|j: int| 0 <= j < i + 1 implies views(kinds@).contains(#[trigger] samples[j].kind@) by {
                    if j == i {
                        assert(views(kinds@)[p as int] == samples[j].kind@);
                    }
                }
                assert forall|m: int| #![trigger views(kinds@)[m]] 0 <= m < kinds@.len() implies exists|j: int| 0 <= j < i + 1 && #[trigger] samples[j].kind@ == views(kinds@)[m] by {
                    let j = choose|j: int| 0 <= j < i && #[trigger] samples[j].kind@ == views(kinds@)[m];
                }
            } else {
                proof {
                    if p < before.len() {
                        lemma_lex_total(views(before)[p as int], kind@);
                    }
                }
                kinds.insert(p, owned(kind));
                proof {
                    let vb = views(before);
                    let va = views(kinds@);
                    assert(kinds@ =~= before.insert(p as int, kinds@[p as int]));
                    assert(va.len() == vb.len() + 1);
                    assert forall|q: int| 0 <= q < va.len() implies #[trigger] va[q] == if q < p { vb[q] } else if q == p { kind@ } else { vb[q - 1] } by {}
                    assert forall|a: int, b: int| 0 <= a < b < va.len() implies lex_lt(#[trigger] va[a], #[trigger] va[b]) by {
                        if b < p {
                            assert(lex_lt(vb[a], vb[b]));
                        } else if b == p {
                        } else if a < p {
                            assert(lex_lt(vb[a], kind@));
                            assert(lex_lt(kind@, vb[p as int]));
                            if b - 1 > p {
                                assert(lex_lt(vb[p as int], vb[b - 1]));
                                lemma_lex_transitive(kind@, vb[p as int], vb[b - 1]);
                            }
                            lemma_lex_transitive(vb[a], kind@, vb[b - 1]);
                        } else if a == p {
                            assert(lex_lt(kind@, vb[p as int]));
                            if b - 1 > p {
                                assert(lex_lt(vb[p as int], vb[b - 1]));
                                lemma_lex_transitive(kind@, vb[p as int], vb[b - 1]);
                            }
                        } else {
                            assert(lex_lt(vb[a - 1], vb[b - 1]));
                        }
                    }
                    assert forall|j: int| 0 <= j < i + 1 implies va.contains(#[trigger] samples[j].kind@) by {
                        if j == i {
                            assert(va[p as int] == samples[j].kind@);
                        } else {
                            assert(vb.contains(samples[j].kind@));
                            let q = choose|q: int| 0 <= q < vb.len() && vb[q] == samples[j].kind@;
                            if q < p {
                                assert(va[q] == vb[q]);
                            } else {
                                assert(va[q + 1] == vb[q]);
                            }
                        }
                    }
                    assert forall|m: int| #![trigger va[m]] 0 <= m < va.len() implies exists|j: int| 0 <= j < i + 1 && #[trigger] samples[j].kind@ == va[m] by {
                        if m == p {
                            assert(samples[i as int].kind@ == va[m]);
                        } else if m < p {
                            assert(va[m] == vb[m]);
                            let j = choose|j: int| 0 <= j < i && #[trigger] samples[j].kind@ == vb[m];
                        } else {
                            assert(va[m] == vb[m - 1]);
                            let j = choose|j: int| 0 <= j < i && #[trigger] samples[j].kind@ == vb[m - 1];
                        }
                    }
                }
            }
            i += 1;
        }
        let ghost kind_views = views(kinds@);
        proof {
            lemma_sorted_strict_no_dup(kind_views);
            lemma_kind_counts_partition(kind_views, samples);
            lemma_count_all_bounded(samples);
        }
        let mut out: Vec<VisibleFrameTimingKindSummary> = Vec::new();
        let mut total_over: usize = 0;
        let mut m: usize = 0;
        while m < kinds.len()
            invariant
                n == samples.len(),
                samples == self.samples@,
                kind_views == views(kinds@),
                m <= kinds@.len(),
                out@.len() == m,
                forall|q: int| 0 <= q < m ==> (#[trigger] out@[q]).kind@ == kind_views[q],
                forall|q: int| 0 <= q < m ==> kind_summary_exact(#[trigger] out@[q], samples),
                total_over == sum_over_budget(out@),
                sum_over_budget(out@) == sum_kind_over(kind_views.take(m as int), samples),
                sum_kind_over(kind_views, samples) == count_all_over_budget(samples),
                count_all_over_budget(samples) <= n,
            decreases kinds@.len() - m,
        {
            let kind = kinds[m].as_str();
            let mut d: Vec<u128> = Vec::new();
            let mut over: usize = 0;
            let mut j: usize = 0;
            while j < n
                invariant
                    n == samples.len(),
                    samples == self.samples@,
                    j <= n,
                    d@ == durations_of(samples.take(j as int), kind@),
                    over == count_over_budget(d@),
                    over <= d@.len(),
                    d@.len() <= j,
                decreases n - j,
            {
                let sample = &self.samples[j];
                proof {
                    assert(samples.take(j + 1).drop_last() =~= samples.take(j as int));
                    assert(samples.take(j + 1).last() == samples[j as int]);
                }
                if str_eq(sample.kind.as_str(), kind) {
                    let ghost before = d@;
                    d.push(sample.duration_ns);
                    assert(d@.drop_last() =~= before);
                    if sample.duration_ns > VISIBLE_FRAME_BUDGET_NS {
                        over = over + 1;
                    }
                }
                j += 1;
            }
            proof {
                assert(samples.take(n as int) =~= samples);
            }
            let sorted = sort_u128(&d);
            let len = sorted.len();
            let p50 = percentile_ns(sorted.as_slice(), 50);
            let p95 = percentile_ns(sorted.as_slice(), 95);
            let p99 = percentile_ns(sorted.as_slice(), 99);
            let max_ns = if len == 0 { 0 } else { sorted[len - 1] };
            proof {
                assert(kind_views.take(m + 1).drop_last() =~= kind_views.take(m as int));
                assert(kind_views.take(m + 1).last() == kind@);
                lemma_sum_kind_over_prefix(kind_views, samples, m + 1);
            }
            let ghost before_out = out@;
            out.push(VisibleFrameTimingKindSummary {
                kind: kinds[m].clone(),
                samples: len,
                p50_ns: p50,
                p95_ns: p95,
                p99_ns: p99,
                max_ns,
                over_budget_samples: over,
            });
            assert(out@.drop_last() =~= before_out);
            total_over = total_over + over;
            m += 1;
        }
        proof {
            assert(kind_views.take(kinds@.len() as int) =~= kind_views);
            assert(summary_kind_names(out@) =~= kind_views);
        }
        let mut root_over: usize = 0;
        let mut j: usize = 0;
        while j < n
            invariant
                n == samples.len(),
                samples == self.samples@,
                j <= n,
                root_over == count_root_over_budget(samples.take(j as int)),
                root_over <= j,
            decreases n - j,
        {
            let sample = &self.samples[j];
            proof {
                assert(samples.take(j + 1).drop_last() =~= samples.take(j as int));
                assert(samples.take(j + 1).last() == samples[j as int]);
            }
            if is_visible_root_frame_timing_kind(sample.kind.as_str()) && sample.duration_ns > VISIBLE_FRAME_BUDGET_NS {
                root_over = root_over + 1;
            }
            j += 1;
        }
        proof {
            assert(samples.take(n as int) =~= samples);
        }
        VisibleFrameTimingSummary {
            backend: self.backend.clone(),
            budget_hz: VISIBLE_FRAME_BUDGET_HZ,
            budget_ns: VISIBLE_FRAME_BUDGET_NS,
            budget_passed: total_over == 0,
            over_budget_samples: total_over,
            root_frame_budget_passed: root_over == 0,
            root_frame_over_budget_samples: root_over,
            capacity: self.capacity,
            dropped_samples: self.dropped_samples,
            total_samples: n,
            kinds: out,
        }
    }
}

} // verus!
