//! The yield accumulator: cumulative run statistics and the tick rule that
//! advances them.
//!
//! Every tick is driven by one integer draw `r` in `[0, 100)`. The update is a
//! pure function of the prior state and the draw: bursty, threshold-gated
//! growth with fixed multipliers. Two fields of the protocol are fractions and
//! one is a coverage value in steps of one twentieth; they are held here as
//! exact integers so that the whole record stays in integer arithmetic:
//! - `fraction_basecalled` and `fraction_skipped` are numerators over the
//!   fixed denominator 101;
//! - `alignment_coverage` is a count of 1/20 steps, hard-capped at 18 steps
//!   (that is, at 9/10).

use vstd::prelude::*;

verus! {

/// Denominator of the two fraction fields.
pub const FRACTION_DENOMINATOR: u64 = 101;

/// Cap on `alignment_coverage_twentieths`: 18 steps of 1/20 make 9/10.
pub const COVERAGE_CAP_TWENTIETHS: u64 = 18;

/// The largest amount any single field can grow by in one tick
/// (`99 * 101` for the base counters).
pub const MAX_TICK_GROWTH: u64 = 9999;

/// The largest amount an alignment error counter can grow by in one tick
/// (`99 * 11`).
pub const MAX_ALIGNMENT_GROWTH: u64 = 1089;

/// Externally visible state of one run's yield accumulator.
///
/// All counters start at zero. The snapshot handed to callers is a plain copy
/// of this record, so callers never alias the live state.
#[derive(Clone, Copy, PartialEq, Eq, Structural, Debug)]
pub struct YieldSummary {
    pub read_count: u64,
    /// Numerator of `fraction_basecalled` over [`FRACTION_DENOMINATOR`].
    pub fraction_basecalled_numerator: u64,
    /// Numerator of `fraction_skipped` over [`FRACTION_DENOMINATOR`].
    pub fraction_skipped_numerator: u64,
    pub basecalled_pass_read_count: u64,
    pub basecalled_fail_read_count: u64,
    pub basecalled_skipped_read_count: u64,
    pub basecalled_pass_bases: u64,
    /// Overwritten, not accumulated, on each qualifying tick.
    pub basecalled_fail_bases: u64,
    /// Pinned to 1 once any tick has occurred.
    pub basecalled_samples: u64,
    /// Pinned to 1 once any tick has occurred.
    pub selected_raw_samples: u64,
    pub selected_events: u64,
    pub estimated_selected_bases: u64,
    pub alignment_matches: u64,
    pub alignment_mismatches: u64,
    pub alignment_insertions: u64,
    pub alignment_deletions: u64,
    /// Coverage in 1/20 steps, never above [`COVERAGE_CAP_TWENTIETHS`].
    pub alignment_coverage_twentieths: u64,
}

/// Mathematical model of a yield summary: the same seventeen fields over
/// unbounded integers.
pub struct YieldModel {
    pub read_count: int,
    pub fraction_basecalled_numerator: int,
    pub fraction_skipped_numerator: int,
    pub basecalled_pass_read_count: int,
    pub basecalled_fail_read_count: int,
    pub basecalled_skipped_read_count: int,
    pub basecalled_pass_bases: int,
    pub basecalled_fail_bases: int,
    pub basecalled_samples: int,
    pub selected_raw_samples: int,
    pub selected_events: int,
    pub estimated_selected_bases: int,
    pub alignment_matches: int,
    pub alignment_mismatches: int,
    pub alignment_insertions: int,
    pub alignment_deletions: int,
    pub alignment_coverage_twentieths: int,
}

impl View for YieldSummary {
    type V = YieldModel;

    open spec fn view(&self) -> YieldModel {
        YieldModel {
            read_count: self.read_count as int,
            fraction_basecalled_numerator: self.fraction_basecalled_numerator as int,
            fraction_skipped_numerator: self.fraction_skipped_numerator as int,
            basecalled_pass_read_count: self.basecalled_pass_read_count as int,
            basecalled_fail_read_count: self.basecalled_fail_read_count as int,
            basecalled_skipped_read_count: self.basecalled_skipped_read_count as int,
            basecalled_pass_bases: self.basecalled_pass_bases as int,
            basecalled_fail_bases: self.basecalled_fail_bases as int,
            basecalled_samples: self.basecalled_samples as int,
            selected_raw_samples: self.selected_raw_samples as int,
            selected_events: self.selected_events as int,
            estimated_selected_bases: self.estimated_selected_bases as int,
            alignment_matches: self.alignment_matches as int,
            alignment_mismatches: self.alignment_mismatches as int,
            alignment_insertions: self.alignment_insertions as int,
            alignment_deletions: self.alignment_deletions as int,
            alignment_coverage_twentieths: self.alignment_coverage_twentieths as int,
        }
    }
}

/// The zeroed state a fresh accumulator starts in.
pub open spec fn fresh_model() -> YieldModel {
    YieldModel {
        read_count: 0,
        fraction_basecalled_numerator: 0,
        fraction_skipped_numerator: 0,
        basecalled_pass_read_count: 0,
        basecalled_fail_read_count: 0,
        basecalled_skipped_read_count: 0,
        basecalled_pass_bases: 0,
        basecalled_fail_bases: 0,
        basecalled_samples: 0,
        selected_raw_samples: 0,
        selected_events: 0,
        estimated_selected_bases: 0,
        alignment_matches: 0,
        alignment_mismatches: 0,
        alignment_insertions: 0,
        alignment_deletions: 0,
        alignment_coverage_twentieths: 0,
    }
}

/// The tick rule: how one draw `r` in `[0, 100)` advances the statistics.
///
/// `basecalled_fail_bases` is overwritten, not accumulated; the two sample
/// fields are pinned to 1 on every tick; coverage grows by one step only
/// while below the cap.
pub open spec fn tick_spec(s: YieldModel, r: int) -> YieldModel {
    YieldModel {
        read_count: if r > 90 { s.read_count + 1 } else { s.read_count },
        fraction_basecalled_numerator: if r > 90 { r } else { s.fraction_basecalled_numerator },
        fraction_skipped_numerator: if r > 90 { 101 - r } else { s.fraction_skipped_numerator },
        basecalled_pass_read_count: if r >= 93 { s.basecalled_pass_read_count + 1 } else { s.basecalled_pass_read_count },
        basecalled_fail_read_count: if r == 91 { s.basecalled_fail_read_count + 1 } else { s.basecalled_fail_read_count },
        basecalled_skipped_read_count: if r == 92 { s.basecalled_skipped_read_count + 2 } else { s.basecalled_skipped_read_count },
        basecalled_pass_bases: if r >= 93 { s.basecalled_pass_bases + r * 101 } else { s.basecalled_pass_bases },
        basecalled_fail_bases: if r == 91 { r * 101 } else { s.basecalled_fail_bases },
        basecalled_samples: 1,
        selected_raw_samples: 1,
        selected_events: if r > 90 { s.selected_events + r * 101 } else { s.selected_events },
        estimated_selected_bases: if r > 90 { s.estimated_selected_bases + r * 101 } else { s.estimated_selected_bases },
        alignment_matches: if r > 94 { s.alignment_matches + r * 101 } else { s.alignment_matches },
        alignment_mismatches: if r == 91 { s.alignment_mismatches + r * 11 } else { s.alignment_mismatches },
        alignment_insertions: if r == 92 { s.alignment_insertions + r * 11 } else { s.alignment_insertions },
        alignment_deletions: if r == 93 { s.alignment_deletions + r * 11 } else { s.alignment_deletions },
        alignment_coverage_twentieths: if r > 90 && s.alignment_coverage_twentieths < COVERAGE_CAP_TWENTIETHS {
            s.alignment_coverage_twentieths + 1
        } else {
            s.alignment_coverage_twentieths
        },
    }
}

/// Whether one more tick is certain to fit in the machine-sized counters,
/// whatever the draw.
pub open spec fn can_tick(s: YieldModel) -> bool {
    &&& s.read_count + 1 <= u64::MAX
    &&& s.basecalled_pass_read_count + 1 <= u64::MAX
    &&& s.basecalled_fail_read_count + 1 <= u64::MAX
    &&& s.basecalled_skipped_read_count + 2 <= u64::MAX
    &&& s.basecalled_pass_bases + MAX_TICK_GROWTH <= u64::MAX
    &&& s.selected_events + MAX_TICK_GROWTH <= u64::MAX
    &&& s.estimated_selected_bases + MAX_TICK_GROWTH <= u64::MAX
    &&& s.alignment_matches + MAX_TICK_GROWTH <= u64::MAX
    &&& s.alignment_mismatches + MAX_ALIGNMENT_GROWTH <= u64::MAX
    &&& s.alignment_insertions + MAX_ALIGNMENT_GROWTH <= u64::MAX
    &&& s.alignment_deletions + MAX_ALIGNMENT_GROWTH <= u64::MAX
}

impl YieldSummary {
    /// A fresh accumulator: every counter zero.
    pub fn new() -> (s: YieldSummary)
        ensures
            s@ == fresh_model(),
    {
        YieldSummary {
            read_count: 0,
            fraction_basecalled_numerator: 0,
            fraction_skipped_numerator: 0,
            basecalled_pass_read_count: 0,
            basecalled_fail_read_count: 0,
            basecalled_skipped_read_count: 0,
            basecalled_pass_bases: 0,
            basecalled_fail_bases: 0,
            basecalled_samples: 0,
            selected_raw_samples: 0,
            selected_events: 0,
            estimated_selected_bases: 0,
            alignment_matches: 0,
            alignment_mismatches: 0,
            alignment_insertions: 0,
            alignment_deletions: 0,
            alignment_coverage_twentieths: 0,
        }
    }

    /// Whether one more tick fits in the counters, whatever the draw.
    pub fn headroom(&self) -> (b: bool)
        ensures
            b == can_tick(self@),
    {
        self.read_count <= u64::MAX - 1
            && self.basecalled_pass_read_count <= u64::MAX - 1
            && self.basecalled_fail_read_count <= u64::MAX - 1
            && self.basecalled_skipped_read_count <= u64::MAX - 2
            && self.basecalled_pass_bases <= u64::MAX - MAX_TICK_GROWTH
            && self.selected_events <= u64::MAX - MAX_TICK_GROWTH
            && self.estimated_selected_bases <= u64::MAX - MAX_TICK_GROWTH
            && self.alignment_matches <= u64::MAX - MAX_TICK_GROWTH
            && self.alignment_mismatches <= u64::MAX - MAX_ALIGNMENT_GROWTH
            && self.alignment_insertions <= u64::MAX - MAX_ALIGNMENT_GROWTH
            && self.alignment_deletions <= u64::MAX - MAX_ALIGNMENT_GROWTH
    }

    /// Advance the statistics by one tick driven by the draw `r`.
    pub fn tick(&mut self, r: u8)
        requires
            r < 100,
            can_tick(old(self)@),
        ensures
            final(self)@ == tick_spec(old(self)@, r as int),
    {
        let draw: u64 = r as u64;
        if draw > 90 {
            self.read_count = self.read_count + 1;
            self.fraction_basecalled_numerator = draw;
            self.fraction_skipped_numerator = FRACTION_DENOMINATOR - draw;
            self.selected_events = self.selected_events + draw * 101;
            self.estimated_selected_bases = self.estimated_selected_bases + draw * 101;
        }
        if draw >= 93 {
            self.basecalled_pass_read_count = self.basecalled_pass_read_count + 1;
            self.basecalled_pass_bases = self.basecalled_pass_bases + draw * 101;
        }
        if draw == 91 {
            self.basecalled_fail_read_count = self.basecalled_fail_read_count + 1;
            self.basecalled_fail_bases = draw * 101;
            self.alignment_mismatches = self.alignment_mismatches + draw * 11;
        }
        if draw == 92 {
            self.basecalled_skipped_read_count = self.basecalled_skipped_read_count + 2;
            self.alignment_insertions = self.alignment_insertions + draw * 11;
        }
        if draw == 93 {
            self.alignment_deletions = self.alignment_deletions + draw * 11;
        }
        self.basecalled_samples = 1;
        self.selected_raw_samples = 1;
        if draw > 94 {
            self.alignment_matches = self.alignment_matches + draw * 101;
        }
        if draw > 90 && self.alignment_coverage_twentieths < COVERAGE_CAP_TWENTIETHS {
            self.alignment_coverage_twentieths = self.alignment_coverage_twentieths + 1;
        }
    }
}

/// The state after a whole sequence of ticks, applied left to right.
pub open spec fn ticks(s: YieldModel, draws: Seq<int>) -> YieldModel
    decreases draws.len(),
{
    if draws.len() == 0 {
        s
    } else {
        tick_spec(ticks(s, draws.drop_last()), draws.last())
    }
}

/// Field-wise comparison of the monotone fields: each counter of `a` is at
/// most the matching counter of `b`.
pub open spec fn monotone_le(a: YieldModel, b: YieldModel) -> bool {
    &&& a.read_count <= b.read_count
    &&& a.basecalled_pass_read_count <= b.basecalled_pass_read_count
    &&& a.basecalled_fail_read_count <= b.basecalled_fail_read_count
    &&& a.basecalled_skipped_read_count <= b.basecalled_skipped_read_count
    &&& a.basecalled_pass_bases <= b.basecalled_pass_bases
    &&& a.selected_events <= b.selected_events
    &&& a.estimated_selected_bases <= b.estimated_selected_bases
    &&& a.alignment_matches <= b.alignment_matches
    &&& a.alignment_mismatches <= b.alignment_mismatches
    &&& a.alignment_insertions <= b.alignment_insertions
    &&& a.alignment_deletions <= b.alignment_deletions
    &&& a.alignment_coverage_twentieths <= b.alignment_coverage_twentieths
}

/// One tick never decreases a monotone field, whatever the draw.
pub proof fn lemma_tick_monotone(s: YieldModel, r: int)
    requires
        0 <= r < 100,
    ensures
        monotone_le(s, tick_spec(s, r)),
{
}

/// Monotonicity over a whole sequence: from any starting state, running the
/// ticks never decreases a monotone field.
pub proof fn lemma_ticks_monotone(s: YieldModel, draws: Seq<int>)
    requires
        forall|i: int| 0 <= i < draws.len() ==> 0 <= #[trigger] draws[i] < 100,
    ensures
        monotone_le(s, ticks(s, draws)),
    decreases draws.len(),
{
    if draws.len() > 0 {
        lemma_ticks_monotone(s, draws.drop_last());
        lemma_tick_monotone(ticks(s, draws.drop_last()), draws.last());
    }
}

/// Running a concatenated sequence of ticks equals running the two parts in
/// order. This is what makes serialized concurrent ticks safe: any interleaving
/// that the store admits is some serial order, and composing serial orders is
/// just concatenation.
pub proof fn lemma_ticks_append(s: YieldModel, a: Seq<int>, b: Seq<int>)
    ensures
        ticks(s, a + b) == ticks(ticks(s, a), b),
    decreases b.len(),
{
    if b.len() == 0 {
        assert(a + b =~= a);
    } else {
        assert((a + b).drop_last() =~= a + b.drop_last());
        lemma_ticks_append(s, a, b.drop_last());
    }
}

/// Monotonicity between any two points of one tick sequence: the state after
/// the first `i` ticks is, field by monotone field, at most the state after
/// the first `j` ticks.
pub proof fn lemma_monotone_along_sequence(s: YieldModel, draws: Seq<int>, i: int, j: int)
    requires
        0 <= i <= j <= draws.len(),
        forall|k: int| 0 <= k < draws.len() ==> 0 <= #[trigger] draws[k] < 100,
    ensures
        monotone_le(ticks(s, draws.take(i)), ticks(s, draws.take(j))),
{
    assert(draws.take(j) =~= draws.take(i) + draws.subrange(i, j));
    lemma_ticks_append(s, draws.take(i), draws.subrange(i, j));
    assert(forall|k: int| 0 <= k < j - i ==> 0 <= #[trigger] draws.subrange(i, j)[k] < 100);
    lemma_ticks_monotone(ticks(s, draws.take(i)), draws.subrange(i, j));
}

/// Coverage bound: starting at or below the cap, the coverage step count
/// never exceeds the cap, however many ticks run.
pub proof fn lemma_coverage_bound(s: YieldModel, draws: Seq<int>)
    requires
        s.alignment_coverage_twentieths <= COVERAGE_CAP_TWENTIETHS,
    ensures
        ticks(s, draws).alignment_coverage_twentieths <= COVERAGE_CAP_TWENTIETHS,
    decreases draws.len(),
{
    if draws.len() > 0 {
        lemma_coverage_bound(s, draws.drop_last());
    }
}

/// Pin fields: once any tick has occurred, both sample fields are exactly 1.
pub proof fn lemma_pin_fields(s: YieldModel, draws: Seq<int>)
    requires
        draws.len() > 0,
    ensures
        ticks(s, draws).basecalled_samples == 1,
        ticks(s, draws).selected_raw_samples == 1,
{
}

/// Overwrite, not accumulate: after any sequence holding at least one
/// qualifying draw (`r == 91`), `basecalled_fail_bases` equals the single
/// contribution `91 * 101` of the most recent qualifying tick — not a sum.
pub proof fn lemma_fail_bases_overwrite(s: YieldModel, draws: Seq<int>)
    requires
        exists|i: int| 0 <= i < draws.len() && draws[i] == 91,
    ensures
        ticks(s, draws).basecalled_fail_bases == 91 * 101,
    decreases draws.len(),
{
    if draws.last() != 91 {
        let i = choose|i: int| 0 <= i < draws.len() && draws[i] == 91;
        assert(draws.drop_last()[i] == 91);
        lemma_fail_bases_overwrite(s, draws.drop_last());
    }
}

/// How often a value occurs in a sequence of draws.
pub open spec fn count_of(draws: Seq<int>, v: int) -> int
    decreases draws.len(),
{
    if draws.len() == 0 {
        0
    } else {
        count_of(draws.drop_last(), v) + if draws.last() == v { 1int } else { 0int }
    }
}

/// The failing read counter, by contrast, accumulates: it grows by one for
/// every qualifying draw in the sequence.
pub proof fn lemma_fail_read_count_accumulates(s: YieldModel, draws: Seq<int>)
    ensures
        ticks(s, draws).basecalled_fail_read_count == s.basecalled_fail_read_count + count_of(
            draws,
            91,
        ),
    decreases draws.len(),
{
    if draws.len() > 0 {
        lemma_fail_read_count_accumulates(s, draws.drop_last());
    }
}

} // verus!
