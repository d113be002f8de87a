use crate::damage::{ROLL_MAX, ROLL_MID, ROLL_MIN};
use crate::outcome::{all_outcomes, all_outcomes_spec, Outcome};
use crate::scenario::{
    lemma_base_rand_monotone, lemma_fits_valid, lemma_out_monotone, lemma_tick_monotone, Scenario,
};
use vstd::prelude::*;

verus! {

/// An inclusive range of damage values.
#[derive(Clone, Copy, Debug, PartialEq, Eq, Structural)]
pub struct DamageRange {
    pub min: u64,
    pub max: u64,
}

impl DamageRange {
    pub open spec fn has(self, x: int) -> bool {
        self.min <= x <= self.max
    }

    /// Whether `x` lies in the range, both ends included.
    pub fn contains(&self, x: u64) -> (r: bool)
        ensures
            r == self.has(x as int),
    {
        self.min <= x && x <= self.max
    }
}

/// Whether `x` lies between the damage of the lowest and of the highest roll
/// for one combination.
pub open spec fn interval_has(sc: Scenario, o: Outcome, x: int) -> bool {
    sc.tick_value(ROLL_MIN as int, o) <= x <= sc.tick_value(ROLL_MAX as int, o)
}

/// Whether `x` lies in the interval of at least one of the four combinations.
pub open spec fn in_any_interval(sc: Scenario, x: int) -> bool {
    ||| interval_has(sc, Outcome::Normal, x)
    ||| interval_has(sc, Outcome::DirectHit, x)
    ||| interval_has(sc, Outcome::Crit, x)
    ||| interval_has(sc, Outcome::CritDirectHit, x)
}

/// Selects the observed values that no interval holds.
pub open spec fn unknown_filter(sc: Scenario) -> spec_fn(u64) -> bool {
    |x: u64| !in_any_interval(sc, x as int)
}

/// The interval of one combination: the damage of the lowest and of the
/// highest roll.
pub fn reachable_interval(sc: &Scenario, o: Outcome) -> (r: DamageRange)
    requires
        sc.fits(),
    ensures
        r.min == sc.tick_value(ROLL_MIN as int, o),
        r.max == sc.tick_value(ROLL_MAX as int, o),
        r.min <= r.max,
{
    proof {
        lemma_fits_valid(*sc);
        assert(sc.tick_fits(ROLL_MAX as int, o));
        lemma_tick_monotone(*sc, ROLL_MIN as int, ROLL_MAX as int, o);
    }
    DamageRange { min: sc.tick(o, ROLL_MIN), max: sc.tick(o, ROLL_MAX) }
}

/// The four intervals and the observed values outside all of them.
pub struct RangeReport {
    /// One interval per combination, in the order of `all_outcomes`.
    pub intervals: Vec<DamageRange>,
    /// Each observed value that lies in no interval, in the order observed.
    pub unknown: Vec<u64>,
}

/// Checks that every observed value lies in the interval of some combination.
pub fn check_all_in_ex_range(sc: &Scenario, ticks: &Vec<u64>) -> (r: RangeReport)
    requires
        sc.fits(),
    ensures
        r.intervals@.len() == 4,
        forall|i: int|
            0 <= i < 4 ==> {
                &&& (#[trigger] r.intervals@[i]).min == sc.tick_value(
                    ROLL_MIN as int,
                    all_outcomes_spec()[i],
                )
                &&& r.intervals@[i].max == sc.tick_value(ROLL_MAX as int, all_outcomes_spec()[i])
            },
        r.unknown@ == ticks@.filter(unknown_filter(*sc)),
{
    let outcomes = all_outcomes();
    let mut intervals: Vec<DamageRange> = Vec::new();
    for k in 0..4
        invariant
            sc.fits(),
            outcomes@ == all_outcomes_spec(),
            intervals@.len() == k,
            forall|i: int|
                0 <= i < k ==> {
                    &&& (#[trigger] intervals@[i]).min == sc.tick_value(
                        ROLL_MIN as int,
                        all_outcomes_spec()[i],
                    )
                    &&& intervals@[i].max == sc.tick_value(
                        ROLL_MAX as int,
                        all_outcomes_spec()[i],
                    )
                },
    {
        intervals.push(reachable_interval(sc, outcomes[k]));
    }
    let mut unknown: Vec<u64> = Vec::new();
    let n = ticks.len();
    for i in 0..n
        invariant
            n == ticks@.len(),
            intervals@.len() == 4,
            forall|j: int|
                0 <= j < 4 ==> {
                    &&& (#[trigger] intervals@[j]).min == sc.tick_value(
                        ROLL_MIN as int,
                        all_outcomes_spec()[j],
                    )
                    &&& intervals@[j].max == sc.tick_value(
                        ROLL_MAX as int,
                        all_outcomes_spec()[j],
                    )
                },
            unknown@ == ticks@.subrange(0, i as int).filter(unknown_filter(*sc)),
    {
        let x = ticks[i];
        let inside = intervals[0].contains(x) || intervals[1].contains(x) || intervals[2].contains(
            x,
        ) || intervals[3].contains(x);
        proof {
            assert(intervals@[0].min == sc.tick_value(ROLL_MIN as int, Outcome::Normal));
            assert(intervals@[1].min == sc.tick_value(ROLL_MIN as int, Outcome::DirectHit));
            assert(intervals@[2].min == sc.tick_value(ROLL_MIN as int, Outcome::Crit));
            assert(intervals@[3].min == sc.tick_value(ROLL_MIN as int, Outcome::CritDirectHit));
            assert(inside == in_any_interval(*sc, x as int));
            reveal(Seq::filter);
            assert(ticks@.subrange(0, i + 1).drop_last() =~= ticks@.subrange(0, i as int));
            assert(ticks@.subrange(0, i + 1).last() == x);
        }
        if !inside {
            unknown.push(x);
        }
    }
    proof {
        assert(ticks@.subrange(0, n as int) =~= ticks@);
    }
    RangeReport { intervals, unknown }
}

/// Whether `v` holds `x`.
fn contains_value(v: &Vec<u64>, x: u64) -> (r: bool)
    ensures
        r == v@.contains(x),
{
    let n = v.len();
    for i in 0..n
        invariant
            n == v@.len(),
            forall|j: int| 0 <= j < i ==> v@[j] != x,
    {
        if v[i] == x {
            assert(v@[i as int] == x);
            return true;
        }
    }
    false
}

/// What `observed_span` returns: `None` where no observed value lies in the
/// range, else the least and the greatest of those that do.
pub open spec fn observed_span_ok(ticks: Seq<u64>, range: DamageRange, r: Option<DamageRange>) -> bool {
    match r {
        None => forall|j: int| 0 <= j < ticks.len() ==> !range.has(#[trigger] ticks[j] as int),
        Some(s) => {
            &&& ticks.contains(s.min)
            &&& range.has(s.min as int)
            &&& ticks.contains(s.max)
            &&& range.has(s.max as int)
            &&& forall|j: int|
                0 <= j < ticks.len() && range.has(#[trigger] ticks[j] as int) ==> s.min <= ticks[j]
                    <= s.max
        },
    }
}

/// The least and the greatest observed value in a range.
pub fn observed_span(ticks: &Vec<u64>, range: DamageRange) -> (r: Option<DamageRange>)
    ensures
        observed_span_ok(ticks@, range, r),
{
    let mut lo: u64 = u64::MAX;
    let mut hi: u64 = 0;
    let mut found = false;
    let n = ticks.len();
    for i in 0..n
        invariant
            n == ticks@.len(),
            !found ==> forall|j: int| 0 <= j < i ==> !range.has(#[trigger] ticks@[j] as int),
            found ==> ticks@.contains(lo) && range.has(lo as int) && ticks@.contains(hi)
                && range.has(hi as int),
            forall|j: int|
                0 <= j < i && range.has(#[trigger] ticks@[j] as int) ==> lo <= ticks@[j] <= hi,
    {
        let x = ticks[i];
        if range.contains(x) {
            if !found || x < lo {
                lo = x;
            }
            if !found || x > hi {
                hi = x;
            }
            found = true;
        }
    }
    if found {
        Some(DamageRange { min: lo, max: hi })
    } else {
        None
    }
}

/// What `real_holes` returns: in increasing order, each value of the range
/// that was not observed.
pub open spec fn real_holes_ok(ticks: Seq<u64>, range: DamageRange, holes: Seq<u64>) -> bool {
    &&& forall|i: int, j: int| 0 <= i < j < holes.len() ==> holes[i] < holes[j]
    &&& forall|y: u64| #[trigger] holes.contains(y) <==> range.has(y as int) && !ticks.contains(y)
}

/// Each value of the range, in increasing order, that was never observed.
pub fn real_holes(ticks: &Vec<u64>, range: DamageRange) -> (r: Vec<u64>)
    requires
        range.min <= range.max,
    ensures
        real_holes_ok(ticks@, range, r@),
{
    let mut holes: Vec<u64> = Vec::new();
    let mut x: u64 = range.min;
    loop
        invariant_except_break
            range.min <= x <= range.max,
            forall|i: int, j: int| 0 <= i < j < holes@.len() ==> holes@[i] < holes@[j],
            forall|i: int| 0 <= i < holes@.len() ==> holes@[i] < x,
            forall|y: u64|
                #[trigger] holes@.contains(y) <==> range.min <= y < x && !ticks@.contains(y),
        ensures
            real_holes_ok(ticks@, range, holes@),
        decreases range.max - x,
    {
        let ghost before = holes@;
        if !contains_value(ticks, x) {
            holes.push(x);
            proof {
                assert forall|y: u64| #[trigger] holes@.contains(y) <==> before.contains(y) || y == x by {
                    if before.contains(y) {
                        let k = choose|k: int| 0 <= k < before.len() && before[k] == y;
                        assert(holes@[k] == y);
                    }
                    if y == x {
                        assert(holes@[before.len() as int] == y);
                    }
                    if holes@.contains(y) && y != x {
                        let k = choose|k: int| 0 <= k < holes@.len() && holes@[k] == y;
                        assert(before[k] == y);
                    }
                }
            }
        }
        if x == range.max {
            break;
        }
        x = x + 1;
    }
    holes
}

/// An integer that the formula skips as its input sweeps the values that
/// `base_rand` gives over the roll range.
#[derive(Clone, Copy, Debug, PartialEq, Eq, Structural)]
pub struct FormulaGap {
    pub value: u64,
    /// Whether the value is also a real hole. A gap that is not is a sign
    /// that the assumed truncation order is wrong.
    pub is_real_hole: bool,
}

/// Whether some gap in `s` has the value `x`.
pub open spec fn has_gap_value(s: Seq<FormulaGap>, x: int) -> bool {
    exists|i: int| 0 <= i < s.len() && #[trigger] s[i].value == x
}

/// Whether `x` lies strictly between the outputs for two adjacent inputs
/// `v` and `v + 1` with `lo <= v < hi`.
pub open spec fn is_gap_between(sc: Scenario, o: Outcome, lo: int, hi: int, x: int) -> bool {
    exists|v: int|
        lo <= v < hi && #[trigger] sc.out_value(v, o) < x < sc.out_value(v + 1, o)
}

/// Whether the formula skips `x` for one combination.
pub open spec fn is_formula_gap(sc: Scenario, o: Outcome, x: int) -> bool {
    is_gap_between(
        sc,
        o,
        sc.base_rand_spec(ROLL_MIN as int),
        sc.base_rand_spec(ROLL_MAX as int),
        x,
    )
}

/// What `formula_gaps` returns: in increasing order, each value that the
/// formula skips, marked by whether `holes` holds it.
pub open spec fn formula_gaps_ok(
    sc: Scenario,
    o: Outcome,
    holes: Seq<u64>,
    gaps: Seq<FormulaGap>,
) -> bool {
    &&& forall|i: int, j: int| 0 <= i < j < gaps.len() ==> gaps[i].value < gaps[j].value
    &&& forall|x: int| #[trigger] has_gap_value(gaps, x) <==> is_formula_gap(sc, o, x)
    &&& forall|i: int|
        0 <= i < gaps.len() ==> #[trigger] gaps[i].is_real_hole == holes.contains(gaps[i].value)
}

proof fn lemma_has_gap_push(s: Seq<FormulaGap>, g: FormulaGap)
    ensures
        forall|y: int| #[trigger]
            has_gap_value(s.push(g), y) <==> has_gap_value(s, y) || y == g.value,
{
    assert forall|y: int| #[trigger]
        has_gap_value(s.push(g), y) <==> has_gap_value(s, y) || y == g.value by {
        if has_gap_value(s, y) {
            let k = choose|k: int| 0 <= k < s.len() && #[trigger] s[k].value == y;
            assert(s.push(g)[k].value == y);
        }
        if y == g.value {
            assert(s.push(g)[s.len() as int].value == y);
        }
        if has_gap_value(s.push(g), y) && y != g.value {
            let k = choose|k: int| 0 <= k < s.len() + 1 && #[trigger] s.push(g)[k].value == y;
            assert(s[k].value == y);
        }
    }
}

/// Each value that the formula skips as its input sweeps the values that
/// `base_rand` gives over the roll range, in increasing order, marked by
/// whether `holes` holds it.
pub fn formula_gaps(sc: &Scenario, o: Outcome, holes: &Vec<u64>) -> (r: Vec<FormulaGap>)
    requires
        sc.fits(),
    ensures
        formula_gaps_ok(*sc, o, holes@, r@),
{
    proof {
        lemma_fits_valid(*sc);
        assert(sc.tick_fits(ROLL_MAX as int, o));
        lemma_base_rand_monotone(*sc, ROLL_MIN as int, ROLL_MAX as int);
    }
    let lo = sc.base_rand(ROLL_MIN);
    let hi = sc.base_rand(ROLL_MAX);
    proof {
        lemma_out_monotone(*sc, lo as int, hi as int, o);
    }
    let mut gaps: Vec<FormulaGap> = Vec::new();
    let mut prev = sc.rand_to_dmg(lo, o);
    let mut val = lo;
    while val < hi
        invariant
            sc.valid(),
            sc.out_fits(hi as int, o),
            lo == sc.base_rand_spec(ROLL_MIN as int),
            hi == sc.base_rand_spec(ROLL_MAX as int),
            lo <= val <= hi,
            prev == sc.out_value(val as int, o),
            forall|i: int, j: int| 0 <= i < j < gaps@.len() ==> gaps@[i].value < gaps@[j].value,
            forall|i: int| 0 <= i < gaps@.len() ==> gaps@[i].value < prev,
            forall|i: int|
                0 <= i < gaps@.len() ==> #[trigger] gaps@[i].is_real_hole == holes@.contains(
                    gaps@[i].value,
                ),
            forall|x: int| #[trigger]
                has_gap_value(gaps@, x) <==> is_gap_between(*sc, o, lo as int, val as int, x),
        decreases hi - val,
    {
        proof {
            lemma_out_monotone(*sc, val + 1, hi as int, o);
            lemma_out_monotone(*sc, val as int, val + 1, o);
        }
        let p = sc.rand_to_dmg(val + 1, o);
        let ghost before = gaps@;
        if prev < p {
            let mut x = prev + 1;
            while x < p
                invariant
                    prev < x <= p,
                    forall|i: int, j: int|
                        0 <= i < j < gaps@.len() ==> gaps@[i].value < gaps@[j].value,
                    forall|i: int| 0 <= i < gaps@.len() ==> gaps@[i].value < x,
                    forall|i: int|
                        0 <= i < gaps@.len() ==> #[trigger] gaps@[i].is_real_hole
                            == holes@.contains(gaps@[i].value),
                    forall|y: int| #[trigger]
                        has_gap_value(gaps@, y) <==> has_gap_value(before, y) || prev < y < x,
                decreases p - x,
            {
                let h = contains_value(holes, x);
                proof {
                    lemma_has_gap_push(gaps@, FormulaGap { value: x, is_real_hole: h });
                }
                gaps.push(FormulaGap { value: x, is_real_hole: h });
                x = x + 1;
            }
        }
        proof {
            assert forall|y: int| #[trigger]
                has_gap_value(gaps@, y) <==> is_gap_between(*sc, o, lo as int, val + 1, y) by {
                if is_gap_between(*sc, o, lo as int, val + 1, y) {
                    let v = choose|v: int|
                        lo <= v < val + 1 && #[trigger] sc.out_value(v, o) < y < sc.out_value(
                            v + 1,
                            o,
                        );
                    if v < val {
                        assert(is_gap_between(*sc, o, lo as int, val as int, y));
                    }
                }
                if has_gap_value(gaps@, y) && !has_gap_value(before, y) {
                    assert(sc.out_value(val as int, o) < y < sc.out_value(val + 1, o));
                }
                if has_gap_value(before, y) {
                    let v = choose|v: int|
                        lo <= v < val && #[trigger] sc.out_value(v, o) < y < sc.out_value(
                            v + 1,
                            o,
                        );
                    assert(lo <= v < val + 1);
                }
            }
        }
        val = val + 1;
        prev = p;
    }
    gaps
}

/// What one combination's hole check found.
pub struct HoleReport {
    pub outcome: Outcome,
    /// The interval of the combination.
    pub expected: DamageRange,
    /// The damage of the roll with no variance.
    pub expected_mid: u64,
    /// The least and the greatest observed value in the interval, if any.
    pub observed: Option<DamageRange>,
    /// The values of the interval that were never observed.
    pub holes: Vec<u64>,
    /// The values that the formula skips.
    pub gaps: Vec<FormulaGap>,
}

/// What `hole_report` returns for the combination that the report names.
pub open spec fn hole_report_ok(sc: Scenario, ticks: Seq<u64>, r: HoleReport) -> bool {
    &&& r.expected.min == sc.tick_value(ROLL_MIN as int, r.outcome)
    &&& r.expected.max == sc.tick_value(ROLL_MAX as int, r.outcome)
    &&& r.expected_mid == sc.tick_value(ROLL_MID as int, r.outcome)
    &&& observed_span_ok(ticks, r.expected, r.observed)
    &&& real_holes_ok(ticks, r.expected, r.holes@)
    &&& formula_gaps_ok(sc, r.outcome, r.holes@, r.gaps@)
}

/// The hole check of one combination.
pub fn hole_report(sc: &Scenario, o: Outcome, ticks: &Vec<u64>) -> (r: HoleReport)
    requires
        sc.fits(),
    ensures
        r.outcome == o,
        hole_report_ok(*sc, ticks@, r),
{
    let expected = reachable_interval(sc, o);
    proof {
        lemma_fits_valid(*sc);
        assert(sc.tick_fits(ROLL_MAX as int, o));
        lemma_tick_monotone(*sc, ROLL_MID as int, ROLL_MAX as int, o);
    }
    let expected_mid = sc.tick(o, ROLL_MID);
    let observed = observed_span(ticks, expected);
    let holes = real_holes(ticks, expected);
    let gaps = formula_gaps(sc, o, &holes);
    HoleReport { outcome: o, expected, expected_mid, observed, holes, gaps }
}

/// The hole check of each of the four combinations, in the order of
/// `all_outcomes`.
pub fn check_for_holes(sc: &Scenario, ticks: &Vec<u64>) -> (r: Vec<HoleReport>)
    requires
        sc.fits(),
    ensures
        r@.len() == 4,
        forall|i: int|
            0 <= i < 4 ==> (#[trigger] r@[i]).outcome == all_outcomes_spec()[i]
                && hole_report_ok(*sc, ticks@, r@[i]),
{
    let outcomes = all_outcomes();
    let mut reports: Vec<HoleReport> = Vec::new();
    for k in 0..4
        invariant
            sc.fits(),
            outcomes@ == all_outcomes_spec(),
            reports@.len() == k,
            forall|i: int|
                0 <= i < k ==> (#[trigger] reports@[i]).outcome == all_outcomes_spec()[i]
                    && hole_report_ok(*sc, ticks@, reports@[i]),
    {
        reports.push(hole_report(sc, outcomes[k], ticks));
    }
    reports
}

} // verus!
