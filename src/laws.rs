use crate::arith::{lemma_scale_identity, lemma_scale_monotone, lemma_scale_monotone_factor};
use crate::check::{
    has_gap_value, hole_report_ok, in_any_interval, interval_has, unknown_filter, HoleReport,
};
use crate::damage::{
    base_rand_value, crit_multiplier_value, direct_hit_multiplier_value, tick_damage_value,
    tick_damage_with_buff_value, DamageSnapshot, PercentageBuff, MULT_SCALE, ROLL_MAX, ROLL_MIN,
    ROLL_SCALE,
};
use crate::outcome::{HitOutcome, Outcome};
use crate::scenario::{
    lemma_base_rand_monotone, lemma_out_monotone, lemma_outcome_damage_monotone,
    lemma_tick_monotone, Scenario,
};
use vstd::prelude::*;

verus! {

/// Whether `x` is the damage of a tick for some roll of the roll range and
/// some combination.
pub open spec fn is_tick_output(sc: Scenario, x: int) -> bool {
    exists|roll: int, o: Outcome|
        ROLL_MIN <= roll <= ROLL_MAX && x == #[trigger] sc.tick_value(roll, o)
}

/// Whether `x` is the damage of a tick for some roll of the roll range with
/// the combination `o`.
pub open spec fn is_tick_output_of(sc: Scenario, o: Outcome, x: int) -> bool {
    exists|roll: int| ROLL_MIN <= roll <= ROLL_MAX && x == #[trigger] sc.tick_value(roll, o)
}

/// For a fixed snapshot and handling, the damage of a tick never decreases
/// as the roll grows over the roll range.
pub proof fn lemma_tick_damage_monotone(
    s: DamageSnapshot,
    r1: int,
    r2: int,
    ch: HitOutcome,
    dh: HitOutcome,
)
    requires
        s.valid(),
        ROLL_MIN <= r1 <= r2 <= ROLL_MAX,
    ensures
        tick_damage_value(s, r1, ch, dh) <= tick_damage_value(s, r2, ch, dh),
{
    lemma_scale_monotone_factor(s.base as int, r1, r2, ROLL_SCALE as int);
    lemma_outcome_damage_monotone(
        s,
        base_rand_value(s, r1),
        base_rand_value(s, r2),
        ch,
        dh,
    );
}

/// For a fixed roll, a direct hit never lowers the damage of a tick, nor
/// does a critical hit.
pub proof fn lemma_outcome_ordering(s: DamageSnapshot, roll: int)
    requires
        s.valid(),
        0 <= roll,
    ensures
        tick_damage_value(s, roll, HitOutcome::NeverHit, HitOutcome::NeverHit) <= tick_damage_value(
            s,
            roll,
            HitOutcome::NeverHit,
            HitOutcome::AlwaysHit,
        ),
        tick_damage_value(s, roll, HitOutcome::NeverHit, HitOutcome::NeverHit) <= tick_damage_value(
            s,
            roll,
            HitOutcome::AlwaysHit,
            HitOutcome::NeverHit,
        ),
        tick_damage_value(s, roll, HitOutcome::NeverHit, HitOutcome::AlwaysHit)
            <= tick_damage_value(s, roll, HitOutcome::AlwaysHit, HitOutcome::AlwaysHit),
        tick_damage_value(s, roll, HitOutcome::AlwaysHit, HitOutcome::NeverHit)
            <= tick_damage_value(s, roll, HitOutcome::AlwaysHit, HitOutcome::AlwaysHit),
{
    let m = MULT_SCALE as int;
    lemma_scale_monotone_factor(s.base as int, 0, roll, ROLL_SCALE as int);
    let val = base_rand_value(s, roll);
    let c0 = crit_multiplier_value(s, HitOutcome::NeverHit);
    let c1 = crit_multiplier_value(s, HitOutcome::AlwaysHit);
    let d0 = direct_hit_multiplier_value(s, HitOutcome::NeverHit);
    let d1 = direct_hit_multiplier_value(s, HitOutcome::AlwaysHit);
    assert(c0 <= c1);
    assert(d0 <= d1);
    lemma_scale_monotone_factor(val, c0, c1, m);
    let a0 = val * c0 / m;
    let a1 = val * c1 / m;
    lemma_scale_monotone(a0, a1, d0, m);
    lemma_scale_monotone(a0, a1, d1, m);
    lemma_scale_monotone_factor(a0, d0, d1, m);
    lemma_scale_monotone_factor(a1, d0, d1, m);
}

/// A dataset made only of tick outputs over the roll range, of any of the
/// four combinations, has no value outside the four intervals: the unknown
/// values that the range check reports are none.
pub proof fn lemma_tick_outputs_in_range(sc: Scenario, ticks: Seq<u64>)
    requires
        sc.valid(),
        forall|i: int| 0 <= i < ticks.len() ==> is_tick_output(sc, #[trigger] ticks[i] as int),
    ensures
        forall|i: int| 0 <= i < ticks.len() ==> in_any_interval(sc, #[trigger] ticks[i] as int),
        ticks.filter(unknown_filter(sc)).len() == 0,
{
    assert forall|i: int| 0 <= i < ticks.len() implies in_any_interval(
        sc,
        #[trigger] ticks[i] as int,
    ) by {
        assert(is_tick_output(sc, ticks[i] as int));
        let (roll, o) = choose|roll: int, o: Outcome|
            ROLL_MIN <= roll <= ROLL_MAX && ticks[i] as int == #[trigger] sc.tick_value(roll, o);
        lemma_tick_monotone(sc, ROLL_MIN as int, roll, o);
        lemma_tick_monotone(sc, roll, ROLL_MAX as int, o);
        assert(interval_has(sc, o, ticks[i] as int));
    }
    let f = ticks.filter(unknown_filter(sc));
    if f.len() > 0 {
        ticks.filter_lemma(unknown_filter(sc));
        assert(f.contains(f[0]));
        ticks.lemma_filter_contains_rev(unknown_filter(sc), f[0]);
        let j = choose|j: int| 0 <= j < ticks.len() && ticks[j] == f[0];
        assert(in_any_interval(sc, ticks[j] as int));
        assert(false);
    }
}

/// Where every observed value is a tick output of the report's combination,
/// every value that the formula skips is also a real hole.
pub proof fn lemma_formula_gaps_are_real_holes(sc: Scenario, ticks: Seq<u64>, r: HoleReport)
    requires
        sc.valid(),
        hole_report_ok(sc, ticks, r),
        forall|i: int|
            0 <= i < ticks.len() ==> is_tick_output_of(sc, r.outcome, #[trigger] ticks[i] as int),
    ensures
        forall|i: int| 0 <= i < r.gaps@.len() ==> (#[trigger] r.gaps@[i]).is_real_hole,
{
    let o = r.outcome;
    let lo = sc.base_rand_spec(ROLL_MIN as int);
    let hi = sc.base_rand_spec(ROLL_MAX as int);
    assert forall|i: int| 0 <= i < r.gaps@.len() implies (#[trigger] r.gaps@[i]).is_real_hole by {
        let g = r.gaps@[i];
        let x = g.value as int;
        assert(has_gap_value(r.gaps@, x));
        let v = choose|v: int|
            lo <= v < hi && #[trigger] sc.out_value(v, o) < x < sc.out_value(v + 1, o);
        lemma_base_rand_monotone(sc, 0, ROLL_MIN as int);
        lemma_out_monotone(sc, lo, v, o);
        lemma_out_monotone(sc, v + 1, hi, o);
        assert(r.expected.has(x));
        assert forall|j: int| 0 <= j < ticks.len() implies #[trigger] ticks[j] != g.value by {
            assert(is_tick_output_of(sc, o, ticks[j] as int));
            let roll = choose|roll: int|
                ROLL_MIN <= roll <= ROLL_MAX && ticks[j] as int == #[trigger] sc.tick_value(
                    roll,
                    o,
                );
            lemma_base_rand_monotone(sc, ROLL_MIN as int, roll);
            lemma_base_rand_monotone(sc, roll, ROLL_MAX as int);
            let w = sc.base_rand_spec(roll);
            if w <= v {
                lemma_out_monotone(sc, w, v, o);
            } else {
                lemma_out_monotone(sc, v + 1, w, o);
            }
        }
        assert(!ticks.contains(g.value));
        assert(r.holes@.contains(g.value));
    }
}

/// A buff of `n / n` changes no tick: with it, the damage of every roll and
/// every handling is the damage without it.
pub proof fn lemma_unit_buff_is_identity(
    s: DamageSnapshot,
    roll: int,
    ch: HitOutcome,
    dh: HitOutcome,
    b: PercentageBuff,
)
    requires
        b.num == b.den,
        b.den > 0,
    ensures
        tick_damage_with_buff_value(s, roll, ch, dh, b) == tick_damage_value(s, roll, ch, dh),
{
    lemma_scale_identity(tick_damage_value(s, roll, ch, dh), b.den as int);
}

} // verus!
