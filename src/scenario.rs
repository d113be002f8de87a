use crate::arith::{lemma_scale_monotone, lemma_scale_monotone_factor};
use crate::damage::{
    base_rand, base_rand_value, checked_hit_multiplier, crit_multiplier_value,
    direct_hit_multiplier_value, outcome_damage_fits, outcome_damage_value, rand_to_dmg,
    DamageSnapshot, PercentageBuff, DIRECT_HIT_DAMAGE, MULT_SCALE, PERMILLE, ROLL_MAX, ROLL_SCALE,
};
use crate::outcome::{HitOutcome, Outcome};
use vstd::prelude::*;

verus! {

/// A snapshot together with the buff, if any, that applies after the hit
/// multipliers: the whole pipeline whose outputs are checked.
#[derive(Clone, Copy, Debug, PartialEq, Eq, Structural)]
pub struct Scenario {
    pub snapshot: DamageSnapshot,
    pub buff: Option<PercentageBuff>,
}

impl Scenario {
    pub open spec fn valid(self) -> bool {
        self.buff matches Some(b) ==> b.valid()
    }

    /// `base_rand` of the snapshot.
    pub open spec fn base_rand_spec(self, roll: int) -> int {
        base_rand_value(self.snapshot, roll)
    }

    /// The hit stages, then the buff, on a value that `base_rand` gave.
    pub open spec fn out_value(self, val: int, o: Outcome) -> int {
        let d = outcome_damage_value(self.snapshot, val, o.crit_spec(), o.direct_hit_spec());
        match self.buff {
            Some(b) => b.apply_spec(d),
            None => d,
        }
    }

    pub open spec fn out_fits(self, val: int, o: Outcome) -> bool {
        let d = outcome_damage_value(self.snapshot, val, o.crit_spec(), o.direct_hit_spec());
        &&& outcome_damage_fits(self.snapshot, val, o.crit_spec(), o.direct_hit_spec())
        &&& self.buff matches Some(b) ==> b.fits(d)
    }

    /// The damage of one tick for a roll.
    pub open spec fn tick_value(self, roll: int, o: Outcome) -> int {
        self.out_value(self.base_rand_spec(roll), o)
    }

    pub open spec fn tick_fits(self, roll: int, o: Outcome) -> bool {
        &&& self.snapshot.base * roll <= u64::MAX
        &&& self.out_fits(self.base_rand_spec(roll), o)
    }

    /// Every value computed for any roll up to `ROLL_MAX` and any of the four
    /// combinations is a `u64`.
    pub open spec fn fits(self) -> bool {
        forall|o: Outcome| #[trigger] self.tick_fits(ROLL_MAX as int, o)
    }

    /// The damage for a random roll before the hit multipliers.
    pub fn base_rand(&self, roll: u64) -> (r: u64)
        requires
            self.snapshot.base * roll <= u64::MAX,
        ensures
            r == self.base_rand_spec(roll as int),
    {
        base_rand(&self.snapshot, roll)
    }

    /// The hit stages, then the buff, on a value that `base_rand` gave.
    pub fn rand_to_dmg(&self, val: u64, o: Outcome) -> (r: u64)
        requires
            self.out_fits(val as int, o),
        ensures
            r == self.out_value(val as int, o),
    {
        let d = rand_to_dmg(&self.snapshot, val, o.crit(), o.direct_hit());
        match &self.buff {
            Some(b) => b.apply(d),
            None => d,
        }
    }

    /// The damage of one tick for a roll.
    pub fn tick(&self, o: Outcome, roll: u64) -> (r: u64)
        requires
            self.tick_fits(roll as int, o),
        ensures
            r == self.tick_value(roll as int, o),
    {
        let val = self.base_rand(roll);
        self.rand_to_dmg(val, o)
    }

    /// The damage of one tick for a roll, or `None` where a value computed
    /// on the way does not fit in a `u64` or the buff divides by zero.
    pub fn checked_tick(&self, o: Outcome, roll: u64) -> (r: Option<u64>)
        ensures
            r == if self.tick_fits(roll as int, o) {
                Some(self.tick_value(roll as int, o) as u64)
            } else {
                None::<u64>
            },
    {
        let s = &self.snapshot;
        let val = match s.base.checked_mul(roll) {
            Some(p) => p / ROLL_SCALE,
            None => return None,
        };
        let cm = match checked_hit_multiplier(s.crit_damage, s.crit_chance, o.crit()) {
            Some(m) => m,
            None => return None,
        };
        let dm = match checked_hit_multiplier(DIRECT_HIT_DAMAGE, s.dhit_chance, o.direct_hit()) {
            Some(m) => m,
            None => return None,
        };
        let a = match val.checked_mul(cm) {
            Some(p) => p / MULT_SCALE,
            None => return None,
        };
        let d = match a.checked_mul(dm) {
            Some(p) => p / MULT_SCALE,
            None => return None,
        };
        match &self.buff {
            Some(b) => b.checked_apply(d),
            None => Some(d),
        }
    }

    /// Whether every value computed for the four combinations and the whole
    /// roll range fits in a `u64`: what the checks ask of a scenario.
    pub fn fits_check(&self) -> (r: bool)
        ensures
            r == self.fits(),
    {
        let n = self.checked_tick(Outcome::Normal, ROLL_MAX).is_some();
        let d = self.checked_tick(Outcome::DirectHit, ROLL_MAX).is_some();
        let c = self.checked_tick(Outcome::Crit, ROLL_MAX).is_some();
        let cd = self.checked_tick(Outcome::CritDirectHit, ROLL_MAX).is_some();
        proof {
            if n && d && c && cd {
                assert forall|o: Outcome| #[trigger] self.tick_fits(ROLL_MAX as int, o) by {
                    match o {
                        Outcome::Normal => {},
                        Outcome::DirectHit => {},
                        Outcome::Crit => {},
                        Outcome::CritDirectHit => {},
                    }
                }
            }
        }
        n && d && c && cd
    }
}

/// Both multipliers are non-negative where the crit handling always or never
/// procs, or the snapshot is valid.
pub proof fn lemma_multipliers_nonneg(s: DamageSnapshot, ch: HitOutcome, dh: HitOutcome)
    requires
        s.valid() || ch == HitOutcome::AlwaysHit || ch == HitOutcome::NeverHit,
    ensures
        crit_multiplier_value(s, ch) >= 0,
        direct_hit_multiplier_value(s, dh) >= 0,
{
    let d = s.crit_damage as int;
    let c = s.crit_chance as int;
    let e = DIRECT_HIT_DAMAGE as int;
    let f = s.dhit_chance as int;
    if s.valid() {
        assert(d * ((PERMILLE as int) + (d - (PERMILLE as int)) * c / (PERMILLE as int)) >= 0)
            by (nonlinear_arith)
            requires
                d >= 1000,
                c >= 0,
        ;
        assert((d - (PERMILLE as int)) * c >= 0) by (nonlinear_arith)
            requires
                d >= 1000,
                c >= 0,
        ;
    }
    assert(e * ((PERMILLE as int) + (e - (PERMILLE as int)) * f / (PERMILLE as int)) >= 0)
        by (nonlinear_arith)
        requires
            e == 1250,
            f >= 0,
    ;
    assert((e - (PERMILLE as int)) * f >= 0) by (nonlinear_arith)
        requires
            e == 1250,
            f >= 0,
    ;
}

/// The hit stages keep the order of their input, and a smaller input fits
/// wherever a larger one does.
pub proof fn lemma_outcome_damage_monotone(
    s: DamageSnapshot,
    v1: int,
    v2: int,
    ch: HitOutcome,
    dh: HitOutcome,
)
    requires
        s.valid() || ch == HitOutcome::AlwaysHit || ch == HitOutcome::NeverHit,
        0 <= v1 <= v2,
    ensures
        0 <= outcome_damage_value(s, v1, ch, dh) <= outcome_damage_value(s, v2, ch, dh),
        outcome_damage_fits(s, v2, ch, dh) ==> outcome_damage_fits(s, v1, ch, dh),
{
    let cm = crit_multiplier_value(s, ch);
    let dm = direct_hit_multiplier_value(s, dh);
    lemma_multipliers_nonneg(s, ch, dh);
    lemma_scale_monotone(v1, v2, cm, MULT_SCALE as int);
    let a1 = v1 * cm / (MULT_SCALE as int);
    let a2 = v2 * cm / (MULT_SCALE as int);
    lemma_scale_monotone(a1, a2, dm, MULT_SCALE as int);
}

/// After `base_rand`, the pipeline keeps the order of its input, and a
/// smaller input fits wherever a larger one does.
pub proof fn lemma_out_monotone(sc: Scenario, v1: int, v2: int, o: Outcome)
    requires
        sc.valid(),
        0 <= v1 <= v2,
    ensures
        0 <= sc.out_value(v1, o) <= sc.out_value(v2, o),
        sc.out_fits(v2, o) ==> sc.out_fits(v1, o),
{
    let s = sc.snapshot;
    lemma_outcome_damage_monotone(s, v1, v2, o.crit_spec(), o.direct_hit_spec());
    let d1 = outcome_damage_value(s, v1, o.crit_spec(), o.direct_hit_spec());
    let d2 = outcome_damage_value(s, v2, o.crit_spec(), o.direct_hit_spec());
    if let Some(b) = sc.buff {
        lemma_scale_monotone(d1, d2, b.num as int, b.den as int);
    }
}

/// A scenario that fits has a buff, if any, that divides by a non-zero
/// number.
pub proof fn lemma_fits_valid(sc: Scenario)
    requires
        sc.fits(),
    ensures
        sc.valid(),
{
    assert(sc.tick_fits(ROLL_MAX as int, Outcome::Normal));
}

/// `base_rand` keeps the order of the roll.
pub proof fn lemma_base_rand_monotone(sc: Scenario, r1: int, r2: int)
    requires
        0 <= r1 <= r2,
    ensures
        0 <= sc.base_rand_spec(r1) <= sc.base_rand_spec(r2),
        sc.snapshot.base * r1 <= sc.snapshot.base * r2,
{
    lemma_scale_monotone_factor(sc.snapshot.base as int, r1, r2, ROLL_SCALE as int);
}

/// The damage of a tick keeps the order of the roll, and a smaller roll fits
/// wherever a larger one does.
pub proof fn lemma_tick_monotone(sc: Scenario, r1: int, r2: int, o: Outcome)
    requires
        sc.valid(),
        0 <= r1 <= r2,
    ensures
        0 <= sc.tick_value(r1, o) <= sc.tick_value(r2, o),
        sc.tick_fits(r2, o) ==> sc.tick_fits(r1, o),
{
    lemma_base_rand_monotone(sc, r1, r2);
    lemma_out_monotone(sc, sc.base_rand_spec(r1), sc.base_rand_spec(r2), o);
}

} // verus!
