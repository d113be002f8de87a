use crate::outcome::HitOutcome;
use vstd::prelude::*;

verus! {

/// Lowest random roll of a tick: -5% scaled by `ROLL_SCALE`.
pub const ROLL_MIN: u64 = 9500;

/// Highest random roll of a tick: +5% scaled by `ROLL_SCALE`.
pub const ROLL_MAX: u64 = 10500;

/// The roll with no variance.
pub const ROLL_MID: u64 = 10000;

/// Fixed-point scale of a roll.
pub const ROLL_SCALE: u64 = 10000;

/// Fixed-point scale of a hit multiplier.
pub const MULT_SCALE: u64 = 1000000;

/// Fixed-point scale of chances and damage bonuses (parts per thousand).
pub const PERMILLE: u64 = 1000;

/// Damage of a direct hit, in parts per thousand (+25%).
pub const DIRECT_HIT_DAMAGE: u64 = 1250;

/// What a damage-over-time effect snapshots when it is applied.
#[derive(Clone, Copy, Debug, PartialEq, Eq, Structural)]
pub struct DamageSnapshot {
    /// Damage before variance and hit multipliers.
    pub base: u64,
    /// Chance of a critical hit, in parts per thousand.
    pub crit_chance: u64,
    /// Damage of a critical hit, in parts per thousand.
    pub crit_damage: u64,
    /// Chance of a direct hit, in parts per thousand.
    pub dhit_chance: u64,
}

impl DamageSnapshot {
    /// A critical hit never lowers the damage.
    pub open spec fn valid(self) -> bool {
        self.crit_damage >= (PERMILLE as int)
    }
}

/// A percentage damage buff applied after every other stage: `num / den`.
#[derive(Clone, Copy, Debug, PartialEq, Eq, Structural)]
pub struct PercentageBuff {
    pub num: u64,
    pub den: u64,
}

impl PercentageBuff {
    pub open spec fn valid(self) -> bool {
        self.den > 0
    }

    pub open spec fn fits(self, dmg: int) -> bool {
        self.den > 0 && dmg * self.num <= u64::MAX
    }

    pub open spec fn apply_spec(self, dmg: int) -> int {
        dmg * self.num / (self.den as int)
    }

    /// The buffed damage, truncated.
    pub fn apply(&self, dmg: u64) -> (r: u64)
        requires
            self.fits(dmg as int),
        ensures
            r == self.apply_spec(dmg as int),
    {
        dmg * self.num / self.den
    }

    /// The buffed damage, or `None` where `dmg * num` does not fit in a `u64`
    /// or `den` is zero.
    pub fn checked_apply(&self, dmg: u64) -> (r: Option<u64>)
        ensures
            r == if self.fits(dmg as int) {
                Some(self.apply_spec(dmg as int) as u64)
            } else {
                None::<u64>
            },
    {
        if self.den == 0 {
            return None;
        }
        match dmg.checked_mul(self.num) {
            Some(p) => Some(p / self.den),
            None => None,
        }
    }
}

/// A hit multiplier scaled by `MULT_SCALE`, for a hit of `damage` parts per
/// thousand that procs with `chance` parts per thousand.
pub open spec fn hit_multiplier_value(damage: int, chance: int, o: HitOutcome) -> int {
    match o {
        HitOutcome::Forced => damage * ((PERMILLE as int) + (damage - (PERMILLE as int)) * chance / (PERMILLE as int)),
        HitOutcome::Averaged => (MULT_SCALE as int) + (damage - (PERMILLE as int)) * chance,
        HitOutcome::AlwaysHit => damage * (PERMILLE as int),
        HitOutcome::NeverHit => MULT_SCALE as int,
    }
}

/// Every intermediate value of the multiplier is a `u64`.
pub open spec fn hit_multiplier_fits(damage: int, chance: int, o: HitOutcome) -> bool {
    match o {
        HitOutcome::Forced => damage >= (PERMILLE as int) && (damage - (PERMILLE as int)) * chance <= u64::MAX
            && damage * ((PERMILLE as int) + (damage - (PERMILLE as int)) * chance / (PERMILLE as int)) <= u64::MAX,
        HitOutcome::Averaged => damage >= (PERMILLE as int) && (damage - (PERMILLE as int)) * chance <= u64::MAX
            && (MULT_SCALE as int) + (damage - (PERMILLE as int)) * chance <= u64::MAX,
        HitOutcome::AlwaysHit => damage * (PERMILLE as int) <= u64::MAX,
        HitOutcome::NeverHit => true,
    }
}

pub open spec fn crit_multiplier_value(s: DamageSnapshot, o: HitOutcome) -> int {
    hit_multiplier_value(s.crit_damage as int, s.crit_chance as int, o)
}

pub open spec fn direct_hit_multiplier_value(s: DamageSnapshot, o: HitOutcome) -> int {
    hit_multiplier_value(DIRECT_HIT_DAMAGE as int, s.dhit_chance as int, o)
}

pub open spec fn multipliers_fit(s: DamageSnapshot, ch: HitOutcome, dh: HitOutcome) -> bool {
    &&& hit_multiplier_fits(s.crit_damage as int, s.crit_chance as int, ch)
    &&& hit_multiplier_fits(DIRECT_HIT_DAMAGE as int, s.dhit_chance as int, dh)
}

/// `base * roll / ROLL_SCALE`, truncated.
pub open spec fn base_rand_value(s: DamageSnapshot, roll: int) -> int {
    s.base * roll / (ROLL_SCALE as int)
}

/// The crit stage, then the direct-hit stage, each truncated at once.
pub open spec fn outcome_damage_value(
    s: DamageSnapshot,
    val: int,
    ch: HitOutcome,
    dh: HitOutcome,
) -> int {
    val * crit_multiplier_value(s, ch) / (MULT_SCALE as int) * direct_hit_multiplier_value(s, dh)
        / (MULT_SCALE as int)
}

pub open spec fn outcome_damage_fits(
    s: DamageSnapshot,
    val: int,
    ch: HitOutcome,
    dh: HitOutcome,
) -> bool {
    &&& multipliers_fit(s, ch, dh)
    &&& val * crit_multiplier_value(s, ch) <= u64::MAX
    &&& val * crit_multiplier_value(s, ch) / (MULT_SCALE as int) * direct_hit_multiplier_value(s, dh)
        <= u64::MAX
}

/// The damage of one tick for a roll, before any buff.
pub open spec fn tick_damage_value(s: DamageSnapshot, roll: int, ch: HitOutcome, dh: HitOutcome) -> int {
    outcome_damage_value(s, base_rand_value(s, roll), ch, dh)
}

pub open spec fn tick_damage_fits(s: DamageSnapshot, roll: int, ch: HitOutcome, dh: HitOutcome) -> bool {
    &&& s.base * roll <= u64::MAX
    &&& outcome_damage_fits(s, base_rand_value(s, roll), ch, dh)
}

/// The damage of one tick for a roll, with a buff applied last.
pub open spec fn tick_damage_with_buff_value(
    s: DamageSnapshot,
    roll: int,
    ch: HitOutcome,
    dh: HitOutcome,
    b: PercentageBuff,
) -> int {
    b.apply_spec(tick_damage_value(s, roll, ch, dh))
}

/// The multiplier of a hit of `damage` parts per thousand that procs with
/// `chance` parts per thousand, scaled by `MULT_SCALE`.
pub fn hit_multiplier(damage: u64, chance: u64, o: HitOutcome) -> (r: u64)
    requires
        hit_multiplier_fits(damage as int, chance as int, o),
    ensures
        r == hit_multiplier_value(damage as int, chance as int, o),
{
    match o {
        HitOutcome::Forced => damage * (PERMILLE + (damage - PERMILLE) * chance / PERMILLE),
        HitOutcome::Averaged => MULT_SCALE + (damage - PERMILLE) * chance,
        HitOutcome::AlwaysHit => damage * PERMILLE,
        HitOutcome::NeverHit => MULT_SCALE,
    }
}

/// The multiplier, or `None` where an intermediate value does not fit in a
/// `u64`.
pub(crate) fn checked_hit_multiplier(damage: u64, chance: u64, o: HitOutcome) -> (r: Option<u64>)
    ensures
        r == if hit_multiplier_fits(damage as int, chance as int, o) {
            Some(hit_multiplier_value(damage as int, chance as int, o) as u64)
        } else {
            None::<u64>
        },
{
    match o {
        HitOutcome::Forced => {
            if damage < PERMILLE {
                return None;
            }
            match (damage - PERMILLE).checked_mul(chance) {
                Some(p) => damage.checked_mul(PERMILLE + p / PERMILLE),
                None => None,
            }
        },
        HitOutcome::Averaged => {
            if damage < PERMILLE {
                return None;
            }
            match (damage - PERMILLE).checked_mul(chance) {
                Some(p) => MULT_SCALE.checked_add(p),
                None => None,
            }
        },
        HitOutcome::AlwaysHit => damage.checked_mul(PERMILLE),
        HitOutcome::NeverHit => Some(MULT_SCALE),
    }
}

/// The crit multiplier of a snapshot, scaled by `MULT_SCALE`.
pub fn crit_multiplier(s: &DamageSnapshot, o: HitOutcome) -> (r: u64)
    requires
        hit_multiplier_fits(s.crit_damage as int, s.crit_chance as int, o),
    ensures
        r == crit_multiplier_value(*s, o),
{
    hit_multiplier(s.crit_damage, s.crit_chance, o)
}

/// The direct-hit multiplier of a snapshot, scaled by `MULT_SCALE`.
pub fn direct_hit_multiplier(s: &DamageSnapshot, o: HitOutcome) -> (r: u64)
    requires
        hit_multiplier_fits(DIRECT_HIT_DAMAGE as int, s.dhit_chance as int, o),
    ensures
        r == direct_hit_multiplier_value(*s, o),
{
    hit_multiplier(DIRECT_HIT_DAMAGE, s.dhit_chance, o)
}

/// The damage for a random roll before the hit multipliers.
pub fn base_rand(s: &DamageSnapshot, roll: u64) -> (r: u64)
    requires
        s.base * roll <= u64::MAX,
    ensures
        r == base_rand_value(*s, roll as int),
{
    s.base * roll / ROLL_SCALE
}

/// The damage after the crit and direct-hit stages, for a value that
/// `base_rand` gave.
pub fn rand_to_dmg(s: &DamageSnapshot, val: u64, ch: HitOutcome, dh: HitOutcome) -> (r: u64)
    requires
        outcome_damage_fits(*s, val as int, ch, dh),
    ensures
        r == outcome_damage_value(*s, val as int, ch, dh),
{
    let cm = crit_multiplier(s, ch);
    let dm = direct_hit_multiplier(s, dh);
    val * cm / MULT_SCALE * dm / MULT_SCALE
}

/// The damage of one tick.
pub fn tick_damage(s: &DamageSnapshot, roll: u64, ch: HitOutcome, dh: HitOutcome) -> (r: u64)
    requires
        tick_damage_fits(*s, roll as int, ch, dh),
    ensures
        r == tick_damage_value(*s, roll as int, ch, dh),
{
    let val = base_rand(s, roll);
    rand_to_dmg(s, val, ch, dh)
}

/// The damage of one tick with a buff applied last.
pub fn tick_damage_with_buff(
    s: &DamageSnapshot,
    roll: u64,
    ch: HitOutcome,
    dh: HitOutcome,
    buff: &PercentageBuff,
) -> (r: u64)
    requires
        tick_damage_fits(*s, roll as int, ch, dh),
        buff.fits(tick_damage_value(*s, roll as int, ch, dh)),
    ensures
        r == tick_damage_with_buff_value(*s, roll as int, ch, dh, *buff),
{
    let dmg = tick_damage(s, roll, ch, dh);
    buff.apply(dmg)
}

} // verus!
