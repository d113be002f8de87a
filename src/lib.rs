//! Checks a staged fixed-point damage-over-time formula against observed
//! tick damage values.
//!
//! `damage` evaluates the formula exactly as the game does, with a
//! truncating division after every multiplication; `scenario` joins a
//! snapshot with the buff applied after it; `check` compares the values the
//! formula can reach with an observed dataset, which `dataset` reads; `laws`
//! states the properties that connect them.
mod arith;
pub mod check;
pub mod damage;
pub mod dataset;
pub mod laws;
pub mod outcome;
pub mod scenario;

pub use damage::{
    base_rand, crit_multiplier, direct_hit_multiplier, hit_multiplier, rand_to_dmg, tick_damage,
    tick_damage_with_buff, DamageSnapshot, PercentageBuff, DIRECT_HIT_DAMAGE,
    MULT_SCALE, PERMILLE, ROLL_MAX, ROLL_MID, ROLL_MIN, ROLL_SCALE,
};
pub use outcome::{HitOutcome, Outcome};
pub use scenario::Scenario;
pub use check::{
    check_all_in_ex_range, check_for_holes, formula_gaps, hole_report, observed_span,
    reachable_interval, real_holes, DamageRange, FormulaGap, HoleReport, RangeReport,
};
pub use dataset::{parse_ticks, DatasetError};
