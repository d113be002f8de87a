use dot_check::{
    base_rand, crit_multiplier, direct_hit_multiplier, hit_multiplier, rand_to_dmg, tick_damage,
    tick_damage_with_buff, DamageSnapshot, HitOutcome, Outcome, PercentageBuff, Scenario,
    ROLL_MAX, ROLL_MID, ROLL_MIN,
};

fn snap() -> DamageSnapshot {
    DamageSnapshot { base: 4500, crit_chance: 400, crit_damage: 1600, dhit_chance: 200 }
}

const HANDLES: [HitOutcome; 2] = [HitOutcome::NeverHit, HitOutcome::AlwaysHit];

#[test]
fn concrete_scenario_midpoint_and_top() {
    let s = snap();
    assert_eq!(tick_damage(&s, 10000, HitOutcome::NeverHit, HitOutcome::NeverHit), 4500);
    // 4500 * 10500 / 10000 = 4725; * 1.6 = 7560; * 1.25 = 9450
    assert_eq!(tick_damage(&s, 10500, HitOutcome::AlwaysHit, HitOutcome::AlwaysHit), 9450);
}

#[test]
fn base_rand_truncates() {
    let s = snap();
    assert_eq!(base_rand(&s, ROLL_MIN), 4275);
    assert_eq!(base_rand(&s, ROLL_MID), 4500);
    assert_eq!(base_rand(&s, ROLL_MAX), 4725);
    let t = DamageSnapshot { base: 3333, crit_chance: 0, crit_damage: 1000, dhit_chance: 0 };
    // 3333 * 9999 / 10000 = 3332.6667
    assert_eq!(base_rand(&t, 9999), 3332);
    assert_eq!(base_rand(&t, 0), 0);
}

#[test]
fn crit_multiplier_each_handling() {
    let s = snap();
    assert_eq!(crit_multiplier(&s, HitOutcome::NeverHit), 1_000_000);
    assert_eq!(crit_multiplier(&s, HitOutcome::AlwaysHit), 1_600_000);
    assert_eq!(crit_multiplier(&s, HitOutcome::Averaged), 1_240_000);
    assert_eq!(crit_multiplier(&s, HitOutcome::Forced), 1_984_000);
}

#[test]
fn direct_hit_multiplier_each_handling() {
    let s = snap();
    assert_eq!(direct_hit_multiplier(&s, HitOutcome::NeverHit), 1_000_000);
    assert_eq!(direct_hit_multiplier(&s, HitOutcome::AlwaysHit), 1_250_000);
    assert_eq!(direct_hit_multiplier(&s, HitOutcome::Averaged), 1_050_000);
    assert_eq!(direct_hit_multiplier(&s, HitOutcome::Forced), 1_312_500);
}

#[test]
fn hit_multiplier_with_no_chance() {
    assert_eq!(hit_multiplier(1400, 0, HitOutcome::Averaged), 1_000_000);
    assert_eq!(hit_multiplier(1400, 0, HitOutcome::Forced), 1_400_000);
    assert_eq!(hit_multiplier(1400, 1000, HitOutcome::Averaged), 1_400_000);
}

#[test]
fn truncation_after_each_stage() {
    let s = snap();
    // 4275 * 1.25 = 5343.75, truncated
    assert_eq!(rand_to_dmg(&s, 4275, HitOutcome::NeverHit, HitOutcome::AlwaysHit), 5343);
    // 4276 * 1.25 = 5345: 5344 is skipped
    assert_eq!(rand_to_dmg(&s, 4276, HitOutcome::NeverHit, HitOutcome::AlwaysHit), 5345);
    // staged: 4277 * 1.6 = 6843.2 -> 6843; * 1.25 = 8553.75 -> 8553
    assert_eq!(rand_to_dmg(&s, 4277, HitOutcome::AlwaysHit, HitOutcome::AlwaysHit), 8553);
}

#[test]
fn averaged_outcomes() {
    let s = snap();
    // 4500 * 1.24 = 5580; * 1.05 = 5859
    assert_eq!(tick_damage(&s, 10000, HitOutcome::Averaged, HitOutcome::Averaged), 5859);
}

#[test]
fn tick_is_monotone_in_roll() {
    let s = snap();
    for ch in HANDLES {
        for dh in HANDLES {
            let mut prev = tick_damage(&s, ROLL_MIN, ch, dh);
            for roll in ROLL_MIN + 1..=ROLL_MAX {
                let cur = tick_damage(&s, roll, ch, dh);
                assert!(prev <= cur);
                prev = cur;
            }
        }
    }
}

#[test]
fn outcome_ordering_for_every_roll() {
    let s = snap();
    let (n, a) = (HitOutcome::NeverHit, HitOutcome::AlwaysHit);
    for roll in ROLL_MIN..=ROLL_MAX {
        let nn = tick_damage(&s, roll, n, n);
        let nd = tick_damage(&s, roll, n, a);
        let cn = tick_damage(&s, roll, a, n);
        let cd = tick_damage(&s, roll, a, a);
        assert!(nn <= nd);
        assert!(nn <= cn);
        assert!(nd <= cd);
        assert!(cn <= cd);
    }
}

#[test]
fn unit_buff_changes_nothing() {
    let s = snap();
    let b = PercentageBuff { num: 100, den: 100 };
    for ch in HANDLES {
        for dh in HANDLES {
            for roll in ROLL_MIN..=ROLL_MAX {
                assert_eq!(
                    tick_damage_with_buff(&s, roll, ch, dh, &b),
                    tick_damage(&s, roll, ch, dh)
                );
            }
        }
    }
}

#[test]
fn buff_applies_last() {
    let s = snap();
    let b = PercentageBuff { num: 110, den: 100 };
    // 4725 * 110 / 100 = 5197.5
    assert_eq!(
        tick_damage_with_buff(&s, ROLL_MAX, HitOutcome::NeverHit, HitOutcome::NeverHit, &b),
        5197
    );
    assert_eq!(b.apply(4725), 5197);
}

#[test]
fn checked_apply_rejects_zero_denominator_and_overflow() {
    let zero = PercentageBuff { num: 110, den: 0 };
    assert_eq!(zero.checked_apply(100), None);
    let big = PercentageBuff { num: 3, den: 2 };
    assert_eq!(big.checked_apply(u64::MAX), None);
    assert_eq!(big.checked_apply(100), Some(150));
}

#[test]
fn scenario_tick_with_and_without_buff() {
    let plain = Scenario { snapshot: snap(), buff: None };
    let buffed = Scenario { snapshot: snap(), buff: Some(PercentageBuff { num: 110, den: 100 }) };
    assert_eq!(plain.tick(Outcome::CritDirectHit, ROLL_MAX), 9450);
    // 9450 * 1.1 = 10395
    assert_eq!(buffed.tick(Outcome::CritDirectHit, ROLL_MAX), 10395);
    assert_eq!(buffed.base_rand(ROLL_MIN), 4275);
    assert_eq!(buffed.rand_to_dmg(4275, Outcome::Normal), 4702);
}

#[test]
fn checked_tick_matches_tick() {
    let sc = Scenario { snapshot: snap(), buff: None };
    for roll in [ROLL_MIN, ROLL_MID, ROLL_MAX] {
        assert_eq!(sc.checked_tick(Outcome::Crit, roll), Some(sc.tick(Outcome::Crit, roll)));
    }
}

#[test]
fn overflowing_scenario_is_refused() {
    let huge = DamageSnapshot { base: u64::MAX / 10000, crit_chance: 0, crit_damage: 1500, dhit_chance: 0 };
    let sc = Scenario { snapshot: huge, buff: None };
    assert!(!sc.fits_check());
    assert_eq!(sc.checked_tick(Outcome::Normal, ROLL_MAX), None);
    let low = DamageSnapshot { base: 100, crit_chance: 0, crit_damage: 900, dhit_chance: 0 };
    let weak_crit = Scenario { snapshot: low, buff: None };
    assert!(weak_crit.fits_check());
    let zero_buff = Scenario { snapshot: snap(), buff: Some(PercentageBuff { num: 1, den: 0 }) };
    assert!(!zero_buff.fits_check());
    assert!(Scenario { snapshot: snap(), buff: None }.fits_check());
}

#[test]
fn outcome_axes_and_labels() {
    assert_eq!(Outcome::Normal.crit(), HitOutcome::NeverHit);
    assert_eq!(Outcome::Normal.direct_hit(), HitOutcome::NeverHit);
    assert_eq!(Outcome::DirectHit.crit(), HitOutcome::NeverHit);
    assert_eq!(Outcome::DirectHit.direct_hit(), HitOutcome::AlwaysHit);
    assert_eq!(Outcome::Crit.crit(), HitOutcome::AlwaysHit);
    assert_eq!(Outcome::Crit.direct_hit(), HitOutcome::NeverHit);
    assert_eq!(Outcome::CritDirectHit.crit(), HitOutcome::AlwaysHit);
    assert_eq!(Outcome::CritDirectHit.direct_hit(), HitOutcome::AlwaysHit);
    assert_eq!(Outcome::Normal.label(), "nh");
    assert_eq!(Outcome::DirectHit.label(), "dh");
    assert_eq!(Outcome::Crit.label(), "ch");
    assert_eq!(Outcome::CritDirectHit.label(), "cdh");
}
