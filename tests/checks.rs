use dot_check::{
    check_all_in_ex_range, check_for_holes, formula_gaps, hole_report, observed_span,
    reachable_interval, real_holes, DamageRange, DamageSnapshot, Outcome, PercentageBuff,
    Scenario, ROLL_MAX, ROLL_MIN,
};

const OUTCOMES: [Outcome; 4] =
    [Outcome::Normal, Outcome::DirectHit, Outcome::Crit, Outcome::CritDirectHit];

fn scenario() -> Scenario {
    Scenario {
        snapshot: DamageSnapshot { base: 4500, crit_chance: 400, crit_damage: 1600, dhit_chance: 200 },
        buff: None,
    }
}

fn all_outputs(sc: &Scenario, outcomes: &[Outcome]) -> Vec<u64> {
    let mut v = Vec::new();
    for &o in outcomes {
        for roll in ROLL_MIN..=ROLL_MAX {
            v.push(sc.tick(o, roll));
        }
    }
    v
}

#[test]
fn intervals_of_concrete_scenario() {
    let sc = scenario();
    assert_eq!(reachable_interval(&sc, Outcome::Normal), DamageRange { min: 4275, max: 4725 });
    assert_eq!(reachable_interval(&sc, Outcome::DirectHit), DamageRange { min: 5343, max: 5906 });
    assert_eq!(reachable_interval(&sc, Outcome::Crit), DamageRange { min: 6840, max: 7560 });
    assert_eq!(
        reachable_interval(&sc, Outcome::CritDirectHit),
        DamageRange { min: 8550, max: 9450 }
    );
}

#[test]
fn interval_ends_are_the_extreme_rolls() {
    for sc in [
        scenario(),
        Scenario { buff: Some(PercentageBuff { num: 110, den: 100 }), ..scenario() },
    ] {
        for o in OUTCOMES {
            let r = reachable_interval(&sc, o);
            assert_eq!(r.min, sc.tick(o, ROLL_MIN));
            assert_eq!(r.max, sc.tick(o, ROLL_MAX));
            assert!(r.min <= r.max);
        }
    }
}

#[test]
fn range_check_reports_values_outside_all_intervals() {
    let sc = scenario();
    let ticks = vec![4300, 4800, 5400, 7000, 9000, 9451, 100, 4800];
    let rep = check_all_in_ex_range(&sc, &ticks);
    assert_eq!(rep.intervals.len(), 4);
    assert_eq!(rep.intervals[0], DamageRange { min: 4275, max: 4725 });
    assert_eq!(rep.intervals[3], DamageRange { min: 8550, max: 9450 });
    assert_eq!(rep.unknown, vec![4800, 9451, 100, 4800]);
}

#[test]
fn range_check_bounds_are_inclusive() {
    let sc = scenario();
    let ticks = vec![4275, 4725, 5343, 5906, 6840, 7560, 8550, 9450, 4274, 9451];
    let rep = check_all_in_ex_range(&sc, &ticks);
    assert_eq!(rep.unknown, vec![4274, 9451]);
}

#[test]
fn range_check_of_empty_dataset() {
    let rep = check_all_in_ex_range(&scenario(), &Vec::new());
    assert!(rep.unknown.is_empty());
}

#[test]
fn synthetic_outputs_have_no_unknown_values() {
    for sc in [
        scenario(),
        Scenario { buff: Some(PercentageBuff { num: 110, den: 100 }), ..scenario() },
    ] {
        let ticks = all_outputs(&sc, &OUTCOMES);
        let rep = check_all_in_ex_range(&sc, &ticks);
        assert!(rep.unknown.is_empty());
    }
}

#[test]
fn observed_span_in_range() {
    let r = DamageRange { min: 4275, max: 4725 };
    assert_eq!(observed_span(&vec![5000, 4400, 4300, 9999], r), Some(DamageRange { min: 4300, max: 4400 }));
    assert_eq!(observed_span(&vec![5000, 100], r), None);
    assert_eq!(observed_span(&Vec::new(), r), None);
    assert_eq!(observed_span(&vec![4275, 4725], r), Some(r));
}

#[test]
fn real_holes_are_unobserved_values() {
    let r = DamageRange { min: 10, max: 20 };
    assert_eq!(real_holes(&vec![10, 12, 13, 20, 25, 13], r), vec![11, 14, 15, 16, 17, 18, 19]);
    assert_eq!(real_holes(&vec![], DamageRange { min: 7, max: 7 }), vec![7]);
    assert_eq!(real_holes(&vec![7], DamageRange { min: 7, max: 7 }), Vec::<u64>::new());
    let top = DamageRange { min: u64::MAX - 2, max: u64::MAX };
    assert_eq!(real_holes(&vec![u64::MAX - 1], top), vec![u64::MAX - 2, u64::MAX]);
}

#[test]
fn formula_gaps_of_direct_hit() {
    let sc = scenario();
    // base_rand runs over 4275..=4725; 4275 * 1.25 = 5343.75, 4276 * 1.25 = 5345
    let gaps = formula_gaps(&sc, Outcome::DirectHit, &vec![5344]);
    assert_eq!(gaps[0].value, 5344);
    assert!(gaps[0].is_real_hole);
    assert!(!gaps[1].is_real_hole);
    for w in gaps.windows(2) {
        assert!(w[0].value < w[1].value);
    }
    // every fourth value of 1.25 * v is skipped: 451 steps give 113 gaps
    assert_eq!(gaps.len(), 113);
}

#[test]
fn formula_gaps_of_plain_ticks_are_none() {
    let sc = scenario();
    assert!(formula_gaps(&sc, Outcome::Normal, &Vec::new()).is_empty());
}

#[test]
fn gaps_match_holes_on_synthetic_outputs() {
    for sc in [
        scenario(),
        Scenario { buff: Some(PercentageBuff { num: 110, den: 100 }), ..scenario() },
    ] {
        for o in OUTCOMES {
            let ticks = all_outputs(&sc, &[o]);
            let rep = hole_report(&sc, o, &ticks);
            assert!(rep.gaps.iter().all(|g| g.is_real_hole));
        }
    }
}

#[test]
fn hole_report_of_concrete_scenario() {
    let sc = scenario();
    let ticks = vec![4300, 4276, 5400, 4724];
    let rep = hole_report(&sc, Outcome::Normal, &ticks);
    assert_eq!(rep.outcome, Outcome::Normal);
    assert_eq!(rep.expected, DamageRange { min: 4275, max: 4725 });
    assert_eq!(rep.expected_mid, 4500);
    assert_eq!(rep.observed, Some(DamageRange { min: 4276, max: 4724 }));
    assert_eq!(rep.holes.len(), 451 - 3);
    assert_eq!(rep.holes[0], 4275);
    assert_eq!(rep.holes[1], 4277);
    assert!(rep.gaps.is_empty());
}

#[test]
fn check_for_holes_covers_four_outcomes() {
    let sc = scenario();
    let ticks = all_outputs(&sc, &OUTCOMES);
    let reps = check_for_holes(&sc, &ticks);
    assert_eq!(reps.len(), 4);
    for (rep, o) in reps.iter().zip(OUTCOMES) {
        assert_eq!(rep.outcome, o);
        assert_eq!(rep.expected, reachable_interval(&sc, o));
        assert_eq!(rep.observed, Some(rep.expected));
        assert!(rep.gaps.iter().all(|g| g.is_real_hole));
    }
    // the direct-hit sweep skips 5344
    assert!(reps[1].holes.contains(&5344));
}
