use vstd::prelude::*;

verus! {

/// How one axis of a hit (critical or direct) is handled when the damage is
/// evaluated.
#[derive(Clone, Copy, Debug, PartialEq, Eq, Structural)]
pub enum HitOutcome {
    /// The hit always procs and its multiplier is compounded with the chance.
    /// Ticks never use it.
    Forced,
    /// The expected value of hit and no hit, weighted by the chance.
    Averaged,
    /// The hit always procs.
    AlwaysHit,
    /// The hit never procs.
    NeverHit,
}

/// One of the four deterministic crit / direct-hit combinations that a tick
/// can land with.
#[derive(Clone, Copy, Debug, PartialEq, Eq, Structural)]
pub enum Outcome {
    /// Neither a critical nor a direct hit.
    Normal,
    /// A direct hit only.
    DirectHit,
    /// A critical hit only.
    Crit,
    /// Both a critical and a direct hit.
    CritDirectHit,
}

impl Outcome {
    pub open spec fn crit_spec(self) -> HitOutcome {
        match self {
            Outcome::Normal | Outcome::DirectHit => HitOutcome::NeverHit,
            Outcome::Crit | Outcome::CritDirectHit => HitOutcome::AlwaysHit,
        }
    }

    pub open spec fn direct_hit_spec(self) -> HitOutcome {
        match self {
            Outcome::Normal | Outcome::Crit => HitOutcome::NeverHit,
            Outcome::DirectHit | Outcome::CritDirectHit => HitOutcome::AlwaysHit,
        }
    }

    /// The handling of the critical axis for this combination.
    pub fn crit(self) -> (r: HitOutcome)
        ensures
            r == self.crit_spec(),
    {
        match self {
            Outcome::Normal | Outcome::DirectHit => HitOutcome::NeverHit,
            Outcome::Crit | Outcome::CritDirectHit => HitOutcome::AlwaysHit,
        }
    }

    /// The handling of the direct-hit axis for this combination.
    pub fn direct_hit(self) -> (r: HitOutcome)
        ensures
            r == self.direct_hit_spec(),
    {
        match self {
            Outcome::Normal | Outcome::Crit => HitOutcome::NeverHit,
            Outcome::DirectHit | Outcome::CritDirectHit => HitOutcome::AlwaysHit,
        }
    }

    /// A short label: `nh`, `dh`, `ch` or `cdh`.
    pub fn label(self) -> (r: String)
        ensures
            r@ == match self {
                Outcome::Normal => "nh"@,
                Outcome::DirectHit => "dh"@,
                Outcome::Crit => "ch"@,
                Outcome::CritDirectHit => "cdh"@,
            },
    {
        match self {
            Outcome::Normal => String::from_str("nh"),
            Outcome::DirectHit => String::from_str("dh"),
            Outcome::Crit => String::from_str("ch"),
            Outcome::CritDirectHit => String::from_str("cdh"),
        }
    }
}

/// The four combinations, in the order in which they are checked.
pub open spec fn all_outcomes_spec() -> Seq<Outcome> {
    seq![Outcome::Normal, Outcome::DirectHit, Outcome::Crit, Outcome::CritDirectHit]
}

/// The four combinations, in the order in which they are checked.
pub fn all_outcomes() -> (r: Vec<Outcome>)
    ensures
        r@ == all_outcomes_spec(),
{
    let r = vec![Outcome::Normal, Outcome::DirectHit, Outcome::Crit, Outcome::CritDirectHit];
    assert(r@ =~= all_outcomes_spec());
    r
}

} // verus!
