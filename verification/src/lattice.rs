//! Degradation tiers of the store pressure index.

use vstd::prelude::*;

verus! {

/// How far the store is degraded, from best to worst.
#[derive(Clone, Copy, Debug, PartialEq, Eq, PartialOrd, Ord, Structural)]
pub enum Tier {
    Normal,
    Elevated,
    Critical,
    Siege,
}

/// The rank of a tier, from 0 for the best.
pub open spec fn rank(t: Tier) -> u8 {
    match t {
        Tier::Normal => 0,
        Tier::Elevated => 1,
        Tier::Critical => 2,
        Tier::Siege => 3,
    }
}

/// The name of a tier.
pub open spec fn tier_text(t: Tier) -> Seq<char> {
    match t {
        Tier::Normal => "NORMAL"@,
        Tier::Elevated => "ELEVATED"@,
        Tier::Critical => "CRITICAL"@,
        Tier::Siege => "SIEGE"@,
    }
}

impl Tier {
    /// The rank, from 0 for the best.
    pub fn as_u8(self) -> (r: u8)
        ensures
            r == rank(self),
    {
        match self {
            Tier::Normal => 0,
            Tier::Elevated => 1,
            Tier::Critical => 2,
            Tier::Siege => 3,
        }
    }

    /// The name.
    pub fn as_str(self) -> (r: &'static str)
        ensures
            r@ == tier_text(self),
    {
        match self {
            Tier::Normal => "NORMAL",
            Tier::Elevated => "ELEVATED",
            Tier::Critical => "CRITICAL",
            Tier::Siege => "SIEGE",
        }
    }
}

/// Ranks follow the tiers from the best to the worst, and tell them apart.
pub proof fn ranks_follow_the_tiers(a: Tier, b: Tier)
    ensures
        rank(Tier::Normal) < rank(Tier::Elevated) < rank(Tier::Critical) < rank(Tier::Siege),
        rank(a) == rank(b) ==> a == b,
{
}

} // verus!
