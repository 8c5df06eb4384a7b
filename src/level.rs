//! The severity tier and its ordinal scale.
use vstd::prelude::*;

verus! {

/// A severity tier, ordered `Unknown < Low < Medium < High`.
#[derive(Clone, Copy, Debug, PartialEq, Eq, Structural)]
pub enum HazardLevel {
    Unknown,
    Low,
    Medium,
    High,
}

/// The ordinal of a tier: Unknown 0, Low 1, Medium 2, High 3.
pub open spec fn rank_of(l: HazardLevel) -> nat {
    match l {
        HazardLevel::Unknown => 0,
        HazardLevel::Low => 1,
        HazardLevel::Medium => 2,
        HazardLevel::High => 3,
    }
}

/// The tier whose ordinal is `n`; any ordinal above 2 is High.
pub open spec fn level_of_rank(n: nat) -> HazardLevel {
    if n == 0 {
        HazardLevel::Unknown
    } else if n == 1 {
        HazardLevel::Low
    } else if n == 2 {
        HazardLevel::Medium
    } else {
        HazardLevel::High
    }
}

/// The external label of a tier.
pub open spec fn label_of(l: HazardLevel) -> Seq<char> {
    match l {
        HazardLevel::Unknown => "Unknown"@,
        HazardLevel::Low => "Low"@,
        HazardLevel::Medium => "Medium"@,
        HazardLevel::High => "High"@,
    }
}

/// Converting a tier to its ordinal and back gives the same tier.
pub proof fn lemma_rank_round_trip(l: HazardLevel)
    ensures
        level_of_rank(rank_of(l)) == l,
        rank_of(l) <= 3,
{
}

impl HazardLevel {
    /// The ordinal of this tier.
    pub fn rank(&self) -> (r: u8)
        ensures
            r as nat == rank_of(*self),
    {
        match self {
            HazardLevel::Unknown => 0,
            HazardLevel::Low => 1,
            HazardLevel::Medium => 2,
            HazardLevel::High => 3,
        }
    }

    /// The tier of an ordinal; 0 is Unknown, and anything above 2 is High.
    pub fn from_rank(n: u8) -> (r: HazardLevel)
        ensures
            r == level_of_rank(n as nat),
    {
        if n == 0 {
            HazardLevel::Unknown
        } else if n == 1 {
            HazardLevel::Low
        } else if n == 2 {
            HazardLevel::Medium
        } else {
            HazardLevel::High
        }
    }

    /// The label of this tier: "High", "Medium", "Low" or "Unknown".
    pub fn label(&self) -> (r: String)
        ensures
            r@ == label_of(*self),
    {
        match self {
            HazardLevel::Unknown => "Unknown".to_owned(),
            HazardLevel::Low => "Low".to_owned(),
            HazardLevel::Medium => "Medium".to_owned(),
            HazardLevel::High => "High".to_owned(),
        }
    }
}

} // verus!
