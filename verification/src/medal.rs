//! Medals awarded on the scoreboard, by bands of the final score.

use vstd::prelude::*;

verus! {

/// Scores of 10 and above earn a medal; every ten points move it up a
/// grade, and platinum is the top grade from 40 on.
#[derive(Clone, Copy, Debug, PartialEq, Eq, Structural)]
pub enum MedalType {
    Bronze,
    Silver,
    Gold,
    Platinum,
}

impl MedalType {
    /// Grade of a medal, for comparing awards: bronze is lowest.
    pub open spec fn grade(self) -> int {
        match self {
            MedalType::Bronze => 1,
            MedalType::Silver => 2,
            MedalType::Gold => 3,
            MedalType::Platinum => 4,
        }
    }

    /// Lower-case name used to pick the medal image.
    pub fn name(self) -> (r: &'static str)
        ensures
            self == MedalType::Bronze ==> r@ == "bronze"@,
            self == MedalType::Silver ==> r@ == "silver"@,
            self == MedalType::Gold ==> r@ == "gold"@,
            self == MedalType::Platinum ==> r@ == "platinum"@,
    {
        match self {
            MedalType::Bronze => "bronze",
            MedalType::Silver => "silver",
            MedalType::Gold => "gold",
            MedalType::Platinum => "platinum",
        }
    }
}

/// The medal slot of the scoreboard: empty for scores under ten.
pub struct Medal(Option<MedalType>);

impl Medal {
    /// The award the slot holds, or nothing.
    pub closed spec fn award(self) -> Option<MedalType> {
        self.0
    }

    /// Wrap an award, or the empty slot.
    pub fn new(medal: Option<MedalType>) -> (r: Medal)
        ensures
            r.award() == medal,
    {
        Medal(medal)
    }

    /// Read the award back.
    pub fn get(&self) -> (r: &Option<MedalType>)
        ensures
            *r == self.award(),
    {
        &self.0
    }
}

/// The medal that a final score earns.
pub open spec fn medal_for_score_spec(score: nat) -> Option<MedalType> {
    if score < 10 {
        None
    } else if score < 20 {
        Some(MedalType::Bronze)
    } else if score < 30 {
        Some(MedalType::Silver)
    } else if score < 40 {
        Some(MedalType::Gold)
    } else {
        Some(MedalType::Platinum)
    }
}

/// Decide the medal for a final score: none under 10, bronze from 10,
/// silver from 20, gold from 30, platinum from 40.
pub fn medal_for_score(score: u32) -> (r: Option<MedalType>)
    ensures
        r == medal_for_score_spec(score as nat),
{
    if score >= 10 && score < 20 {
        Some(MedalType::Bronze)
    } else if score >= 20 && score < 30 {
        Some(MedalType::Silver)
    } else if score >= 30 && score < 40 {
        Some(MedalType::Gold)
    } else if score >= 40 {
        Some(MedalType::Platinum)
    } else {
        None
    }
}

/// Grade of an award, with the empty slot below every medal.
pub open spec fn award_grade(award: Option<MedalType>) -> int {
    match award {
        None => 0,
        Some(m) => m.grade(),
    }
}

/// A higher score never earns a lower medal: the award's grade is
/// monotone in the score.
pub proof fn lemma_medal_monotone(s1: nat, s2: nat)
    requires
        s1 <= s2,
    ensures
        award_grade(medal_for_score_spec(s1)) <= award_grade(medal_for_score_spec(s2)),
{
}

} // verus!
