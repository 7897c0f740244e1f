//! Categorical combat tags and their advantage tables.
//!
//! Multipliers are held in fixed-point quarter units so that the tables stay
//! in exact integer arithmetic: 4 quarters is the neutral factor 1.0, 8 is
//! 2.0, 2 is 0.5, 6 is 1.5 and 3 is 0.75.

use vstd::prelude::*;

verus! {

/// The neutral advantage factor (1.0) in quarter units.
pub const ADV_NEUTRAL: u32 = 4;

/// Alignment tag of a battler; the advantage cycle runs
/// Data > Vaccine > Virus > Data, and Free is outside the cycle.
#[derive(Clone, Copy, Debug, PartialEq, Eq, Structural)]
pub enum EAlignment {
    Free,
    Vaccine,
    Data,
    Virus,
}

/// Elemental attribute tag of a battler.
#[derive(Clone, Copy, Debug, PartialEq, Eq, Structural)]
pub enum EAttribute {
    Fire,
    Water,
    Plant,
    Eletric,
    Earth,
    Wind,
    Light,
    Dark,
    Neutral,
}

impl EAlignment {
    /// Advantage of `self` attacking `target`, in quarter units:
    /// 8 (2.0) along the cycle, 2 (0.5) against it, 4 (1.0) otherwise.
    pub open spec fn advantage_spec(self, target: EAlignment) -> u32 {
        match (self, target) {
            (EAlignment::Data, EAlignment::Vaccine) => 8,
            (EAlignment::Vaccine, EAlignment::Virus) => 8,
            (EAlignment::Virus, EAlignment::Data) => 8,
            (EAlignment::Vaccine, EAlignment::Data) => 2,
            (EAlignment::Virus, EAlignment::Vaccine) => 2,
            (EAlignment::Data, EAlignment::Virus) => 2,
            _ => 4,
        }
    }

    /// Looks up the advantage multiplier of `self` attacking `target`,
    /// in quarter units.
    pub fn get_advantage(&self, target: &EAlignment) -> (r: u32)
        ensures
            r == self.advantage_spec(*target),
    {
        match (*self, *target) {
            (EAlignment::Data, EAlignment::Vaccine) => 8,
            (EAlignment::Vaccine, EAlignment::Virus) => 8,
            (EAlignment::Virus, EAlignment::Data) => 8,
            (EAlignment::Vaccine, EAlignment::Data) => 2,
            (EAlignment::Virus, EAlignment::Vaccine) => 2,
            (EAlignment::Data, EAlignment::Virus) => 2,
            _ => 4,
        }
    }
}

impl EAttribute {
    /// Advantage of `self` attacking `target`, in quarter units:
    /// 6 (1.5) for a strong-against pair, 3 (0.75) for its inverse,
    /// 4 (1.0) otherwise, Neutral included.
    pub open spec fn advantage_spec(self, target: EAttribute) -> u32 {
        match (self, target) {
            (EAttribute::Fire, EAttribute::Plant) => 6,
            (EAttribute::Plant, EAttribute::Water) => 6,
            (EAttribute::Water, EAttribute::Fire) => 6,
            (EAttribute::Eletric, EAttribute::Wind) => 6,
            (EAttribute::Wind, EAttribute::Earth) => 6,
            (EAttribute::Earth, EAttribute::Eletric) => 6,
            (EAttribute::Light, EAttribute::Dark) => 6,
            (EAttribute::Dark, EAttribute::Light) => 6,
            (EAttribute::Plant, EAttribute::Fire) => 3,
            (EAttribute::Water, EAttribute::Plant) => 3,
            (EAttribute::Fire, EAttribute::Water) => 3,
            (EAttribute::Wind, EAttribute::Eletric) => 3,
            (EAttribute::Earth, EAttribute::Wind) => 3,
            (EAttribute::Eletric, EAttribute::Earth) => 3,
            _ => 4,
        }
    }

    /// Looks up the advantage multiplier of `self` attacking `target`,
    /// in quarter units.
    pub fn get_advantage(&self, target: &EAttribute) -> (r: u32)
        ensures
            r == self.advantage_spec(*target),
    {
        match (*self, *target) {
            (EAttribute::Fire, EAttribute::Plant) => 6,
            (EAttribute::Plant, EAttribute::Water) => 6,
            (EAttribute::Water, EAttribute::Fire) => 6,
            (EAttribute::Eletric, EAttribute::Wind) => 6,
            (EAttribute::Wind, EAttribute::Earth) => 6,
            (EAttribute::Earth, EAttribute::Eletric) => 6,
            (EAttribute::Light, EAttribute::Dark) => 6,
            (EAttribute::Dark, EAttribute::Light) => 6,
            (EAttribute::Plant, EAttribute::Fire) => 3,
            (EAttribute::Water, EAttribute::Plant) => 3,
            (EAttribute::Fire, EAttribute::Water) => 3,
            (EAttribute::Wind, EAttribute::Eletric) => 3,
            (EAttribute::Earth, EAttribute::Wind) => 3,
            (EAttribute::Eletric, EAttribute::Earth) => 3,
            _ => 4,
        }
    }
}

/// Law: alignment advantage is self-inverse — for every pair of alignments
/// the two directed multipliers cancel to the neutral factor 1.0
/// (in quarter units, their product is always 16).
pub proof fn lemma_alignment_advantage_inverse(a: EAlignment, b: EAlignment)
    ensures
        a.advantage_spec(b) * b.advantage_spec(a) == 16,
{
    let qa = a.advantage_spec(b);
    let qb = b.advantage_spec(a);
    assert((qa == 8 && qb == 2) || (qa == 2 && qb == 8) || (qa == 4 && qb == 4));
    assert(qa * qb == 16) by (nonlinear_arith)
        requires
            (qa == 8 && qb == 2) || (qa == 2 && qb == 8) || (qa == 4 && qb == 4),
    ;
}

/// Law: the Free alignment neither gains nor suffers an advantage — both
/// directed multipliers against any alignment are neutral (1.0).
pub proof fn lemma_alignment_free_neutral(x: EAlignment)
    ensures
        EAlignment::Free.advantage_spec(x) == ADV_NEUTRAL,
        x.advantage_spec(EAlignment::Free) == ADV_NEUTRAL,
{
}

/// Law: attribute advantage pairs invert each other — a strong-against pair
/// (1.5) always has the inverse multiplier 0.75 in the other direction, and
/// any pair outside the table is neutral both ways.
pub proof fn lemma_attribute_advantage_inverse(a: EAttribute, b: EAttribute)
    ensures
        a.advantage_spec(b) == 6 ==> b.advantage_spec(a) == 3 || b.advantage_spec(a) == 6,
        a.advantage_spec(b) == 3 ==> b.advantage_spec(a) == 6,
        a.advantage_spec(b) == 4 ==> b.advantage_spec(a) == 4,
{
}

/// Law: the Neutral attribute neither gains nor suffers an advantage — both
/// directed multipliers against any attribute are neutral (1.0).
pub proof fn lemma_attribute_neutral(x: EAttribute)
    ensures
        EAttribute::Neutral.advantage_spec(x) == ADV_NEUTRAL,
        x.advantage_spec(EAttribute::Neutral) == ADV_NEUTRAL,
{
}

} // verus!
