use vstd::prelude::*;

verus! {

/// The result of one game, seen from one of its two players.
#[derive(Copy, Clone, Debug, PartialEq, Eq, Structural)]
pub enum Outcome {
    Win,
    Draw,
    Loss,
}

impl Outcome {
    /// The score that the outcome is worth, counted in half points: a win is
    /// one point, a draw half a point, a loss nothing.
    pub open spec fn spec_half_points(&self) -> u8 {
        match *self {
            Outcome::Win => 2,
            Outcome::Draw => 1,
            Outcome::Loss => 0,
        }
    }

    #[verifier::when_used_as_spec(spec_half_points)]
    pub fn half_points(&self) -> (points: u8)
        ensures
            points == self.spec_half_points(),
    {
        match *self {
            Outcome::Win => 2,
            Outcome::Draw => 1,
            Outcome::Loss => 0,
        }
    }
}

} // verus!
