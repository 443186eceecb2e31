//! The result of one game, seen from the player whose rating is updated.

use vstd::prelude::*;

verus! {

/// How a game ended for the player under update.
#[derive(Clone, Copy, Debug, PartialEq, Eq)]
pub enum Outcome {
    Lose,
    Win,
    Draw,
}

impl Outcome {
    /// The score of the outcome, counted in half points: a win is one point,
    /// a draw half a point, a loss nothing.
    pub open spec fn score_halves(self) -> nat {
        match self {
            Outcome::Win => 2,
            Outcome::Draw => 1,
            Outcome::Lose => 0,
        }
    }

    /// The score of the outcome in half points.
    pub fn half_points(&self) -> (halves: u8)
        ensures
            halves == self.score_halves(),
    {
        match self {
            Outcome::Win => 2,
            Outcome::Draw => 1,
            Outcome::Lose => 0,
        }
    }
}

} // verus!
