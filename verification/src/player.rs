//! Rating snapshots and the rules that admit them to a computation.
//!
//! A snapshot pairs a rating with its deviation. Both are real numbers: an
//! infinity or a NaN in either place refuses the snapshot, so that none is
//! handed on to a formula. Every formula of the rating model divides by the
//! deviation or takes a root of it, so a computation starts only from a
//! snapshot whose deviation is greater than zero. The confidence interval
//! alone is defined for a deviation of zero as well.

use vstd::prelude::*;
use vstd::arithmetic::power2::lemma2_to64_rest;
use crate::binary64::Binary64;
use crate::outcome::Outcome;

verus! {

/// The encoding of 1500, the rating of a player who has not played yet.
pub const UNRATED_RATING: u64 = 0x4097_7000_0000_0000;

/// The encoding of 350, the deviation of a player who has not played yet.
pub const UNRATED_DEVIATION: u64 = 0x4075_e000_0000_0000;

/// A player's rating and rating deviation at one moment.
#[derive(Clone, Copy, Debug, PartialEq, Eq)]
pub struct Player {
    pub rating: Binary64,
    pub rd: Binary64,
}

/// An opponent as rated when the game was played, and how the game ended.
#[derive(Clone, Copy, Debug, PartialEq, Eq)]
pub struct GameResult(pub Player, pub Outcome);

/// Why a computation was refused.
#[derive(Clone, Copy, Debug, PartialEq, Eq)]
pub enum RatingError {
    /// A rating or a deviation is infinite or NaN, or a deviation is not
    /// greater than zero (for the confidence interval: less than zero).
    InvalidRatingState,
}

/// Every opponent of the period is a snapshot that an update may use.
pub open spec fn opponents_rated(results: Seq<GameResult>) -> bool {
    forall|i: int| 0 <= i < results.len() ==> (#[trigger] results[i]).0.rated()
}

impl GameResult {
    /// The score of the game in half points.
    pub fn half_points(&self) -> (halves: u8)
        ensures
            halves == self.1.score_halves(),
    {
        self.1.half_points()
    }
}

impl Player {
    /// The rating is a finite number, and the deviation is a finite number
    /// greater than zero.
    pub open spec fn rated(self) -> bool {
        self.rating.finite() && self.rd.finite() && self.rd.positive()
    }

    /// The rating is a finite number, and the deviation is a finite number
    /// not less than zero.
    pub open spec fn bounded(self) -> bool {
        self.rating.finite() && self.rd.finite() && self.rd.non_negative()
    }

    /// An unrated player: rating 1500, deviation 350.
    pub fn new() -> (p: Player)
        ensures
            p.rating.bits == UNRATED_RATING,
            p.rd.bits == UNRATED_DEVIATION,
            p.rating.denotes(1500),
            p.rd.denotes(350),
            p.rated(),
    {
        proof {
            lemma2_to64_rest();
        }
        Player {
            rating: Binary64 { bits: UNRATED_RATING },
            rd: Binary64 { bits: UNRATED_DEVIATION },
        }
    }

    /// Whether a computation may start from this snapshot.
    pub fn is_rated(&self) -> (b: bool)
        ensures
            b == self.rated(),
    {
        self.rating.is_finite() && self.rd.is_finite() && self.rd.is_positive()
    }

    /// Admits a rating period: the player and every opponent must be rated.
    /// An empty period is admitted.
    pub fn check_update(&self, game_results: &Vec<GameResult>) -> (r: Result<(), RatingError>)
        ensures
            r.is_ok() <==> self.rated() && opponents_rated(game_results@),
            r.is_err() ==> r == Err::<(), RatingError>(RatingError::InvalidRatingState),
    {
        if !self.is_rated() {
            return Err(RatingError::InvalidRatingState);
        }
        let mut i: usize = 0;
        while i < game_results.len()
            invariant
                i <= game_results.len(),
                forall|j: int| 0 <= j < i ==> (#[trigger] game_results@[j]).0.rated(),
            decreases game_results.len() - i,
        {
            if !game_results[i].0.is_rated() {
                return Err(RatingError::InvalidRatingState);
            }
            i += 1;
        }
        Ok(())
    }

    /// Admits a single matchup: both players must be rated.
    pub fn check_expected_outcome(&self, opponent: &Player) -> (r: Result<(), RatingError>)
        ensures
            r.is_ok() <==> self.rated() && opponent.rated(),
            r.is_err() ==> r == Err::<(), RatingError>(RatingError::InvalidRatingState),
    {
        if self.is_rated() && opponent.is_rated() {
            Ok(())
        } else {
            Err(RatingError::InvalidRatingState)
        }
    }

    /// Admits a confidence interval, which a deviation of zero still has and
    /// an infinite one has not.
    pub fn check_confidence_interval(&self) -> (r: Result<(), RatingError>)
        ensures
            r.is_ok() <==> self.bounded(),
            r.is_err() ==> r == Err::<(), RatingError>(RatingError::InvalidRatingState),
    {
        if self.rating.is_finite() && self.rd.is_finite() && self.rd.is_non_negative() {
            Ok(())
        } else {
            Err(RatingError::InvalidRatingState)
        }
    }
}

} // verus!
