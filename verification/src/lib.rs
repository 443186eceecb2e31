//! Glicko rating state: outcomes, snapshots and the rules that admit them.

pub mod binary64;
pub mod outcome;
pub mod player;

pub use binary64::Binary64;
pub use outcome::Outcome;
pub use player::{GameResult, Player, RatingError};
