//! Rating periods for Glicko-style ratings.
//!
//! A [`RatingPeriod`] registers players, gives each a handle, records the
//! games among them and, at the end, asks every player's
//! [`RatingCalculator`] for the new rating. The period and the calculators
//! keep the books: who is registered at which index, which games each player
//! has played in which order, against which rating of the opponent, and
//! that a player without a game keeps rating and deviation. The arithmetic
//! of the rating system is the caller's: a formula from a calculator with at
//! least one game to the player's new rating. Ratings and deviations are of a
//! number type `N` of the caller's choice, which the library stores and
//! copies and never computes with.

pub mod calculator;
pub mod laws;
pub mod outcome;
pub mod period;
pub mod player;

pub use calculator::{CalculatorView, RatedGame, RatingCalculator};
pub use outcome::Outcome;
pub use period::{PeriodView, RatingPeriod};
pub use player::{IndexedRatedPlayer, RatedPlayer};
