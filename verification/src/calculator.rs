use vstd::prelude::*;
use crate::outcome::Outcome;
use crate::player::RatedPlayer;

verus! {

/// One game of the period: how it ended for the player who holds the record,
/// and what the opponent's rating and deviation were when the game was
/// recorded. The opponent is kept as a value, so nothing that happens to the
/// opponent afterwards changes the record.
pub struct RatedGame<N> {
    pub outcome: Outcome,
    pub opponent: RatedPlayer<N>,
}

impl<N: Copy> Clone for RatedGame<N> {
    fn clone(&self) -> (copy: RatedGame<N>)
        ensures
            copy == *self,
    {
        *self
    }
}

impl<N: Copy> Copy for RatedGame<N> {

}

/// What a calculator holds, as a mathematical value: the player's rating
/// before the period, and the games in the order in which they were recorded.
pub struct CalculatorView<N> {
    pub player: RatedPlayer<N>,
    pub games: Seq<RatedGame<N>>,
}

impl<N> CalculatorView<N> {
    /// A calculator that was just made for `player`: no game yet.
    pub open spec fn fresh(player: RatedPlayer<N>) -> CalculatorView<N> {
        CalculatorView { player, games: Seq::empty() }
    }

    /// The same calculator with `game` recorded after the games it had.
    pub open spec fn add_game(self, game: RatedGame<N>) -> CalculatorView<N> {
        CalculatorView { player: self.player, games: self.games.push(game) }
    }
}

/// One player's rating before the period and the games that the player has
/// played in it.
///
/// The calculator decides when a rating changes at all; how it changes is
/// the caller's formula, a function from a calculator with at least one game
/// to the player's new rating.
pub struct RatingCalculator<N> {
    player: RatedPlayer<N>,
    games: Vec<RatedGame<N>>,
}

impl<N> View for RatingCalculator<N> {
    type V = CalculatorView<N>;

    closed spec fn view(&self) -> CalculatorView<N> {
        CalculatorView { player: self.player, games: self.games@ }
    }
}

impl<N: Copy> RatingCalculator<N> {
    /// Whether `updated` is a rating that `calculate_new_rating` may return
    /// with `formula`: without a game, the player's own rating and nothing
    /// else; with games, whatever `formula` may return for this calculator.
    pub open spec fn updates_to<F: Fn(&RatingCalculator<N>) -> RatedPlayer<N>>(
        &self,
        formula: F,
        updated: RatedPlayer<N>,
    ) -> bool {
        if self@.games.len() == 0 {
            updated == self@.player
        } else {
            formula.ensures((self,), updated)
        }
    }

    /// A calculator for `player`, with no game recorded.
    pub fn for_player(player: RatedPlayer<N>) -> (calculator: RatingCalculator<N>)
        ensures
            calculator@ == CalculatorView::fresh(player),
    {
        RatingCalculator { player, games: Vec::new() }
    }

    /// Records `game` after the games that are already there.
    pub fn add_game(&mut self, game: RatedGame<N>)
        ensures
            final(self)@ == old(self)@.add_game(game),
    {
        self.games.push(game);
    }

    /// The player's rating and deviation before the period.
    pub fn player(&self) -> (player: RatedPlayer<N>)
        ensures
            player == self@.player,
    {
        self.player
    }

    /// The recorded games, oldest first.
    pub fn games(&self) -> (games: &[RatedGame<N>])
        ensures
            games@ == self@.games,
    {
        self.games.as_slice()
    }

    /// The player's rating after the period.
    ///
    /// A player without a game keeps rating and deviation exactly, and
    /// `formula` is not consulted: it is only ever handed a calculator that
    /// holds at least one game, so it may divide by sums over the games.
    pub fn calculate_new_rating<F: Fn(&RatingCalculator<N>) -> RatedPlayer<N>>(
        &self,
        formula: F,
    ) -> (updated: RatedPlayer<N>)
        requires
            self@.games.len() > 0 ==> formula.requires((self,)),
        ensures
            self.updates_to(formula, updated),
            self@.games.len() == 0 ==> updated == self@.player,
    {
        if self.games.len() == 0 {
            self.player
        } else {
            formula(self)
        }
    }
}

} // verus!
