use vstd::prelude::*;
use crate::calculator::{CalculatorView, RatedGame, RatingCalculator};
use crate::outcome::Outcome;
use crate::player::{IndexedRatedPlayer, RatedPlayer};

verus! {

/// A rating period as a mathematical value: one calculator state for each
/// registered player, in the order of registration.
pub struct PeriodView<N> {
    pub slots: Seq<CalculatorView<N>>,
}

impl<N> PeriodView<N> {
    /// The period in which nobody is registered.
    pub open spec fn empty() -> PeriodView<N> {
        PeriodView { slots: Seq::empty() }
    }

    /// The handle that registering `player` next gives out.
    pub open spec fn next_handle(self, player: RatedPlayer<N>) -> IndexedRatedPlayer<N> {
        IndexedRatedPlayer { rating: player.rating, rd: player.rd, index: self.slots.len() as usize }
    }

    /// The period after `player` was registered: one more calculator, at the
    /// end, without games.
    pub open spec fn add_player(self, player: RatedPlayer<N>) -> PeriodView<N> {
        PeriodView { slots: self.slots.push(CalculatorView::fresh(player)) }
    }

    /// The handle for the place `index`, where the period has such a place:
    /// it carries the rating that was registered there.
    pub open spec fn handle_at(self, index: int) -> Option<IndexedRatedPlayer<N>> {
        if 0 <= index < self.slots.len() {
            Some(
                IndexedRatedPlayer {
                    rating: self.slots[index].player.rating,
                    rd: self.slots[index].player.rd,
                    index: index as usize,
                },
            )
        } else {
            None
        }
    }

    /// Whether `handle` is one that this period gave out: the handle for
    /// the place that it names is the handle itself.
    pub open spec fn issued(self, handle: IndexedRatedPlayer<N>) -> bool {
        self.handle_at(handle.index as int) == Some(handle)
    }

    /// The period after `game` was recorded for the player at `index`.
    pub open spec fn add_game(self, index: int, game: RatedGame<N>) -> PeriodView<N> {
        if 0 <= index < self.slots.len() {
            PeriodView { slots: self.slots.update(index, self.slots[index].add_game(game)) }
        } else {
            self
        }
    }

    /// The period after a game that `winner` won against `loser`: first the
    /// winner's record of it, then the loser's.
    pub open spec fn add_result(
        self,
        winner: IndexedRatedPlayer<N>,
        loser: IndexedRatedPlayer<N>,
    ) -> PeriodView<N> {
        self.add_game(
            winner.index as int,
            RatedGame { outcome: Outcome::Win, opponent: loser.snapshot() },
        ).add_game(
            loser.index as int,
            RatedGame { outcome: Outcome::Loss, opponent: winner.snapshot() },
        )
    }

    /// The period after a drawn game between `player1` and `player2`: first
    /// the record of `player1`, then that of `player2`.
    pub open spec fn add_draw(
        self,
        player1: IndexedRatedPlayer<N>,
        player2: IndexedRatedPlayer<N>,
    ) -> PeriodView<N> {
        self.add_game(
            player1.index as int,
            RatedGame { outcome: Outcome::Draw, opponent: player2.snapshot() },
        ).add_game(
            player2.index as int,
            RatedGame { outcome: Outcome::Draw, opponent: player1.snapshot() },
        )
    }

    /// The ratings that the players were registered with, in order.
    pub open spec fn players(self) -> Seq<RatedPlayer<N>> {
        Seq::new(self.slots.len(), |i: int| self.slots[i].player)
    }

    /// The period after each of `players` was registered, first to last.
    pub open spec fn add_players(self, players: Seq<RatedPlayer<N>>) -> PeriodView<N>
        decreases players.len(),
    {
        if players.len() == 0 {
            self
        } else {
            self.add_players(players.drop_last()).add_player(players.last())
        }
    }
}

/// The players of one rating period and the games among them.
///
/// The handles that were given out and the calculators stand in two lists of
/// equal length: the handle at a place carries that place as its index and
/// the rating that the calculator at the same place was made for.
pub struct RatingPeriod<N> {
    players: Vec<IndexedRatedPlayer<N>>,
    calculators: Vec<RatingCalculator<N>>,
}

impl<N> RatingPeriod<N> {
    #[verifier::type_invariant]
    spec fn paired(&self) -> bool {
        &&& self.players@.len() == self.calculators@.len()
        &&& forall|i: int|
            0 <= i < self.players@.len() ==> {
                &&& (#[trigger] self.players@[i]).index == i
                &&& self.players@[i].rating == self.calculators@[i]@.player.rating
                &&& self.players@[i].rd == self.calculators@[i]@.player.rd
            }
    }

    /// The calculators of the period, in the order of registration.
    pub closed spec fn calculators(&self) -> Seq<RatingCalculator<N>> {
        self.calculators@
    }

    /// A period in which nobody is registered yet.
    pub fn new() -> (period: RatingPeriod<N>)
        ensures
            period@ == PeriodView::<N>::empty(),
    {
        let period = RatingPeriod { players: Vec::new(), calculators: Vec::new() };
        assert(period@.slots =~= PeriodView::<N>::empty().slots);
        period
    }
}

impl<N> Default for RatingPeriod<N> {
    fn default() -> (period: RatingPeriod<N>)
        ensures
            period@ == PeriodView::<N>::empty(),
    {
        RatingPeriod::new()
    }
}

impl<N> View for RatingPeriod<N> {
    type V = PeriodView<N>;

    open spec fn view(&self) -> PeriodView<N> {
        PeriodView {
            slots: Seq::new(self.calculators().len(), |i: int| self.calculators()[i]@),
        }
    }
}

impl<N: Copy> RatingPeriod<N> {
    /// Whether `updated` is a list that `calculate_new_ratings` may return
    /// with `formula`: one rating for each player, in the order of
    /// registration, each of them one that the player's calculator may
    /// return.
    pub open spec fn updates_to<F: Fn(&RatingCalculator<N>) -> RatedPlayer<N>>(
        &self,
        formula: F,
        updated: Seq<RatedPlayer<N>>,
    ) -> bool {
        &&& updated.len() == self.calculators().len()
        &&& forall|i: int|
            0 <= i < updated.len() ==> self.calculators()[i].updates_to(
                formula,
                #[trigger] updated[i],
            )
    }

    /// Registers `player` and gives out the handle by which results are
    /// recorded for them. Handles given out before stay as they are.
    pub fn add_player(&mut self, player: RatedPlayer<N>) -> (handle: IndexedRatedPlayer<N>)
        ensures
            handle == old(self)@.next_handle(player),
            final(self)@ == old(self)@.add_player(player),
            final(self)@.issued(handle),
    {
        proof {
            use_type_invariant(&*self);
        }
        // The two lists are taken out, grown and put back together: in
        // between, one is longer than the other.
        let mut period = RatingPeriod::new();
        std::mem::swap(self, &mut period);
        let RatingPeriod { mut players, mut calculators } = period;
        let handle = IndexedRatedPlayer { rating: player.rating, rd: player.rd, index: players.len() };
        calculators.push(RatingCalculator::for_player(player));
        players.push(handle);
        *self = RatingPeriod { players, calculators };
        assert(self@.slots =~= old(self)@.add_player(player).slots);
        handle
    }

    /// Records a game that `winner` won against `loser`: a win against the
    /// loser's registered rating for the one, a loss against the winner's
    /// for the other. Both handles must be handles of this period; a player
    /// may be recorded against itself.
    pub fn add_result(&mut self, winner: IndexedRatedPlayer<N>, loser: IndexedRatedPlayer<N>)
        requires
            old(self)@.issued(winner),
            old(self)@.issued(loser),
        ensures
            final(self)@ == old(self)@.add_result(winner, loser),
    {
        self.add_game_pair(winner, Outcome::Win, loser, Outcome::Loss);
    }

    /// Records a drawn game between `player1` and `player2`: for each a draw
    /// against the other's registered rating. Both handles must be handles
    /// of this period.
    pub fn add_draw(&mut self, player1: IndexedRatedPlayer<N>, player2: IndexedRatedPlayer<N>)
        requires
            old(self)@.issued(player1),
            old(self)@.issued(player2),
        ensures
            final(self)@ == old(self)@.add_draw(player1, player2),
    {
        self.add_game_pair(player1, Outcome::Draw, player2, Outcome::Draw);
    }

    fn add_game_pair(
        &mut self,
        first: IndexedRatedPlayer<N>,
        first_outcome: Outcome,
        second: IndexedRatedPlayer<N>,
        second_outcome: Outcome,
    )
        requires
            old(self)@.issued(first),
            old(self)@.issued(second),
        ensures
            final(self)@ == old(self)@.add_game(
                first.index as int,
                RatedGame { outcome: first_outcome, opponent: second.snapshot() },
            ).add_game(
                second.index as int,
                RatedGame { outcome: second_outcome, opponent: first.snapshot() },
            ),
    {
        proof {
            use_type_invariant(&*self);
        }
        let first_game = RatedGame { outcome: first_outcome, opponent: second.without_index() };
        let second_game = RatedGame { outcome: second_outcome, opponent: first.without_index() };
        // The lists are taken out and put back, so that the calculators can
        // be changed in place.
        let mut period = RatingPeriod::new();
        std::mem::swap(self, &mut period);
        let RatingPeriod { players, mut calculators } = period;
        calculators[first.index].add_game(first_game);
        calculators[second.index].add_game(second_game);
        *self = RatingPeriod { players, calculators };
        assert(self@.slots =~= old(self)@.add_game(first.index as int, first_game).add_game(
            second.index as int,
            second_game,
        ).slots);
    }

    /// How many players are registered.
    pub fn len(&self) -> (count: usize)
        ensures
            count == self@.slots.len(),
    {
        self.calculators.len()
    }

    /// The handle that was given out for the place `index`, if the period
    /// has that many players.
    pub fn handle_at(&self, index: usize) -> (handle: Option<IndexedRatedPlayer<N>>)
        ensures
            handle == self@.handle_at(index as int),
    {
        proof {
            use_type_invariant(self);
        }
        if index < self.players.len() {
            Some(self.players[index])
        } else {
            None
        }
    }

    /// The calculator of the player at `index`, if the period has that many
    /// players.
    pub fn calculator_at(&self, index: usize) -> (calculator: Option<&RatingCalculator<N>>)
        ensures
            match calculator {
                Some(found) => index < self.calculators().len() && *found == self.calculators()[index as int],
                None => index >= self.calculators().len(),
            },
    {
        if index < self.calculators.len() {
            Some(&self.calculators[index])
        } else {
            None
        }
    }

    /// The rating of every player after the period, in the order of
    /// registration: what `formula` makes of the calculator for a player
    /// with games, and the registered rating for a player without. Nothing
    /// in the period changes.
    pub fn calculate_new_ratings<F: Fn(&RatingCalculator<N>) -> RatedPlayer<N>>(
        &self,
        formula: F,
    ) -> (updated: Vec<RatedPlayer<N>>)
        requires
            forall|i: int|
                0 <= i < self.calculators().len() && self.calculators()[i]@.games.len() > 0
                    ==> formula.requires((&#[trigger] self.calculators()[i],)),
        ensures
            self.updates_to(formula, updated@),
            updated@.len() == self@.slots.len(),
            forall|i: int|
                0 <= i < updated@.len() && self@.slots[i].games.len() == 0 ==> #[trigger] updated@[i]
                    == self@.slots[i].player,
    {
        let mut updated: Vec<RatedPlayer<N>> = Vec::new();
        let mut i: usize = 0;
        while i < self.calculators.len()
            invariant
                i <= self.calculators().len(),
                updated@.len() == i,
                forall|k: int|
                    0 <= k < self.calculators().len() && self.calculators()[k]@.games.len() > 0
                        ==> formula.requires((&#[trigger] self.calculators()[k],)),
                forall|k: int|
                    0 <= k < i ==> self.calculators()[k].updates_to(formula, #[trigger] updated@[k]),
            decreases self.calculators().len() - i,
        {
            let calculator = &self.calculators[i];
            assert(*calculator == self.calculators()[i as int]);
            updated.push(calculator.calculate_new_rating(&formula));
            i += 1;
        }
        updated
    }
}

} // verus!
