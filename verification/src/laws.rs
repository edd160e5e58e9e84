use vstd::prelude::*;
use crate::calculator::{CalculatorView, RatedGame, RatingCalculator};
use crate::outcome::Outcome;
use crate::period::{PeriodView, RatingPeriod};
use crate::player::{IndexedRatedPlayer, RatedPlayer};

verus! {

/// Registering players one after another with an empty period gives the
/// player at place `i` of the list the index `i`: when that player is
/// registered, exactly the `i` players before are in the period, the handle
/// given out carries `i` and the player's own rating, and it is a handle of
/// the period once all are registered. The period then has as many places as
/// the list has players, each without a game.
pub proof fn lemma_registration_order<N>(players: Seq<RatedPlayer<N>>, i: int)
    requires
        0 <= i < players.len() <= usize::MAX,
    ensures
        PeriodView::<N>::empty().add_players(players).slots.len() == players.len(),
        PeriodView::<N>::empty().add_players(players).slots[i] == CalculatorView::fresh(players[i]),
        PeriodView::<N>::empty().add_players(players.take(i)).next_handle(players[i])
            == (IndexedRatedPlayer { rating: players[i].rating, rd: players[i].rd, index: i as usize }),
        PeriodView::<N>::empty().add_players(players).issued(
            PeriodView::<N>::empty().add_players(players.take(i)).next_handle(players[i]),
        ),
{
    lemma_add_players_slots(PeriodView::<N>::empty(), players);
    lemma_add_players_slots(PeriodView::<N>::empty(), players.take(i));
}

/// Registering a list of players leaves the places that the period had as
/// they were and adds one place without games for each player of the list,
/// in the order of the list.
pub proof fn lemma_add_players_slots<N>(period: PeriodView<N>, players: Seq<RatedPlayer<N>>)
    ensures
        period.add_players(players).slots.len() == period.slots.len() + players.len(),
        forall|k: int|
            0 <= k < period.slots.len() ==> period.add_players(players).slots[k] == period.slots[k],
        forall|k: int|
            0 <= k < players.len() ==> period.add_players(players).slots[period.slots.len() + k]
                == CalculatorView::fresh(#[trigger] players[k]),
    decreases players.len(),
{
    if players.len() > 0 {
        let before = players.drop_last();
        lemma_add_players_slots(period, before);
        assert forall|k: int| 0 <= k < players.len() implies period.add_players(
            players,
        ).slots[period.slots.len() + k] == CalculatorView::fresh(#[trigger] players[k]) by {
            if k < before.len() {
                assert(before[k] == players[k]);
            }
        }
    }
}

/// The new ratings come one for each registered player and in the order of
/// registration: the rating at place `i` is the one that the calculator of
/// the player registered at `i` gives, and for a player without a game it is
/// exactly the rating that the player was registered with.
pub proof fn lemma_new_ratings_follow_registration<
    N: Copy,
    F: Fn(&RatingCalculator<N>) -> RatedPlayer<N>,
>(period: RatingPeriod<N>, formula: F, updated: Seq<RatedPlayer<N>>, i: int)
    requires
        period.updates_to(formula, updated),
        0 <= i < period@.slots.len(),
    ensures
        updated.len() == period@.players().len(),
        period.calculators()[i]@.player == period@.players()[i],
        period.calculators()[i].updates_to(formula, updated[i]),
        period@.slots[i].games.len() == 0 ==> updated[i] == period@.players()[i],
{
}

/// Asking a calculator twice gives the same rating twice, as long as nothing
/// was added in between and the formula gives one answer for one calculator.
pub proof fn lemma_same_games_same_rating<N: Copy, F: Fn(&RatingCalculator<N>) -> RatedPlayer<N>>(
    calculator: RatingCalculator<N>,
    formula: F,
    first: RatedPlayer<N>,
    second: RatedPlayer<N>,
)
    requires
        calculator.updates_to(formula, first),
        calculator.updates_to(formula, second),
        forall|a: RatedPlayer<N>, b: RatedPlayer<N>|
            formula.ensures((&calculator,), a) && formula.ensures((&calculator,), b) ==> a == b,
    ensures
        first == second,
{
}

/// In a period in which players were registered and no game was recorded,
/// the new ratings are the registered ratings, whatever the formula.
pub proof fn lemma_unplayed_period_keeps_ratings<
    N: Copy,
    F: Fn(&RatingCalculator<N>) -> RatedPlayer<N>,
>(period: RatingPeriod<N>, players: Seq<RatedPlayer<N>>, formula: F, updated: Seq<RatedPlayer<N>>)
    requires
        period@ == PeriodView::<N>::empty().add_players(players),
        period.updates_to(formula, updated),
    ensures
        updated == players,
{
    lemma_add_players_slots(PeriodView::<N>::empty(), players);
    assert forall|k: int| 0 <= k < players.len() implies updated[k] == players[k] by {
        assert(period@.slots[k] == CalculatorView::fresh(players[k]));
        assert(period.calculators()[k].updates_to(formula, updated[k]));
    }
    assert(updated =~= players);
}

/// Recording a game for one player changes nothing but that player's list of
/// games, which gets the game at its end: the number of players, their
/// registered ratings and every other player's games stay, and every handle
/// of the period is still one of it.
pub proof fn lemma_add_game_keeps_others<N>(period: PeriodView<N>, index: int, game: RatedGame<N>)
    requires
        0 <= index < period.slots.len(),
    ensures
        period.add_game(index, game).players() == period.players(),
        period.add_game(index, game).slots[index].games == period.slots[index].games.push(game),
        forall|k: int|
            0 <= k < period.slots.len() && k != index ==> #[trigger] period.add_game(
                index,
                game,
            ).slots[k] == period.slots[k],
        forall|handle: IndexedRatedPlayer<N>| #[trigger]
            period.issued(handle) ==> period.add_game(index, game).issued(handle),
{
    assert(period.add_game(index, game).players() =~= period.players());
}

/// A decisive game adds a win against the loser to the winner's games and a
/// loss against the winner to the loser's games, each at the end; for a
/// player recorded against itself the win comes before the loss. Every other
/// player's games, the registered ratings and the handles of the period stay
/// as they were.
pub proof fn lemma_add_result_keeps_others<N>(
    period: PeriodView<N>,
    winner: IndexedRatedPlayer<N>,
    loser: IndexedRatedPlayer<N>,
)
    requires
        period.issued(winner),
        period.issued(loser),
    ensures
        period.add_result(winner, loser).players() == period.players(),
        winner.index != loser.index ==> {
            &&& period.add_result(winner, loser).slots[winner.index as int].games
                == period.slots[winner.index as int].games.push(
                RatedGame { outcome: Outcome::Win, opponent: loser.snapshot() },
            )
            &&& period.add_result(winner, loser).slots[loser.index as int].games
                == period.slots[loser.index as int].games.push(
                RatedGame { outcome: Outcome::Loss, opponent: winner.snapshot() },
            )
        },
        winner.index == loser.index ==> period.add_result(winner, loser).slots[winner.index as int].games
            == period.slots[winner.index as int].games.push(
            RatedGame { outcome: Outcome::Win, opponent: loser.snapshot() },
        ).push(RatedGame { outcome: Outcome::Loss, opponent: winner.snapshot() }),
        forall|k: int|
            0 <= k < period.slots.len() && k != winner.index && k != loser.index
                ==> #[trigger] period.add_result(winner, loser).slots[k] == period.slots[k],
        forall|handle: IndexedRatedPlayer<N>| #[trigger]
            period.issued(handle) ==> period.add_result(winner, loser).issued(handle),
{
    let win = RatedGame { outcome: Outcome::Win, opponent: loser.snapshot() };
    let loss = RatedGame { outcome: Outcome::Loss, opponent: winner.snapshot() };
    lemma_add_game_keeps_others(period, winner.index as int, win);
    lemma_add_game_keeps_others(period.add_game(winner.index as int, win), loser.index as int, loss);
}

/// A drawn game adds a draw against the other to the games of each of the
/// two players, at the end; a player recorded against itself gets two draws.
/// Every other player's games, the registered ratings and the handles of the
/// period stay as they were.
pub proof fn lemma_add_draw_keeps_others<N>(
    period: PeriodView<N>,
    player1: IndexedRatedPlayer<N>,
    player2: IndexedRatedPlayer<N>,
)
    requires
        period.issued(player1),
        period.issued(player2),
    ensures
        period.add_draw(player1, player2).players() == period.players(),
        player1.index != player2.index ==> {
            &&& period.add_draw(player1, player2).slots[player1.index as int].games
                == period.slots[player1.index as int].games.push(
                RatedGame { outcome: Outcome::Draw, opponent: player2.snapshot() },
            )
            &&& period.add_draw(player1, player2).slots[player2.index as int].games
                == period.slots[player2.index as int].games.push(
                RatedGame { outcome: Outcome::Draw, opponent: player1.snapshot() },
            )
        },
        player1.index == player2.index ==> period.add_draw(player1, player2).slots[player1.index as int].games
            == period.slots[player1.index as int].games.push(
            RatedGame { outcome: Outcome::Draw, opponent: player2.snapshot() },
        ).push(RatedGame { outcome: Outcome::Draw, opponent: player1.snapshot() }),
        forall|k: int|
            0 <= k < period.slots.len() && k != player1.index && k != player2.index
                ==> #[trigger] period.add_draw(player1, player2).slots[k] == period.slots[k],
        forall|handle: IndexedRatedPlayer<N>| #[trigger]
            period.issued(handle) ==> period.add_draw(player1, player2).issued(handle),
{
    let first = RatedGame { outcome: Outcome::Draw, opponent: player2.snapshot() };
    let second = RatedGame { outcome: Outcome::Draw, opponent: player1.snapshot() };
    lemma_add_game_keeps_others(period, player1.index as int, first);
    lemma_add_game_keeps_others(period.add_game(player1.index as int, first), player2.index as int, second);
}

/// Registering a player keeps every handle of the period, and the handle
/// given out is one of the period from then on.
pub proof fn lemma_add_player_keeps_handles<N>(period: PeriodView<N>, player: RatedPlayer<N>)
    requires
        period.slots.len() <= usize::MAX,
    ensures
        period.add_player(player).issued(period.next_handle(player)),
        forall|handle: IndexedRatedPlayer<N>| #[trigger]
            period.issued(handle) ==> period.add_player(player).issued(handle),
{
}

} // verus!
