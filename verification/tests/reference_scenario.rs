use glicko::{Outcome, RatedGame, RatedPlayer, RatingCalculator, RatingPeriod};

const Q: f32 = 0.0057564627324851142100449786;

fn g(rd: f32) -> f32 {
    (1f32 + 3f32 * Q.powi(2) * rd.powi(2) / std::f32::consts::PI.powi(2)).sqrt().recip()
}

fn e(r: f32, r_j: f32, rd_j: f32) -> f32 {
    (1f32 + 10f32.powf(-g(rd_j) * (r - r_j) / 400f32)).recip()
}

fn numeric_value(outcome: Outcome) -> f32 {
    f32::from(outcome.half_points()) / 2f32
}

fn d2(calculator: &RatingCalculator<f32>) -> f32 {
    let mut sum = 0f32;
    let r = calculator.player().rating;
    for game in calculator.games() {
        let r_j = game.opponent.rating;
        let rd_j = game.opponent.rd;

        let result_of_e = e(r, r_j, rd_j);
        sum += g(rd_j).powi(2) * result_of_e * (1f32 - result_of_e);
    }

    (Q.powi(2) * sum).recip()
}

fn glicko(calculator: &RatingCalculator<f32>) -> RatedPlayer<f32> {
    let r = calculator.player().rating;
    let rd = calculator.player().rd;

    let mut sum = 0f32;
    for game in calculator.games() {
        let r_j = game.opponent.rating;
        let rd_j = game.opponent.rd;
        let s_j = numeric_value(game.outcome);

        sum += g(rd_j) * (s_j - e(r, r_j, rd_j));
    }

    let d_2 = d2(calculator);

    let new_r = r + (Q / (rd.powi(2).recip() + d_2.recip())) * sum;
    let new_rd = (rd.powi(2).recip() + d_2.recip()).recip().sqrt();

    RatedPlayer::from_rating_and_rd(new_r, new_rd)
}

fn rd_after_inactivity(rd: f32, c: f32, t: i32) -> f32 {
    let new_rd = (rd.powi(2) + c.powi(2) * (t as f32)).sqrt();
    if new_rd > 350f32 { 350f32 } else { new_rd }
}

fn rd_after_one_period(rd: f32, c: f32) -> f32 {
    let new_rd = (rd.powi(2) + c.powi(2)).sqrt();
    if new_rd > 350f32 { 350f32 } else { new_rd }
}

fn are_close_enough(a: f32, b: f32) -> bool {
    let r = (a - b).abs() <= 0.001;
    if !r {
        println!("a: {}, b: {}", a, b);
    }
    r
}

fn assert_close_enough(a: f32, b: f32) {
    assert!(are_close_enough(a, b));
}

#[test]
fn calculation_separate_steps_for_one_player_and_opponents() {
    // Value taken from http://glicko.net/glicko/glicko.pdf at "Example calculation"

    let player = RatedPlayer::from_rating_and_rd(1500f32, 200f32);
    let opp1 = RatedPlayer::from_rating_and_rd(1400f32, 30f32);
    let opp2 = RatedPlayer::from_rating_and_rd(1550f32, 100f32);
    let opp3 = RatedPlayer::from_rating_and_rd(1700f32, 300f32);

    assert_close_enough(0.9955, g(opp1.rd));
    assert_close_enough(0.9531, g(opp2.rd));
    assert_close_enough(0.7242, g(opp3.rd));

    assert_close_enough(0.639, e(player.rating, opp1.rating, opp1.rd));
    assert_close_enough(0.432, e(player.rating, opp2.rating, opp2.rd));
    assert_close_enough(0.303, e(player.rating, opp3.rating, opp3.rd));

    let mut calculator = RatingCalculator::for_player(player);
    calculator.add_game(RatedGame { opponent: opp1, outcome: Outcome::Win });
    calculator.add_game(RatedGame { opponent: opp2, outcome: Outcome::Loss });
    calculator.add_game(RatedGame { opponent: opp3, outcome: Outcome::Loss });

    assert_eq!(231.7, (d2(&calculator).sqrt() * 10.0).round() / 10.0);

    let new_rating = calculator.calculate_new_rating(glicko);
    assert_eq!(1464f32, new_rating.rating.round());
    assert_eq!(151.4, (new_rating.rd * 10.0).round() / 10.0);

    let mut period = RatingPeriod::new();
    let player = period.add_player(player);
    assert_eq!(0, player.index);
    let opp1 = period.add_player(opp1);
    assert_eq!(1, opp1.index);
    let opp2 = period.add_player(opp2);
    assert_eq!(2, opp2.index);
    let opp3 = period.add_player(opp3);
    assert_eq!(3, opp3.index);
    let no_games_played = period.add_player(RatedPlayer::from_rating_and_rd(1800f32, 45f32));
    assert_eq!(4, no_games_played.index);
    period.add_result(player, opp1);
    period.add_result(opp2, player);
    period.add_result(opp3, player);

    let new_ratings = period.calculate_new_ratings(glicko);
    let (new_player, new_opp1, new_opp2, new_opp3, new_without_games) = (new_ratings[0], new_ratings[1], new_ratings[2], new_ratings[3], new_ratings[4]);
    assert_eq!(1464f32, new_player.rating.round());
    assert_eq!(151.4, (new_player.rd * 10.0).round() / 10.0);
    assert!(new_opp1.rating < opp1.rating);
    assert!(new_opp2.rating > opp2.rating);
    assert!(new_opp3.rating > opp3.rating);
    assert!(new_opp1.rd < opp1.rd);
    assert!(new_opp2.rd < opp2.rd);
    assert!(new_opp3.rd < opp3.rd);
    assert_eq!(new_without_games.rating, no_games_played.rating);
    assert_eq!(new_without_games.rd, no_games_played.rd);
}

#[test]
fn period_and_lone_calculator_agree_on_the_worked_example() {
    let mut calculator = RatingCalculator::for_player(RatedPlayer::from_rating_and_rd(1500f32, 200f32));
    calculator.add_game(RatedGame {
        outcome: Outcome::Win,
        opponent: RatedPlayer::from_rating_and_rd(1400f32, 30f32),
    });
    calculator.add_game(RatedGame {
        outcome: Outcome::Loss,
        opponent: RatedPlayer::from_rating_and_rd(1550f32, 100f32),
    });
    calculator.add_game(RatedGame {
        outcome: Outcome::Loss,
        opponent: RatedPlayer::from_rating_and_rd(1700f32, 300f32),
    });
    let alone = calculator.calculate_new_rating(glicko);

    let mut period = RatingPeriod::new();
    let player = period.add_player(RatedPlayer::from_rating_and_rd(1500f32, 200f32));
    let opp1 = period.add_player(RatedPlayer::from_rating_and_rd(1400f32, 30f32));
    let opp2 = period.add_player(RatedPlayer::from_rating_and_rd(1550f32, 100f32));
    let opp3 = period.add_player(RatedPlayer::from_rating_and_rd(1700f32, 300f32));
    period.add_result(player, opp1);
    period.add_result(opp2, player);
    period.add_result(opp3, player);
    let batch = period.calculate_new_ratings(glicko);

    assert_eq!(alone.rating, batch[0].rating);
    assert_eq!(alone.rd, batch[0].rd);
    assert_eq!(231.7, (d2(period.calculator_at(0).unwrap()).sqrt() * 10.0).round() / 10.0);
}

#[test]
fn only_winning_never_lowers_and_only_losing_never_raises_the_rating() {
    let mut period = RatingPeriod::new();
    let winner = period.add_player(RatedPlayer::from_rating_and_rd(1500f32, 200f32));
    let loser = period.add_player(RatedPlayer::from_rating_and_rd(1500f32, 200f32));
    let strong = period.add_player(RatedPlayer::from_rating_and_rd(2100f32, 60f32));
    let weak = period.add_player(RatedPlayer::from_rating_and_rd(900f32, 350f32));
    period.add_result(winner, loser);
    period.add_result(winner, strong);
    period.add_result(winner, weak);
    period.add_result(strong, loser);
    period.add_result(weak, loser);

    let updated = period.calculate_new_ratings(glicko);
    assert!(updated[winner.index].rating >= winner.rating);
    assert!(updated[loser.index].rating <= loser.rating);
    assert!(updated[winner.index].rating > updated[loser.index].rating);
}

#[test]
fn a_win_counts_for_more_than_a_loss_in_the_same_game() {
    let player = RatedPlayer::from_rating_and_rd(1600f32, 120f32);
    let opponent = RatedPlayer::from_rating_and_rd(1450f32, 80f32);

    let mut won = RatingCalculator::for_player(player);
    won.add_game(RatedGame { outcome: Outcome::Win, opponent });
    let mut drew = RatingCalculator::for_player(player);
    drew.add_game(RatedGame { outcome: Outcome::Draw, opponent });
    let mut lost = RatingCalculator::for_player(player);
    lost.add_game(RatedGame { outcome: Outcome::Loss, opponent });

    let after_win = won.calculate_new_rating(glicko);
    let after_draw = drew.calculate_new_rating(glicko);
    let after_loss = lost.calculate_new_rating(glicko);

    assert!(after_win.rating >= after_draw.rating);
    assert!(after_draw.rating >= after_loss.rating);
    assert!(after_win.rating >= player.rating);
    assert!(after_win.rd <= player.rd);
    assert_eq!(after_win.rd, after_loss.rd);
}

#[test]
fn a_draw_between_equals_moves_neither_rating() {
    let mut period = RatingPeriod::new();
    let first = period.add_player(RatedPlayer::from_rating_and_rd(1500f32, 200f32));
    let second = period.add_player(RatedPlayer::from_rating_and_rd(1500f32, 80f32));
    period.add_draw(first, second);

    assert_eq!(0.5, e(first.rating, second.rating, second.rd));
    assert_eq!(0.5, e(second.rating, first.rating, first.rd));
    let updated = period.calculate_new_ratings(glicko);
    assert_eq!(1500f32, updated[0].rating);
    assert_eq!(1500f32, updated[1].rating);
    assert!(updated[0].rd < first.rd);
    assert!(updated[1].rd < second.rd);
}

#[test]
fn an_uncertain_opponent_weighs_less() {
    assert_eq!(1f32, g(0f32));
    assert!(g(30f32) > g(100f32));
    assert!(g(100f32) > g(300f32));

    let player = RatedPlayer::from_rating_and_rd(1500f32, 200f32);
    let mut against_known = RatingCalculator::for_player(player);
    against_known.add_game(RatedGame {
        outcome: Outcome::Win,
        opponent: RatedPlayer::from_rating_and_rd(1500f32, 30f32),
    });
    let mut against_unknown = RatingCalculator::for_player(player);
    against_unknown.add_game(RatedGame {
        outcome: Outcome::Win,
        opponent: RatedPlayer::from_rating_and_rd(1500f32, 300f32),
    });

    let gain_known = against_known.calculate_new_rating(glicko).rating - player.rating;
    let gain_unknown = against_unknown.calculate_new_rating(glicko).rating - player.rating;
    assert!(gain_known > gain_unknown);
    assert!(gain_unknown > 0f32);
}

#[test]
fn a_player_registered_after_inactivity_carries_the_grown_deviation() {
    assert_eq!(50f32, rd_after_one_period(30f32, 40f32));
    assert_eq!(rd_after_one_period(30f32, 40f32), rd_after_inactivity(30f32, 40f32, 1));
    assert_eq!(rd_after_one_period(211f32, 63.2f32), rd_after_inactivity(211f32, 63.2f32, 1));
    assert_close_enough(85.44004, rd_after_inactivity(30f32, 40f32, 4));
    assert_eq!(350f32, rd_after_one_period(300f32, 200f32));
    assert_eq!(350f32, rd_after_inactivity(50f32, 63.2f32, 100));
    assert_eq!(30f32, rd_after_inactivity(30f32, 40f32, 0));

    let mut period = RatingPeriod::new();
    let rested = period.add_player(RatedPlayer::from_rating_and_rd(1500f32, rd_after_inactivity(30f32, 40f32, 1)));
    let active = period.add_player(RatedPlayer::from_rating_and_rd(1500f32, 30f32));
    assert_eq!(50f32, rested.rd);
    period.add_result(rested, active);
    let updated = period.calculate_new_ratings(glicko);
    assert!(updated[rested.index].rating - rested.rating > active.rating - updated[active.index].rating);
}
