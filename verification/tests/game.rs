use mlb_oracle::mlbstats::{BatterStats, PitcherStats, Team};
use mlb_oracle::simba::{
    Field, GameState, LiveTeam, Outcome, Play, Score, SimbaIter, SimbaState,
};

fn batter(name: &str) -> BatterStats {
    BatterStats {
        name: name.to_string(),
        hand: "RHB".to_string(),
        plate_appearances: 500,
        bases_on_balls: 50,
        hits: 140,
        doubles: 25,
        triples: 3,
        homeruns: 15,
        strikeouts: 90,
    }
}

fn team(name: &str) -> Team {
    Team {
        name: name.to_string(),
        starting_pitcher: PitcherStats {
            name: format!("{} starter", name),
            hand: "RHP".to_string(),
            batters_faced: 100,
            bases_on_balls: 8,
            hits: 22,
            doubles: 4,
            triples: 1,
            homeruns: 3,
            strikeouts: 20,
        },
        batters: (1..=9).map(|i| batter(&format!("{} {}", name, i))).collect(),
    }
}

fn play(outcome: Outcome) -> Play {
    Play { team: 0, runs: 0, outcome, tag: 0 }
}

fn tag_out(tag: usize) -> Play {
    Play { team: 0, runs: 0, outcome: Outcome::TagOut, tag }
}

fn at<'a>(
    away: &'a Team,
    home: &'a Team,
    inning: i32,
    team_idx: i32,
    score: (i32, i32),
) -> GameState<'a> {
    let mut game = GameState::new(away, home);
    game.inning = inning;
    game.team_idx = team_idx;
    game.score = Score { away: score.0, home: score.1 };
    game.field = Field::new(inning > 9);
    game
}

#[test]
fn a_game_opens_with_the_visitors_at_bat() {
    let (away, home) = (team("AWY"), team("HOM"));
    let game = GameState::new(&away, &home);
    assert_eq!(game.field.bases, [false, false, false]);
    assert_eq!(game.field.runs, 0);
    assert_eq!(game.score, Score { away: 0, home: 0 });
    assert_eq!(game.team_idx, 0);
    assert_eq!(game.inning, 1);
    assert_eq!(game.outs, 0);
    assert!(game.live);
    assert_eq!(game.teams[0].team.name, "AWY");
    assert_eq!(game.teams[1].team.name, "HOM");
    assert_eq!(game.teams[0].current_batter, 0);
    assert_eq!(game.teams[1].current_batter, 0);
}

#[test]
fn outcomes_move_runners_and_cost_outs() {
    let table = [
        (Outcome::Walk, 1, 0),
        (Outcome::Single, 1, 0),
        (Outcome::Double, 2, 0),
        (Outcome::Triple, 3, 0),
        (Outcome::HomeRun, 4, 0),
        (Outcome::StrikeOut, 0, 1),
        (Outcome::TagOut, 1, 1),
        (Outcome::FlyOut, 0, 1),
    ];
    for (outcome, bases, outs) in table {
        assert_eq!(outcome.bases(), bases);
        assert_eq!(outcome.outs(), outs);
    }
}

#[test]
fn home_run_with_bases_loaded_scores_four() {
    let mut field = Field { bases: [true, true, true], runs: 0 };
    field.advance(Outcome::HomeRun.bases());
    assert_eq!(field.runs, 4);
    assert_eq!(field.bases, [false, false, false]);
}

#[test]
fn home_run_with_nobody_on_scores_one() {
    let mut field = Field::new(false);
    field.advance(4);
    assert_eq!(field.runs, 1);
    assert_eq!(field.bases, [false, false, false]);
}

#[test]
fn walk_with_bases_loaded_forces_in_a_run() {
    let mut field = Field { bases: [true, true, true], runs: 2 };
    field.advance(1);
    assert_eq!(field.runs, 3);
    assert_eq!(field.bases, [true, true, true]);
}

#[test]
fn single_moves_everybody_one_base() {
    let mut field = Field { bases: [false, true, false], runs: 0 };
    field.advance(1);
    assert_eq!(field.runs, 0);
    assert_eq!(field.bases, [true, false, true]);
}

#[test]
fn double_scores_from_second_and_third() {
    let mut field = Field { bases: [true, true, true], runs: 0 };
    field.advance(2);
    assert_eq!(field.runs, 2);
    assert_eq!(field.bases, [false, true, true]);
}

#[test]
fn triple_clears_the_runners_and_leaves_the_batter_on_third() {
    let mut field = Field { bases: [true, false, true], runs: 5 };
    field.advance(3);
    assert_eq!(field.runs, 7);
    assert_eq!(field.bases, [false, false, true]);
}

#[test]
fn no_step_leaves_the_field_alone() {
    let mut field = Field { bases: [true, false, true], runs: 1 };
    field.advance(0);
    assert_eq!(field.bases, [true, false, true]);
    assert_eq!(field.runs, 1);
    field.advance(-3);
    assert_eq!(field.bases, [true, false, true]);
    assert_eq!(field.runs, 1);
}

#[test]
fn more_than_four_steps_score_like_a_home_run() {
    let mut field = Field { bases: [true, true, false], runs: 0 };
    field.advance(6);
    assert_eq!(field.runs, 3);
    assert_eq!(field.bases, [false, false, false]);
}

#[test]
fn fresh_field_has_a_runner_on_second_in_extra_innings_only() {
    assert_eq!(Field::new(false).bases, [false, false, false]);
    assert_eq!(Field::new(true).bases, [false, true, false]);
    assert_eq!(Field::new(true).runs, 0);
}

#[test]
fn random_out_clears_an_occupied_base() {
    let mut field = Field { bases: [true, false, true], runs: 3 };
    assert!(field.random_out(2));
    assert_eq!(field.bases, [true, false, false]);
    assert_eq!(field.runs, 3);
}

#[test]
fn random_out_misses_an_empty_base() {
    let mut field = Field { bases: [true, false, true], runs: 0 };
    assert!(!field.random_out(1));
    assert_eq!(field.bases, [true, false, true]);
    assert!(!field.random_out(3));
    assert_eq!(field.bases, [true, false, true]);
}

#[test]
fn random_out_is_settled_with_nobody_on() {
    let mut field = Field::new(false);
    assert!(field.random_out(0));
    assert!(field.random_out(7));
    assert_eq!(field.bases, [false, false, false]);
}

#[test]
fn score_add_credits_one_side() {
    let score = Score::default();
    assert_eq!(score, Score { away: 0, home: 0 });
    let score = score.add(0, 3);
    assert_eq!(score, Score { away: 3, home: 0 });
    let score = score.add(1, 2);
    assert_eq!(score, Score { away: 3, home: 2 });
    let score = score.add(2, 9);
    assert_eq!(score, Score { away: 3, home: 2 });
    let score = score.add(-1, 9);
    assert_eq!(score, Score { away: 3, home: 2 });
}

#[test]
fn batting_order_comes_round_after_nine() {
    let club = team("AWY");
    let mut live = LiveTeam::from(&club);
    assert_eq!(live.current_batter, 0);
    assert_eq!(live.batter().name, "AWY 1");
    for expected in [1, 2, 3, 4, 5, 6, 7, 8, 0, 1] {
        live.advance();
        assert_eq!(live.current_batter, expected);
    }
    assert_eq!(live.batter().name, "AWY 2");
    assert_eq!(live.pitcher().name, "AWY starter");
}

#[test]
fn three_strikeouts_end_a_half_inning_without_runs() {
    let (away, home) = (team("AWY"), team("HOM"));
    let mut game = GameState::new(&away, &home);
    let strikeout = play(Outcome::StrikeOut);
    assert_eq!(game.transition(&strikeout), 0);
    assert_eq!(game.outs, 1);
    assert_eq!(game.transition(&strikeout), 0);
    assert_eq!(game.outs, 2);
    assert_eq!(game.team_idx, 0);
    assert_eq!(game.transition(&strikeout), 0);
    assert_eq!(game.outs, 0);
    assert_eq!(game.team_idx, 1);
    assert_eq!(game.inning, 1);
    assert_eq!(game.score, Score { away: 0, home: 0 });
    assert!(game.live);
    assert_eq!(game.teams[0].current_batter, 3);
    assert_eq!(game.teams[1].current_batter, 0);
}

#[test]
fn runs_are_credited_when_the_half_inning_ends() {
    let (away, home) = (team("AWY"), team("HOM"));
    let mut game = GameState::new(&away, &home);
    assert_eq!(game.transition(&play(Outcome::Walk)), 0);
    assert_eq!(game.transition(&play(Outcome::Walk)), 0);
    assert_eq!(game.transition(&play(Outcome::Walk)), 0);
    assert_eq!(game.field.bases, [true, true, true]);
    assert_eq!(game.transition(&play(Outcome::HomeRun)), 4);
    assert_eq!(game.field.runs, 4);
    assert_eq!(game.field.bases, [false, false, false]);
    assert_eq!(game.score, Score { away: 0, home: 0 });
    for _ in 0..3 {
        assert_eq!(game.transition(&play(Outcome::FlyOut)), 0);
    }
    assert_eq!(game.score, Score { away: 4, home: 0 });
    assert_eq!(game.field.runs, 0);
    assert_eq!(game.team_idx, 1);
    assert_eq!(game.teams[0].current_batter, 7);
}

#[test]
fn the_inning_is_counted_up_after_the_home_half() {
    let (away, home) = (team("AWY"), team("HOM"));
    let mut game = GameState::new(&away, &home);
    for _ in 0..3 {
        game.transition(&play(Outcome::StrikeOut));
    }
    assert_eq!((game.inning, game.team_idx), (1, 1));
    game.transition(&play(Outcome::Triple));
    game.transition(&play(Outcome::Single));
    assert_eq!(game.field.runs, 1);
    for _ in 0..3 {
        game.transition(&play(Outcome::StrikeOut));
    }
    assert_eq!((game.inning, game.team_idx), (2, 0));
    assert_eq!(game.score, Score { away: 0, home: 1 });
    assert_eq!(game.field.bases, [false, false, false]);
    assert_eq!(game.teams[1].current_batter, 5);
}

#[test]
fn tag_out_puts_the_batter_on_and_a_runner_out() {
    let (away, home) = (team("AWY"), team("HOM"));
    let mut game = GameState::new(&away, &home);
    game.transition(&play(Outcome::Single));
    assert_eq!(game.field.bases, [true, false, false]);
    assert!(game.can_tag(0));
    assert!(game.can_tag(1));
    assert!(!game.can_tag(2));
    assert!(!game.can_tag(3));
    assert_eq!(game.transition(&tag_out(1)), 0);
    assert_eq!(game.field.bases, [true, false, false]);
    assert_eq!(game.outs, 1);
    assert_eq!(game.transition(&tag_out(0)), 0);
    assert_eq!(game.field.bases, [false, true, false]);
    assert_eq!(game.outs, 2);
}

#[test]
fn tag_out_can_still_bring_in_the_runner_from_third() {
    let (away, home) = (team("AWY"), team("HOM"));
    let mut game = GameState::new(&away, &home);
    game.transition(&play(Outcome::Triple));
    assert_eq!(game.transition(&tag_out(0)), 1);
    assert_eq!(game.field.bases, [false, false, false]);
    assert_eq!(game.field.runs, 1);
    assert_eq!(game.outs, 1);
}

#[test]
fn fly_out_moves_nobody() {
    let (away, home) = (team("AWY"), team("HOM"));
    let mut game = GameState::new(&away, &home);
    game.transition(&play(Outcome::Double));
    assert_eq!(game.transition(&play(Outcome::FlyOut)), 0);
    assert_eq!(game.field.bases, [false, true, false]);
    assert_eq!(game.outs, 1);
}

#[test]
fn home_half_of_the_ninth_is_skipped_when_home_leads() {
    let (away, home) = (team("AWY"), team("HOM"));
    let mut game = at(&away, &home, 9, 0, (3, 5));
    for _ in 0..3 {
        assert!(game.live);
        game.transition(&play(Outcome::StrikeOut));
    }
    assert!(!game.live);
    assert_eq!(game.score, Score { away: 3, home: 5 });
    assert_eq!(game.inning, 9);
    assert_eq!(game.teams[1].current_batter, 0);
}

#[test]
fn home_half_of_the_ninth_is_played_when_home_trails() {
    let (away, home) = (team("AWY"), team("HOM"));
    let mut game = at(&away, &home, 9, 0, (5, 3));
    for _ in 0..3 {
        game.transition(&play(Outcome::StrikeOut));
    }
    assert!(game.live);
    assert_eq!((game.inning, game.team_idx), (9, 1));
    for _ in 0..3 {
        game.transition(&play(Outcome::StrikeOut));
    }
    assert!(!game.live);
    assert_eq!(game.score, Score { away: 5, home: 3 });
}

#[test]
fn home_half_of_the_ninth_is_played_when_the_game_is_level() {
    let (away, home) = (team("AWY"), team("HOM"));
    let mut game = at(&away, &home, 9, 0, (4, 4));
    for _ in 0..3 {
        game.transition(&play(Outcome::StrikeOut));
    }
    assert!(game.live);
    assert_eq!((game.inning, game.team_idx), (9, 1));
}

#[test]
fn home_half_is_not_skipped_before_the_ninth() {
    let (away, home) = (team("AWY"), team("HOM"));
    let mut game = at(&away, &home, 8, 0, (0, 7));
    for _ in 0..3 {
        game.transition(&play(Outcome::StrikeOut));
    }
    assert!(game.live);
    assert_eq!((game.inning, game.team_idx), (8, 1));
    for _ in 0..3 {
        game.transition(&play(Outcome::StrikeOut));
    }
    assert!(game.live);
    assert_eq!((game.inning, game.team_idx), (9, 0));
}

#[test]
fn a_level_ninth_is_followed_by_a_tenth_with_a_runner_on_second() {
    let (away, home) = (team("AWY"), team("HOM"));
    let mut game = at(&away, &home, 9, 1, (2, 2));
    for _ in 0..3 {
        game.transition(&play(Outcome::StrikeOut));
    }
    assert!(game.live);
    assert_eq!((game.inning, game.team_idx), (10, 0));
    assert_eq!(game.field.bases, [false, true, false]);
    for _ in 0..3 {
        game.transition(&play(Outcome::StrikeOut));
    }
    assert!(game.live);
    assert_eq!((game.inning, game.team_idx), (10, 1));
    assert_eq!(game.field.bases, [false, true, false]);
    for _ in 0..3 {
        game.transition(&play(Outcome::StrikeOut));
    }
    assert!(game.live);
    assert_eq!((game.inning, game.team_idx), (11, 0));
    assert_eq!(game.score, Score { away: 2, home: 2 });
}

#[test]
fn visitors_leading_in_the_tenth_still_have_to_hold_the_home_half() {
    let (away, home) = (team("AWY"), team("HOM"));
    let mut game = at(&away, &home, 10, 0, (2, 2));
    assert_eq!(game.transition(&play(Outcome::Double)), 1);
    for _ in 0..3 {
        game.transition(&play(Outcome::StrikeOut));
    }
    assert!(game.live);
    assert_eq!((game.inning, game.team_idx), (10, 1));
    assert_eq!(game.score, Score { away: 3, home: 2 });
    for _ in 0..3 {
        game.transition(&play(Outcome::StrikeOut));
    }
    assert!(!game.live);
    assert_eq!(game.score, Score { away: 3, home: 2 });
}

#[test]
fn walk_off_ends_the_game_at_once() {
    let (away, home) = (team("AWY"), team("HOM"));
    let mut game = at(&away, &home, 9, 1, (3, 3));
    game.transition(&play(Outcome::Triple));
    assert!(game.live);
    assert_eq!(game.outs, 0);
    assert_eq!(game.transition(&play(Outcome::Single)), 1);
    assert!(!game.live);
    assert_eq!(game.score, Score { away: 3, home: 4 });
}

#[test]
fn walk_off_in_extra_innings_by_the_runner_from_second() {
    let (away, home) = (team("AWY"), team("HOM"));
    let mut game = at(&away, &home, 11, 1, (6, 6));
    game.transition(&play(Outcome::StrikeOut));
    game.transition(&play(Outcome::StrikeOut));
    assert_eq!(game.transition(&play(Outcome::Double)), 1);
    assert!(!game.live);
    assert_eq!(game.score, Score { away: 6, home: 7 });
    assert_eq!(game.inning, 11);
}

#[test]
fn walk_off_home_run_counts_every_run() {
    let (away, home) = (team("AWY"), team("HOM"));
    let mut game = at(&away, &home, 9, 1, (5, 4));
    game.transition(&play(Outcome::Walk));
    game.transition(&play(Outcome::Walk));
    assert!(game.live);
    assert_eq!(game.transition(&play(Outcome::HomeRun)), 3);
    assert!(!game.live);
    assert_eq!(game.score, Score { away: 5, home: 7 });
}

#[test]
fn home_side_level_in_the_ninth_plays_on_until_it_leads() {
    let (away, home) = (team("AWY"), team("HOM"));
    let mut game = at(&away, &home, 9, 1, (5, 3));
    game.transition(&play(Outcome::Walk));
    assert_eq!(game.transition(&play(Outcome::HomeRun)), 2);
    assert!(game.live);
    assert_eq!(game.field.runs, 2);
    assert_eq!(game.score, Score { away: 5, home: 3 });
    assert_eq!(game.transition(&play(Outcome::HomeRun)), 1);
    assert!(!game.live);
    assert_eq!(game.score, Score { away: 5, home: 6 });
}

#[test]
fn no_walk_off_before_the_ninth() {
    let (away, home) = (team("AWY"), team("HOM"));
    let mut game = at(&away, &home, 8, 1, (1, 1));
    assert_eq!(game.transition(&play(Outcome::HomeRun)), 1);
    assert!(game.live);
    assert_eq!((game.inning, game.team_idx, game.outs), (8, 1, 0));
}

#[test]
fn a_script_is_played_until_the_game_is_over() {
    let (away, home) = (team("AWY"), team("HOM"));
    let mut game = GameState::new(&away, &home);
    let mut script = vec![play(Outcome::HomeRun)];
    script.extend(std::iter::repeat(play(Outcome::StrikeOut)).take(100));
    let plays = game.play(&script);
    // One home run, then three outs in each of the eighteen half-innings
    // of a game in which the home side trails to the end.
    assert_eq!(plays.len(), 1 + 3 * 18);
    assert!(!game.live);
    assert_eq!(game.score, Score { away: 1, home: 0 });
    assert_eq!(game.inning, 9);
    assert_eq!(plays[0].runs, 1);
    assert_eq!(plays[0].team, 0);
    assert_eq!(plays[4].team, 1);
    assert_eq!(plays[7].team, 0);
    assert!(plays[1..].iter().all(|p| p.runs == 0));
    let away_runs: i32 = plays.iter().filter(|p| p.team == 0).map(|p| p.runs).sum();
    let home_runs: i32 = plays.iter().filter(|p| p.team == 1).map(|p| p.runs).sum();
    assert_eq!((away_runs, home_runs), (1, 0));
}

#[test]
fn a_script_of_outs_alone_never_ends_the_game() {
    let (away, home) = (team("AWY"), team("HOM"));
    let mut game = GameState::new(&away, &home);
    let script = vec![play(Outcome::FlyOut); 3 * 2 * 12];
    let plays = game.play(&script);
    assert_eq!(plays.len(), script.len());
    assert!(game.live);
    assert_eq!((game.inning, game.team_idx, game.outs), (13, 0, 0));
    assert_eq!(game.score, Score { away: 0, home: 0 });
    assert_eq!(game.field.bases, [false, true, false]);
}

#[test]
fn a_script_stops_at_a_tag_on_an_empty_base() {
    let (away, home) = (team("AWY"), team("HOM"));
    let mut game = GameState::new(&away, &home);
    let script = vec![play(Outcome::Walk), tag_out(2), play(Outcome::HomeRun)];
    let plays = game.play(&script);
    assert_eq!(plays.len(), 1);
    assert_eq!(game.field.bases, [true, false, false]);
    assert_eq!(game.outs, 0);
    assert!(!game.accepts(&script[1]));
    assert!(game.accepts(&script[2]));
}

#[test]
fn an_empty_script_changes_nothing() {
    let (away, home) = (team("AWY"), team("HOM"));
    let mut game = GameState::new(&away, &home);
    assert!(game.play(&Vec::new()).is_empty());
    assert_eq!((game.inning, game.team_idx, game.outs), (1, 0, 0));
    assert!(game.live);
}

#[test]
fn the_same_script_gives_the_same_game() {
    let (away, home) = (team("AWY"), team("HOM"));
    let outcomes = [
        Outcome::Single,
        Outcome::Double,
        Outcome::StrikeOut,
        Outcome::Walk,
        Outcome::HomeRun,
        Outcome::FlyOut,
        Outcome::TagOut,
        Outcome::Triple,
    ];
    let script: Vec<Play> = (0..400).map(|i| play(outcomes[(i * 7 + i / 5) % 8])).collect();
    let mut first = GameState::new(&away, &home);
    let mut second = GameState::new(&away, &home);
    let one = first.play(&script);
    let two = second.play(&script);
    assert_eq!(one.len(), two.len());
    assert_eq!(first.score, second.score);
    assert_eq!(first.inning, second.inning);
    assert_eq!(first.live, second.live);
    assert!(one.iter().zip(two.iter()).all(|(a, b)| a.runs == b.runs && a.team == b.team));
    assert!(!first.live);
    assert_ne!(first.score.away, first.score.home);
    assert!(first.inning >= 9);
    let away_runs: i32 = one.iter().filter(|p| p.team == 0).map(|p| p.runs).sum();
    let home_runs: i32 = one.iter().filter(|p| p.team == 1).map(|p| p.runs).sum();
    assert_eq!(first.score, Score { away: away_runs, home: home_runs });
}

#[test]
fn a_game_that_is_over_takes_no_play() {
    let (away, home) = (team("AWY"), team("HOM"));
    let mut game = at(&away, &home, 9, 0, (0, 1));
    let plays = game.play(&vec![play(Outcome::StrikeOut); 10]);
    assert_eq!(plays.len(), 3);
    assert!(!game.live);
    assert!(!game.accepts(&play(Outcome::Single)));
    assert!(game.play(&vec![play(Outcome::HomeRun)]).is_empty());
    assert_eq!(game.score, Score { away: 0, home: 1 });
}

#[test]
fn counters_at_their_limit_take_no_play() {
    let (away, home) = (team("AWY"), team("HOM"));
    let mut game = at(&away, &home, 3, 0, (i32::MAX - 3, 0));
    assert!(!game.accepts(&play(Outcome::StrikeOut)));
    game.score.away = i32::MAX - 4;
    assert!(game.accepts(&play(Outcome::HomeRun)));
    assert_eq!(game.transition(&play(Outcome::HomeRun)), 1);
    assert!(!game.accepts(&play(Outcome::StrikeOut)));
    let mut late = at(&away, &home, i32::MAX, 0, (1, 1));
    assert!(!late.accepts(&play(Outcome::StrikeOut)));
    late.inning = i32::MAX - 1;
    assert!(late.accepts(&play(Outcome::StrikeOut)));
}

#[test]
fn matchup_is_the_batter_up_against_the_other_starter() {
    let (away, home) = (team("AWY"), team("HOM"));
    let mut state = SimbaState::new(GameState::new(&away, &home));
    let (pitcher, batter) = state.matchup();
    assert_eq!(pitcher.name, "HOM starter");
    assert_eq!(batter.name, "AWY 1");
    state.transition(Outcome::Single, 0).unwrap();
    let (_, batter) = state.matchup();
    assert_eq!(batter.name, "AWY 2");
    for _ in 0..3 {
        state.transition(Outcome::StrikeOut, 0).unwrap();
    }
    let (pitcher, batter) = state.matchup();
    assert_eq!(pitcher.name, "AWY starter");
    assert_eq!(batter.name, "HOM 1");
}

#[test]
fn eval_builds_the_play_that_was_drawn() {
    let (away, home) = (team("AWY"), team("HOM"));
    let mut state = SimbaState::new(at(&away, &home, 4, 1, (2, 1)));
    let play = state.eval(Outcome::TagOut, 2).unwrap();
    assert_eq!(play.team, 1);
    assert_eq!(play.runs, 0);
    assert_eq!(play.outcome, Outcome::TagOut);
    assert_eq!(play.tag, 2);
    state.gamestate.live = false;
    assert!(state.eval(Outcome::Single, 0).is_none());
}

#[test]
fn transition_returns_the_play_with_its_runs() {
    let (away, home) = (team("AWY"), team("HOM"));
    let mut state = SimbaState::new(GameState::new(&away, &home));
    let first = state.transition(Outcome::Triple, 0).unwrap().unwrap();
    assert_eq!((first.team, first.runs), (0, 0));
    let second = state.transition(Outcome::Single, 0).unwrap().unwrap();
    assert_eq!((second.team, second.runs), (0, 1));
    assert_eq!(second.outcome, Outcome::Single);
    assert_eq!(state.gamestate.field.runs, 1);
}

#[test]
fn transition_refuses_a_tag_on_an_empty_base() {
    let (away, home) = (team("AWY"), team("HOM"));
    let mut state = SimbaState::new(GameState::new(&away, &home));
    let err = state.transition(Outcome::TagOut, 1).unwrap_err();
    assert_eq!(err, "no runner on the tagged base");
    assert_eq!(state.gamestate.outs, 0);
    assert_eq!(state.gamestate.teams[0].current_batter, 0);
    let play = state.transition(Outcome::TagOut, 0).unwrap().unwrap();
    assert_eq!(play.runs, 0);
    assert_eq!(state.gamestate.outs, 1);
    assert_eq!(state.gamestate.field.bases, [false, false, false]);
}

#[test]
fn transition_refuses_a_score_out_of_range() {
    let (away, home) = (team("AWY"), team("HOM"));
    let mut state = SimbaState::new(at(&away, &home, 2, 1, (0, i32::MAX - 2)));
    let err = state.transition(Outcome::StrikeOut, 0).unwrap_err();
    assert_eq!(err, "score out of range");
    assert_eq!(state.gamestate.outs, 0);
}

#[test]
fn transition_of_a_finished_game_gives_no_play() {
    let (away, home) = (team("AWY"), team("HOM"));
    let mut game = at(&away, &home, 9, 0, (0, 1));
    game.live = false;
    let mut state = SimbaState::new(game);
    assert!(state.transition(Outcome::HomeRun, 0).unwrap().is_none());
    assert_eq!(state.gamestate.score, Score { away: 0, home: 1 });
}

#[test]
fn plays_come_one_by_one_until_the_game_is_over() {
    let (away, home) = (team("AWY"), team("HOM"));
    let mut plays = SimbaState::new(at(&away, &home, 9, 1, (1, 1))).into_iter();
    let first = plays.next(Outcome::StrikeOut, 0).unwrap().unwrap();
    assert_eq!((first.team, first.runs), (1, 0));
    let second = plays.next(Outcome::HomeRun, 0).unwrap().unwrap();
    assert_eq!((second.team, second.runs), (1, 1));
    assert!(plays.0.is_some());
    assert!(!plays.0.unwrap().gamestate.live);
    assert!(plays.next(Outcome::Single, 0).is_none());
    assert!(plays.0.is_none());
    assert!(plays.next(Outcome::Single, 0).is_none());
}

#[test]
fn plays_end_after_a_refusal() {
    let (away, home) = (team("AWY"), team("HOM"));
    let mut plays = SimbaState::new(GameState::new(&away, &home)).into_iter();
    let refusal = plays.next(Outcome::TagOut, 2).unwrap();
    assert_eq!(refusal.unwrap_err(), "no runner on the tagged base");
    assert!(plays.0.is_none());
    assert!(plays.next(Outcome::Single, 0).is_none());
    let mut none = SimbaIter(None);
    assert!(none.next(Outcome::Walk, 0).is_none());
}

#[test]
fn sides_are_treated_alike_before_the_ninth() {
    let (away, home) = (team("AWY"), team("HOM"));
    let script = vec![
        play(Outcome::Single),
        play(Outcome::Double),
        tag_out(0),
        play(Outcome::HomeRun),
        play(Outcome::FlyOut),
        play(Outcome::Walk),
        play(Outcome::StrikeOut),
    ];
    let mut visitors = at(&away, &home, 5, 0, (2, 4));
    let mut hosts = at(&home, &away, 5, 1, (4, 2));
    let one = visitors.play(&script);
    let two = hosts.play(&script);
    assert_eq!(one.len(), 7);
    assert_eq!(two.len(), 7);
    assert!(one.iter().zip(two.iter()).all(|(a, b)| a.runs == b.runs && a.team == 1 - b.team));
    assert_eq!(visitors.score, Score { away: 5, home: 4 });
    assert_eq!(hosts.score, Score { away: 4, home: 5 });
    assert_eq!(visitors.team_idx, 1);
    assert_eq!(hosts.team_idx, 0);
    assert_eq!(visitors.field.bases, hosts.field.bases);
    assert_eq!(visitors.outs, hosts.outs);
    assert_eq!(visitors.teams[0].current_batter, hosts.teams[1].current_batter);
    assert!(visitors.live && hosts.live);
}

#[test]
fn a_tag_out_takes_one_runner_off() {
    for bases in [[false, false, false], [true, false, false], [true, true, false], [true, true, true], [false, true, true]] {
        for slot in 0..3 {
            let mut field = Field { bases, runs: 0 };
            field.advance(1);
            let moved = field;
            if !moved.bases[slot] {
                continue;
            }
            assert!(field.random_out(slot));
            let before = moved.bases.iter().filter(|b| **b).count();
            let after = field.bases.iter().filter(|b| **b).count();
            assert_eq!(after + 1, before);
            assert_eq!(field.runs, moved.runs);
            assert!(!field.bases[slot]);
        }
    }
}

#[test]
fn nobody_is_lost_on_the_bases() {
    for code in 0..8 {
        let bases = [code & 1 != 0, code & 2 != 0, code & 4 != 0];
        let on = bases.iter().filter(|b| **b).count() as i32;
        for n in 1..=5 {
            let mut field = Field { bases, runs: 10 };
            field.advance(n);
            let left = field.bases.iter().filter(|b| **b).count() as i32;
            assert_eq!(left + field.runs, on + 10 + 1);
        }
    }
}

#[test]
fn states_of_a_game_are_told_from_others() {
    let (away, home) = (team("AWY"), team("HOM"));
    assert!(GameState::new(&away, &home).is_valid());
    assert!(at(&away, &home, 9, 0, (3, 5)).is_valid());
    assert!(at(&away, &home, 9, 1, (3, 3)).is_valid());
    assert!(at(&away, &home, 12, 0, (3, 3)).is_valid());
    // The home side cannot be at bat in the ninth with the lead.
    assert!(!at(&away, &home, 9, 1, (3, 5)).is_valid());
    // An extra inning cannot begin with a lead.
    assert!(!at(&away, &home, 10, 0, (4, 3)).is_valid());
    let mut game = GameState::new(&away, &home);
    game.outs = 3;
    assert!(!game.is_valid());
    game.outs = 0;
    game.team_idx = 2;
    assert!(!game.is_valid());
    game.team_idx = 0;
    game.inning = 0;
    assert!(!game.is_valid());
    game.inning = 1;
    game.score.home = -1;
    assert!(!game.is_valid());
    game.score.home = 0;
    game.teams[1].current_batter = 9;
    assert!(!game.is_valid());
    game.teams[1].current_batter = 8;
    assert!(game.is_valid());
    // A game is not over before the ninth, and not while it is level.
    game.live = false;
    assert!(!game.is_valid());
    game.inning = 9;
    assert!(!game.is_valid());
    game.score.away = 1;
    assert!(game.is_valid());
    let mut short = team("SHT");
    short.batters.pop();
    assert!(!GameState::new(&short, &home).is_valid());
    assert!(!GameState::new(&away, &short).is_valid());
}

#[test]
fn a_tag_is_drawn_among_the_occupied_bases() {
    let (away, home) = (team("AWY"), team("HOM"));
    let mut rng = rand::thread_rng();
    let mut game = GameState::new(&away, &home);
    // With nobody on, only the batter can be put out.
    for _ in 0..200 {
        if let Some(slot) = game.draw_tag(&mut rng) {
            assert_eq!(slot, 0);
        }
    }
    game.field.bases = [true, false, true];
    let mut seen = [false, false, false];
    for _ in 0..2000 {
        if let Some(slot) = game.draw_tag(&mut rng) {
            assert!(game.can_tag(slot));
            seen[slot] = true;
        }
    }
    // The batter on first and the runner who moved up to second.
    assert_eq!(seen, [true, true, false]);
    game.field.bases = [true, true, false];
    let mut seen = [false, false, false];
    for _ in 0..2000 {
        if let Some(slot) = game.draw_tag(&mut rng) {
            seen[slot] = true;
        }
    }
    assert_eq!(seen, [true, true, true]);
}

#[test]
fn a_drawn_base_settles_the_tag_when_a_runner_is_there() {
    let (away, home) = (team("AWY"), team("HOM"));
    let mut game = GameState::new(&away, &home);
    assert_eq!(game.settle_tag(0), Some(0));
    assert_eq!(game.settle_tag(1), None);
    assert_eq!(game.settle_tag(2), None);
    assert_eq!(game.settle_tag(3), None);
    game.field.bases = [false, true, true];
    assert_eq!(game.settle_tag(0), Some(0));
    assert_eq!(game.settle_tag(1), None);
    assert_eq!(game.settle_tag(2), Some(2));
    game.field.bases = [true, true, false];
    assert_eq!(game.settle_tag(0), Some(0));
    assert_eq!(game.settle_tag(1), Some(1));
    assert_eq!(game.settle_tag(2), Some(2));
    assert_eq!(game.settle_tag(usize::MAX), None);
}

#[test]
fn every_draw_counts_when_every_base_will_hold_a_runner() {
    let (away, home) = (team("AWY"), team("HOM"));
    let mut rng = rand::thread_rng();
    let mut game = GameState::new(&away, &home);
    for third in [false, true] {
        game.field.bases = [true, true, third];
        for _ in 0..500 {
            let slot = game.draw_tag(&mut rng).unwrap();
            assert!(slot < 3);
            assert_eq!(game.settle_tag(slot), Some(slot));
        }
    }
}
