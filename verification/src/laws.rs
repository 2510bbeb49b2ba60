//! What holds of every game.

use vstd::prelude::*;
use crate::mlbstats::{Team, LINEUP};
use crate::simba::{
    Field, GameState, LiveTeam, Outcome, Play, Score, MAX_RUNS_PER_PLAY, REGULATION,
};
use crate::tally::home_wins;

verus! {

/// A home run empties the bases and brings in every runner and the
/// batter; with the bases loaded that makes four runs.
pub proof fn lemma_home_run_clears_bases(field: Field)
    requires
        field.wf(),
        field.runs <= i32::MAX - MAX_RUNS_PER_PLAY,
    ensures
        field.advanced(Outcome::HomeRun.spec_bases() as int).is_empty(),
        field.advanced(Outcome::HomeRun.spec_bases() as int).runs == field.runs + field.runners()
            + 1,
        field.bases[0] && field.bases[1] && field.bases[2] ==> field.advanced(
            Outcome::HomeRun.spec_bases() as int,
        ).runs == field.runs + 4,
{
}

/// Nobody is lost on the bases: after any forced advance the runners still
/// on base and the runs scored add up to the runners before and the batter.
pub proof fn lemma_advance_keeps_everyone(field: Field, n: int)
    requires
        field.wf(),
        field.runs <= i32::MAX - MAX_RUNS_PER_PLAY,
        1 <= n,
    ensures
        field.advanced(n).runners() + field.advanced(n).runs == field.runners() + field.runs + 1,
{
}

/// A tag-out takes one runner off the bases and brings in nobody: after it
/// one runner fewer stands on base than the forced advance had left.
pub proof fn lemma_tag_out_removes_one(field: Field, slot: int)
    requires
        field.advanced(1).on(slot),
    ensures
        field.advanced(1).tagged(slot).runners() == field.advanced(1).runners() - 1,
        field.advanced(1).tagged(slot).runs == field.advanced(1).runs,
        !field.advanced(1).tagged(slot).on(slot),
        field.advanced(1).on(0),
{
}

/// The team after `n` of its plate appearances.
pub open spec fn after_batters<'a>(team: LiveTeam<'a>, n: nat) -> LiveTeam<'a>
    decreases n,
{
    if n == 0 {
        team
    } else {
        after_batters(team, (n - 1) as nat).stepped()
    }
}

/// The batting order comes round: after `n` plate appearances of a side
/// the batter `n` places on is up, counted round the nine places of the
/// order, so that the same batter is up again after nine and not before.
pub proof fn lemma_order_comes_round(team: LiveTeam, n: nat)
    requires
        team.wf(),
    ensures
        after_batters(team, n).team == team.team,
        after_batters(team, n).current_batter == (team.current_batter + n) % LINEUP as int,
        after_batters(team, n).wf(),
        after_batters(team, n) == team <==> n % LINEUP as nat == 0,
    decreases n,
{
    if n > 0 {
        lemma_order_comes_round(team, (n - 1) as nat);
    }
}

/// One plate appearance keeps a game well formed.
pub proof fn lemma_next_wf(game: GameState, play: Play)
    requires
        game.wf(),
        game.can_play(play),
    ensures
        game.next(play).wf(),
{
}

/// Every game that a script plays from a well-formed state stays well
/// formed, and the plays that were played are a prefix of the script.
pub proof fn lemma_run_wf(game: GameState, script: Seq<Play>)
    requires
        game.wf(),
    ensures
        game.run(script).wf(),
        game.scored(script).len() <= script.len(),
    decreases script.len(),
{
    if script.len() > 0 && game.can_play(script[0]) {
        lemma_next_wf(game, script[0]);
        lemma_run_wf(game.next(script[0]), script.drop_first());
    }
}

/// No game ends level, and none ends before the ninth inning: whatever is
/// played from the first pitch, a game that is over has a winner.
pub proof fn lemma_no_tie(visteam: &Team, hometeam: &Team, script: Seq<Play>)
    requires
        visteam.wf(),
        hometeam.wf(),
    ensures
        !GameState::opening(visteam, hometeam).run(script).live ==> {
            let end = GameState::opening(visteam, hometeam).run(script);
            end.score.away != end.score.home && end.inning >= REGULATION
        },
{
    lemma_run_wf(GameState::opening(visteam, hometeam), script);
}

/// The runs of either side never go down.
pub proof fn lemma_score_never_drops(game: GameState, play: Play)
    requires
        game.wf(),
        game.can_play(play),
    ensures
        game.next(play).score.away >= game.score.away,
        game.next(play).score.home >= game.score.home,
        game.next(play).score.away + game.next(play).score.home + game.next(play).field.runs
            == game.score.away + game.score.home + game.field.runs + game.runs_on(play),
{
}

/// A game only moves forward: the inning never goes back, and within an
/// inning the visitors bat before the home side.
pub proof fn lemma_game_moves_forward(game: GameState, play: Play)
    requires
        game.wf(),
        game.can_play(play),
    ensures
        game.inning <= game.next(play).inning <= game.inning + 1,
        game.next(play).inning == game.inning ==> game.next(play).team_idx >= game.team_idx,
        game.next(play).inning == game.inning + 1 ==> game.team_idx == 1 && game.next(play).team_idx
            == 0,
        game.next(play).teams == game.teams_after(),
{
}

/// A half-inning that begins finds the bases empty, but for a runner on
/// second in every half of an extra inning.
pub proof fn lemma_half_begins_fresh(game: GameState, play: Play)
    requires
        game.wf(),
        game.can_play(play),
        game.ends_half(play),
        game.next(play).live,
    ensures
        game.next(play).team_idx == 1 - game.team_idx,
        game.next(play).outs == 0,
        game.next(play).field == Field::fresh(game.next(play).inning > REGULATION),
        game.next(play).field.bases[1] == (game.next(play).inning > REGULATION),
        !game.next(play).field.bases[0] && !game.next(play).field.bases[2],
        game.next(play).field.runs == 0,
{
}

/// A ninth or later inning that ends level is followed by another one.
pub proof fn lemma_tie_plays_on(game: GameState, play: Play)
    requires
        game.wf(),
        game.can_play(play),
        game.team_idx == 1,
        game.inning >= REGULATION,
        game.ends_half(play),
        game.score_after(play).tied(),
    ensures
        game.next(play).live,
        game.next(play).inning == game.inning + 1,
        game.next(play).team_idx == 0,
        game.next(play).field.bases[1],
        game.next(play).score == game.score_after(play),
{
}

/// After the visitors' half the home side bats, except in the ninth
/// inning or later when it already leads: then, and only then, the game is
/// over without the home half.
pub proof fn lemma_home_half_skipped_only_when_ahead(game: GameState, play: Play)
    requires
        game.wf(),
        game.can_play(play),
        game.team_idx == 0,
        game.ends_half(play),
    ensures
        game.next(play).score == game.score.plus(0, game.field_after(play).runs as int),
        !game.next(play).live <==> game.inning >= REGULATION && game.next(play).score.home
            > game.next(play).score.away,
        game.next(play).live ==> game.next(play).team_idx == 1 && game.next(play).inning
            == game.inning,
        game.next(play).inning == game.inning,
{
}

/// The moment the home side takes the lead in the ninth inning or later
/// the game is over, however many are out, and every run of the play
/// counts.
pub proof fn lemma_walk_off(game: GameState, play: Play)
    requires
        game.wf(),
        game.can_play(play),
        game.team_idx == 1,
        game.inning >= REGULATION,
        game.score.home + game.field_after(play).runs > game.score.away,
    ensures
        !game.next(play).live,
        game.next(play).score.away == game.score.away,
        game.next(play).score.home == game.score.home + game.field_after(play).runs,
        game.next(play).score.home > game.next(play).score.away,
{
}

/// Short of a walk-off, a half-inning goes on until the third out: a play
/// that leaves fewer than three out leaves the same side at bat in the
/// same inning, with nothing credited yet.
pub proof fn lemma_half_goes_on(game: GameState, play: Play)
    requires
        game.wf(),
        game.can_play(play),
        game.outs + play.outcome.spec_outs() < 3,
        !game.walks_off(play),
    ensures
        game.next(play).live,
        game.next(play).team_idx == game.team_idx,
        game.next(play).inning == game.inning,
        game.next(play).score == game.score,
        game.next(play).outs == game.outs + play.outcome.spec_outs(),
        game.next(play).field == game.field_after(play),
{
}

/// Three strikeouts in a row, from nobody out, end the half-inning and
/// bring in nothing: the side is credited with what it had scored before
/// them.
pub proof fn lemma_three_strikeouts(game: GameState, first: Play, second: Play, third: Play)
    requires
        game.wf(),
        game.live,
        game.in_range(),
        game.outs == 0,
        first.outcome is StrikeOut,
        second.outcome is StrikeOut,
        third.outcome is StrikeOut,
    ensures
        game.next(first).next(second).outs == 2,
        game.next(first).next(second).field == game.field,
        game.next(first).next(second).next(third).score == game.score.plus(
            game.team_idx as int,
            game.field.runs as int,
        ),
        game.next(first).next(second).next(third).outs == 0,
        game.next(first).next(second).next(third).live ==> game.next(first).next(second).next(
            third,
        ).team_idx == 1 - game.team_idx,
{
    assert(game.field.advanced(0) == game.field);
}

/// The runs that the plays bring in for one side.
pub open spec fn runs_of(plays: Seq<Play>, side: int) -> int
    decreases plays.len(),
{
    if plays.len() == 0 {
        0
    } else {
        (if plays[0].team == side {
            plays[0].runs as int
        } else {
            0
        }) + runs_of(plays.drop_first(), side)
    }
}

/// A play adds its runs to the side at bat and nothing to the other.
pub proof fn lemma_play_adds_its_runs(game: GameState, play: Play, side: int)
    requires
        game.wf(),
        game.can_play(play),
        side == 0 || side == 1,
    ensures
        game.next(play).total(side) == game.total(side) + if game.team_idx == side {
            game.runs_on(play)
        } else {
            0
        },
        0 <= game.runs_on(play) <= MAX_RUNS_PER_PLAY,
        game.scores(play).team == game.team_idx,
        game.scores(play).runs == game.runs_on(play),
{
}

/// The runs of the plays of a game add up to what the game says each side
/// has scored.
pub proof fn lemma_plays_add_up(game: GameState, script: Seq<Play>, side: int)
    requires
        game.wf(),
        side == 0 || side == 1,
    ensures
        game.run(script).total(side) == game.total(side) + runs_of(game.scored(script), side),
    decreases script.len(),
{
    if script.len() > 0 && game.can_play(script[0]) {
        let play = script[0];
        let rest = game.next(play).scored(script.drop_first());
        lemma_next_wf(game, play);
        lemma_play_adds_its_runs(game, play, side);
        lemma_plays_add_up(game.next(play), script.drop_first(), side);
        assert(game.scored(script).drop_first() =~= rest);
        assert(game.scored(script)[0] == game.scores(play));
    }
}

/// The score of a game that is over is the sum of the runs of its plays.
pub proof fn lemma_final_score(visteam: &Team, hometeam: &Team, script: Seq<Play>)
    requires
        visteam.wf(),
        hometeam.wf(),
    ensures
        !GameState::opening(visteam, hometeam).run(script).live ==> {
            let start = GameState::opening(visteam, hometeam);
            &&& start.run(script).score.away == runs_of(start.scored(script), 0)
            &&& start.run(script).score.home == runs_of(start.scored(script), 1)
        },
{
    let start = GameState::opening(visteam, hometeam);
    lemma_plays_add_up(start, script, 0);
    lemma_plays_add_up(start, script, 1);
    lemma_game_over_is_settled(start, script);
}

/// A game that a script has ended has nobody on, nobody out and every run
/// credited.
pub proof fn lemma_game_over_is_settled(game: GameState, script: Seq<Play>)
    requires
        game.wf(),
        game.live,
    ensures
        !game.run(script).live ==> game.run(script).field == Field::fresh(false) && game.run(
            script,
        ).outs == 0,
    decreases script.len(),
{
    if script.len() > 0 && game.can_play(script[0]) {
        lemma_next_wf(game, script[0]);
        if game.next(script[0]).live {
            lemma_game_over_is_settled(game.next(script[0]), script.drop_first());
        } else {
            assert(game.next(script[0]).run(script.drop_first()) == game.next(script[0]));
        }
    }
}

/// The same game with the sides changed: the score, the rosters and the
/// turn at bat.
pub open spec fn mirrored<'a>(game: GameState<'a>) -> GameState<'a> {
    GameState {
        score: Score { away: game.score.home, home: game.score.away },
        teams: [game.teams[1], game.teams[0]],
        team_idx: (1 - game.team_idx) as i32,
        ..game
    }
}

/// Before the ninth inning the rules know no home side: with the sides
/// changed a play moves the same runners, brings in the same runs, puts
/// out as many, and credits the other side with what this side would have
/// got.
pub proof fn lemma_sides_alike_before_ninth(game: GameState, play: Play)
    requires
        game.wf(),
        game.can_play(play),
        game.inning < REGULATION,
    ensures
        mirrored(game).wf(),
        mirrored(game).can_play(play),
        mirrored(game).runs_on(play) == game.runs_on(play),
        mirrored(game).next(play).field == game.next(play).field,
        mirrored(game).next(play).outs == game.next(play).outs,
        mirrored(game).next(play).live && game.next(play).live,
        mirrored(game).next(play).team_idx == 1 - game.next(play).team_idx,
        mirrored(game).next(play).score.away == game.next(play).score.home,
        mirrored(game).next(play).score.home == game.next(play).score.away,
{
}

/// Batches of games can be tallied apart and their tallies added: the
/// home wins of two batches together are the home wins of the one and the
/// home wins of the other, in whichever order the batches come.
pub proof fn lemma_batches_merge(first: Seq<Score>, second: Seq<Score>)
    ensures
        home_wins(first + second) == home_wins(first) + home_wins(second),
        home_wins(first + second) == home_wins(second + first),
        home_wins(first + second) <= first.len() + second.len(),
{
    let won = |s: Score| s.home > s.away;
    Seq::filter_distributes_over_add(first, second, won);
    Seq::filter_distributes_over_add(second, first, won);
    first.lemma_filter_len(won);
    second.lemma_filter_len(won);
}

} // verus!
