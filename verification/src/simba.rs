//! The rules of play: plate appearances, base running, innings and the end
//! of a game.

use vstd::prelude::*;
use rand::rngs::ThreadRng;
use rand::Rng;
use crate::mlbstats::{BatterStats, PitcherStats, Team, LINEUP};
use crate::tally::{home_wins, tally};

verus! {

/// Innings in a regulation game.
pub const REGULATION: i32 = 9;

/// The most runs one plate appearance can bring in: three runners and the
/// batter.
pub const MAX_RUNS_PER_PLAY: i32 = 4;

/// How a plate appearance ends.
#[derive(Clone, Copy, Debug, PartialEq, Eq, Hash, Structural)]
pub enum Outcome {
    Walk,
    Single,
    Double,
    Triple,
    HomeRun,
    StrikeOut,
    /// An out on a ball in play on which the runners still move up.
    TagOut,
    /// An out on a ball in play on which nobody moves.
    FlyOut,
}

impl Outcome {
    /// Bases that the batter and the runners are pushed forward.
    pub open spec fn spec_bases(self) -> i32 {
        match self {
            Outcome::Walk => 1,
            Outcome::Single => 1,
            Outcome::Double => 2,
            Outcome::Triple => 3,
            Outcome::HomeRun => 4,
            Outcome::StrikeOut => 0,
            Outcome::TagOut => 1,
            Outcome::FlyOut => 0,
        }
    }

    /// Outs charged to the batting side.
    pub open spec fn spec_outs(self) -> i32 {
        match self {
            Outcome::StrikeOut | Outcome::TagOut | Outcome::FlyOut => 1,
            _ => 0,
        }
    }

    #[verifier::when_used_as_spec(spec_bases)]
    pub fn bases(self) -> (n: i32)
        ensures
            n == self.spec_bases(),
    {
        match self {
            Outcome::Walk => 1,
            Outcome::Single => 1,
            Outcome::Double => 2,
            Outcome::Triple => 3,
            Outcome::HomeRun => 4,
            Outcome::StrikeOut => 0,
            Outcome::TagOut => 1,
            Outcome::FlyOut => 0,
        }
    }

    #[verifier::when_used_as_spec(spec_outs)]
    pub fn outs(self) -> (n: i32)
        ensures
            n == self.spec_outs(),
    {
        match self {
            Outcome::StrikeOut | Outcome::TagOut | Outcome::FlyOut => 1,
            _ => 0,
        }
    }
}

/// Outcomes that a draw tells apart.
pub const OUTCOMES: usize = 8;

impl Outcome {
    /// The outcome that is tested at place `k` of a pass of the draw. The
    /// order of a pass is fixed: walk, single, double, triple, home run,
    /// strikeout, tag-out, fly-out.
    pub open spec fn at(k: int) -> Outcome {
        if k == 0 {
            Outcome::Walk
        } else if k == 1 {
            Outcome::Single
        } else if k == 2 {
            Outcome::Double
        } else if k == 3 {
            Outcome::Triple
        } else if k == 4 {
            Outcome::HomeRun
        } else if k == 5 {
            Outcome::StrikeOut
        } else if k == 6 {
            Outcome::TagOut
        } else {
            Outcome::FlyOut
        }
    }

    /// The place of the outcome in a pass of the draw.
    pub open spec fn spec_place(self) -> usize {
        match self {
            Outcome::Walk => 0,
            Outcome::Single => 1,
            Outcome::Double => 2,
            Outcome::Triple => 3,
            Outcome::HomeRun => 4,
            Outcome::StrikeOut => 5,
            Outcome::TagOut => 6,
            Outcome::FlyOut => 7,
        }
    }

    #[verifier::when_used_as_spec(spec_place)]
    pub fn place(self) -> (k: usize)
        ensures
            k == self.spec_place(),
            k < OUTCOMES,
            Outcome::at(k as int) == self,
    {
        match self {
            Outcome::Walk => 0,
            Outcome::Single => 1,
            Outcome::Double => 2,
            Outcome::Triple => 3,
            Outcome::HomeRun => 4,
            Outcome::StrikeOut => 5,
            Outcome::TagOut => 6,
            Outcome::FlyOut => 7,
        }
    }

    /// The outcome at place `k` of a pass; places are counted round, so
    /// that after the last outcome of a pass the first is tested again.
    pub fn nth(k: usize) -> (outcome: Outcome)
        ensures
            outcome == Outcome::at(k as int % OUTCOMES as int),
    {
        let place: usize = k % OUTCOMES;
        if place == 0 {
            Outcome::Walk
        } else if place == 1 {
            Outcome::Single
        } else if place == 2 {
            Outcome::Double
        } else if place == 3 {
            Outcome::Triple
        } else if place == 4 {
            Outcome::HomeRun
        } else if place == 5 {
            Outcome::StrikeOut
        } else if place == 6 {
            Outcome::TagOut
        } else {
            Outcome::FlyOut
        }
    }

    /// The outcome that is tested after this one has failed its test.
    pub fn following(self) -> (outcome: Outcome)
        ensures
            outcome == Outcome::at((self.spec_place() + 1) % OUTCOMES as int),
    {
        match self {
            Outcome::Walk => Outcome::Single,
            Outcome::Single => Outcome::Double,
            Outcome::Double => Outcome::Triple,
            Outcome::Triple => Outcome::HomeRun,
            Outcome::HomeRun => Outcome::StrikeOut,
            Outcome::StrikeOut => Outcome::TagOut,
            Outcome::TagOut => Outcome::FlyOut,
            Outcome::FlyOut => Outcome::Walk,
        }
    }
}

/// Draws the outcome of a plate appearance from the results of its tests.
///
/// A draw tests one outcome after the other, pass after pass, each against
/// a fresh random number, and the first test that is passed settles it.
/// `tests` holds the results in the order in which the tests were made;
/// while no test has been passed the draw is not settled.
pub fn sample(tests: &Vec<bool>) -> (outcome: Option<Outcome>)
    ensures
        match outcome {
            Some(o) => exists|i: int|
                0 <= i < tests@.len() && #[trigger] tests@[i] && (forall|j: int|
                    0 <= j < i ==> !tests@[j]) && o == Outcome::at(i % OUTCOMES as int),
            None => forall|i: int| 0 <= i < tests@.len() ==> !tests@[i],
        },
{
    let mut i: usize = 0;
    while i < tests.len()
        invariant
            i <= tests@.len(),
            forall|j: int| 0 <= j < i ==> !tests@[j],
        decreases tests@.len() - i,
    {
        if tests[i] {
            return Some(Outcome::nth(i));
        }
        i += 1;
    }
    None
}

/// Bases that a runner can stand on.
pub const BASES: usize = 3;

/// `rand::rngs::ThreadRng`, the random source of a thread, of which nothing
/// is seen here.
#[verifier::external_type_specification]
#[verifier::external_body]
pub struct ExThreadRng(ThreadRng);

/// Draws one of the bases with `Rng::gen_range`, each with the same chance.
/// Of the draw only its range is claimed.
#[verifier::external_body]
fn draw_base(rng: &mut ThreadRng) -> (slot: usize)
    ensures
        slot < BASES,
{
    rng.gen_range(0..BASES)
}

/// Runners and runs of one half-inning. `bases[0]` is first base.
#[derive(Clone, Copy, Debug)]
pub struct Field {
    pub bases: [bool; 3],
    pub runs: i32,
}

impl Field {
    pub open spec fn wf(self) -> bool {
        0 <= self.runs
    }

    /// The field as a half-inning finds it: nobody on, or, in an extra
    /// inning, a runner on second.
    pub open spec fn fresh(extra: bool) -> Field {
        Field { bases: [false, extra, false], runs: 0 }
    }

    /// Whether a runner stands on base `k`; there is no base but the
    /// three.
    pub open spec fn on(self, k: int) -> bool {
        0 <= k < BASES && self.bases[k]
    }

    pub open spec fn is_empty(self) -> bool {
        !self.bases[0] && !self.bases[1] && !self.bases[2]
    }

    /// How many runners are on base.
    pub open spec fn runners(self) -> int {
        (if self.bases[0] {
            1int
        } else {
            0
        }) + (if self.bases[1] {
            1int
        } else {
            0
        }) + (if self.bases[2] {
            1int
        } else {
            0
        })
    }

    /// Runs that `n` forced steps bring in: each runner who is pushed past
    /// third, and the batter once `n` reaches four.
    pub open spec fn scoring(self, n: int) -> int {
        (if self.bases[0] && n >= 3 {
            1int
        } else {
            0
        }) + (if self.bases[1] && n >= 2 {
            1int
        } else {
            0
        }) + (if self.bases[2] && n >= 1 {
            1int
        } else {
            0
        }) + (if n >= 4 {
            1int
        } else {
            0
        })
    }

    /// The field after `n` forced steps. The batter has gone `n` bases and
    /// so has every runner, and whoever was pushed past third has scored:
    /// on a base stands the batter, if the base is the `n`-th, or the
    /// runner who stood `n` bases before it.
    pub open spec fn advanced(self, n: int) -> Field {
        if n <= 0 {
            self
        } else {
            Field {
                bases: [
                    n == 1 || self.on(0 - n),
                    n == 2 || self.on(1 - n),
                    n == 3 || self.on(2 - n),
                ],
                runs: (self.runs + self.scoring(n)) as i32,
            }
        }
    }

    /// The field with base `slot` cleared when a runner stands there.
    pub open spec fn tagged(self, slot: int) -> Field {
        if self.on(slot) {
            Field {
                bases: [
                    self.bases[0] && slot != 0,
                    self.bases[1] && slot != 1,
                    self.bases[2] && slot != 2,
                ],
                runs: self.runs,
            }
        } else {
            self
        }
    }

    pub fn new(extra: bool) -> (f: Field)
        ensures
            f == Field::fresh(extra),
            f.wf(),
    {
        let f = Field { bases: [false, extra, false], runs: 0 };
        assert(f.bases =~= Field::fresh(extra).bases);
        f
    }

    /// Pushes batter and runners `n` bases forward and counts who scores.
    pub fn advance(&mut self, n: i32)
        requires
            old(self).runs <= i32::MAX - MAX_RUNS_PER_PLAY,
        ensures
            *final(self) == old(self).advanced(n as int),
            old(self).runs <= final(self).runs <= old(self).runs + MAX_RUNS_PER_PLAY,
    {
        let mut i: i32 = 0;
        while i < n
            invariant
                0 <= i,
                i <= n || i == 0,
                old(self).runs <= i32::MAX - MAX_RUNS_PER_PLAY,
                self.runs == old(self).advanced(i as int).runs,
                self.bases =~= old(self).advanced(i as int).bases,
            decreases n - i,
        {
            if self.bases[2] {
                self.runs += 1;
            }
            self.bases[2] = self.bases[1];
            self.bases[1] = self.bases[0];
            self.bases[0] = i == 0;
            i += 1;
        }
        assert(self.bases =~= old(self).advanced(n as int).bases);
    }

    /// Tries to put out the runner on base `slot` and says whether the tag
    /// is settled: it is when that runner is out, or when nobody was on
    /// base to begin with. After a miss the field is unchanged.
    pub fn random_out(&mut self, slot: usize) -> (settled: bool)
        ensures
            *final(self) == old(self).tagged(slot as int),
            settled == (old(self).is_empty() || old(self).on(slot as int)),
    {
        if !self.bases[0] && !self.bases[1] && !self.bases[2] {
            return true;
        }
        if slot < BASES && self.bases[slot] {
            self.bases[slot] = false;
            assert(self.bases =~= old(self).tagged(slot as int).bases);
            true
        } else {
            false
        }
    }
}

/// Runs of the two sides.
#[derive(Clone, Copy, Debug, PartialEq, Eq, Hash, Structural)]
pub struct Score {
    pub away: i32,
    pub home: i32,
}

impl Score {
    pub open spec fn wf(self) -> bool {
        0 <= self.away && 0 <= self.home
    }

    /// The score with `runs` more for side `idx`: 0 is the visiting side,
    /// 1 the home side, and no other side scores.
    pub open spec fn plus(self, idx: int, runs: int) -> Score {
        if idx == 0 {
            Score { away: (self.away + runs) as i32, home: self.home }
        } else if idx == 1 {
            Score { away: self.away, home: (self.home + runs) as i32 }
        } else {
            self
        }
    }

    pub open spec fn tied(self) -> bool {
        self.away == self.home
    }

    pub fn default() -> (s: Score)
        ensures
            s == (Score { away: 0, home: 0 }),
    {
        Score { away: 0, home: 0 }
    }

    /// Credits `runs` to side `idx`.
    pub fn add(self, idx: i32, runs: i32) -> (s: Score)
        requires
            idx == 0 ==> i32::MIN <= self.away + runs <= i32::MAX,
            idx == 1 ==> i32::MIN <= self.home + runs <= i32::MAX,
        ensures
            s == self.plus(idx as int, runs as int),
    {
        let mut s = self;
        if idx == 0 {
            s.away += runs;
        } else if idx == 1 {
            s.home += runs;
        }
        s
    }
}

/// A team at play: its roster and whose turn it is to bat.
#[derive(Clone, Copy, Debug)]
pub struct LiveTeam<'a> {
    pub team: &'a Team,
    pub current_batter: usize,
}

impl<'a> LiveTeam<'a> {
    pub open spec fn wf(self) -> bool {
        self.team.wf() && self.current_batter < LINEUP
    }

    /// The team with the next batter of the order up; after the last
    /// comes the first again.
    pub open spec fn stepped(self) -> LiveTeam<'a> {
        LiveTeam {
            team: self.team,
            current_batter: if self.current_batter + 1 < LINEUP {
                (self.current_batter + 1) as usize
            } else {
                0
            },
        }
    }

    pub fn from(team: &'a Team) -> (live: LiveTeam<'a>)
        ensures
            live == (LiveTeam { team, current_batter: 0 }),
            team.wf() ==> live.wf(),
    {
        LiveTeam { team, current_batter: 0 }
    }

    pub fn advance(&mut self)
        ensures
            *final(self) == old(self).stepped(),
            old(self).wf() ==> final(self).wf(),
    {
        self.current_batter = if self.current_batter < LINEUP - 1 {
            self.current_batter + 1
        } else {
            0
        };
    }

    pub fn pitcher(&self) -> (p: &PitcherStats)
        ensures
            *p == self.team.starting_pitcher,
    {
        &self.team.starting_pitcher
    }

    pub fn batter(&self) -> (b: &BatterStats)
        requires
            self.current_batter < self.team.batters@.len(),
        ensures
            *b == self.team.batters@[self.current_batter as int],
    {
        &self.team.batters[self.current_batter]
    }
}

/// One plate appearance as the game sees it.
#[derive(Clone, Copy, Debug)]
pub struct Play {
    /// The side at bat: 0 visiting, 1 home.
    pub team: i32,
    /// Runs that the play brought in.
    pub runs: i32,
    pub outcome: Outcome,
    /// The base whose runner a tag-out removes; other outcomes ignore it.
    pub tag: usize,
}

/// A game in progress, between two plate appearances.
#[derive(Clone, Copy, Debug)]
pub struct GameState<'a> {
    /// Runners and runs of the half-inning under way.
    pub field: Field,
    /// Runs of the half-innings that are over.
    pub score: Score,
    /// The visiting side, then the home side.
    pub teams: [LiveTeam<'a>; 2],
    /// The side at bat: 0 visiting, 1 home.
    pub team_idx: i32,
    pub inning: i32,
    pub outs: i32,
    /// Whether the game is still on.
    pub live: bool,
}

impl<'a> GameState<'a> {
    /// What holds between any two plate appearances of a game.
    ///
    /// Besides the ranges of the counters: a game that is over went nine
    /// innings and has a winner; while the home side bats in the ninth or
    /// later it has not taken the lead yet; and an extra inning begins
    /// level.
    pub open spec fn wf(self) -> bool {
        &&& self.team_idx == 0 || self.team_idx == 1
        &&& 1 <= self.inning
        &&& 0 <= self.outs < 3
        &&& self.teams[0].wf()
        &&& self.teams[1].wf()
        &&& self.score.wf()
        &&& self.field.wf()
        &&& !self.live ==> self.inning >= REGULATION && !self.score.tied()
        &&& self.live && self.team_idx == 1 && self.inning >= REGULATION ==> self.score.home
            + self.field.runs <= self.score.away
        &&& self.live && self.team_idx == 0 && self.inning > REGULATION ==> self.score.tied()
    }

    /// The counters can take one more plate appearance.
    pub open spec fn in_range(self) -> bool {
        &&& self.score.away + self.field.runs <= i32::MAX - MAX_RUNS_PER_PLAY
        &&& self.score.home + self.field.runs <= i32::MAX - MAX_RUNS_PER_PLAY
        &&& self.inning < i32::MAX
    }

    /// A tag-out names a base that holds a runner once everybody has moved
    /// up; any other play is taken as it comes.
    pub open spec fn takes(self, play: Play) -> bool {
        play.outcome is TagOut ==> self.field.advanced(1).on(play.tag as int)
    }

    /// The field once the play has moved the runners.
    pub open spec fn field_after(self, play: Play) -> Field {
        let moved = self.field.advanced(play.outcome.spec_bases() as int);
        if play.outcome is TagOut {
            moved.tagged(play.tag as int)
        } else {
            moved
        }
    }

    /// Runs that the play brings in.
    pub open spec fn runs_on(self, play: Play) -> int {
        self.field_after(play).runs - self.field.runs
    }

    /// The home side takes the lead in the ninth inning or later.
    pub open spec fn walks_off(self, play: Play) -> bool {
        &&& self.team_idx == 1
        &&& self.inning >= REGULATION
        &&& self.score.home + self.field_after(play).runs > self.score.away
    }

    /// The play ends the half-inning: by the third out, or at once when
    /// the home side walks off.
    pub open spec fn ends_half(self, play: Play) -> bool {
        self.outs + play.outcome.spec_outs() >= 3 || self.walks_off(play)
    }

    /// The score once the half-inning's runs are credited.
    pub open spec fn score_after(self, play: Play) -> Score {
        self.score.plus(self.team_idx as int, self.field_after(play).runs as int)
    }

    /// The play ends the game. After the visitors' half that is when the
    /// home side leads in the ninth or later and so need not bat; after
    /// the home half when the ninth or a later inning leaves a winner.
    pub open spec fn ends_game(self, play: Play) -> bool {
        &&& self.ends_half(play)
        &&& self.inning >= REGULATION
        &&& if self.team_idx == 0 {
            self.score_after(play).home > self.score_after(play).away
        } else {
            !self.score_after(play).tied()
        }
    }

    /// Both sides, with the next batter of the side at bat up.
    pub open spec fn teams_after(self) -> [LiveTeam<'a>; 2] {
        if self.team_idx == 0 {
            [self.teams[0].stepped(), self.teams[1]]
        } else {
            [self.teams[0], self.teams[1].stepped()]
        }
    }

    /// The game after one more plate appearance.
    pub open spec fn next(self, play: Play) -> GameState<'a> {
        if !self.ends_half(play) {
            GameState {
                field: self.field_after(play),
                teams: self.teams_after(),
                outs: (self.outs + play.outcome.spec_outs()) as i32,
                ..self
            }
        } else if self.ends_game(play) {
            GameState {
                field: Field::fresh(false),
                score: self.score_after(play),
                teams: self.teams_after(),
                outs: 0,
                live: false,
                ..self
            }
        } else if self.team_idx == 0 {
            GameState {
                field: Field::fresh(self.inning > REGULATION),
                score: self.score_after(play),
                teams: self.teams_after(),
                team_idx: 1,
                outs: 0,
                ..self
            }
        } else {
            GameState {
                field: Field::fresh(self.inning + 1 > REGULATION),
                score: self.score_after(play),
                teams: self.teams_after(),
                team_idx: 0,
                inning: (self.inning + 1) as i32,
                outs: 0,
                ..self
            }
        }
    }

    /// The first pitch: visitors at bat in the first inning, nobody on,
    /// nobody out, no score, and each order at its top.
    pub open spec fn opening(visteam: &'a Team, hometeam: &'a Team) -> GameState<'a> {
        GameState {
            field: Field::fresh(false),
            score: Score { away: 0, home: 0 },
            teams: [
                LiveTeam { team: visteam, current_batter: 0 },
                LiveTeam { team: hometeam, current_batter: 0 },
            ],
            team_idx: 0,
            inning: 1,
            outs: 0,
            live: true,
        }
    }

    pub fn new(visteam: &'a Team, hometeam: &'a Team) -> (game: GameState<'a>)
        ensures
            game == GameState::opening(visteam, hometeam),
            visteam.wf() && hometeam.wf() ==> game.wf() && game.in_range(),
    {
        let game = GameState {
            field: Field::new(false),
            score: Score::default(),
            teams: [LiveTeam::from(visteam), LiveTeam::from(hometeam)],
            team_idx: 0,
            inning: 1,
            outs: 0,
            live: true,
        };
        assert(game.teams =~= GameState::opening(visteam, hometeam).teams);
        game
    }

    /// Whether the state is one that a game can be in.
    pub fn is_valid(&self) -> (yes: bool)
        ensures
            yes == self.wf(),
    {
        let counters: bool = (self.team_idx == 0 || self.team_idx == 1) && 1 <= self.inning && 0
            <= self.outs && self.outs < 3 && 0 <= self.score.away && 0 <= self.score.home && 0
            <= self.field.runs;
        let rosters: bool = self.teams[0].team.has_lineup() && self.teams[0].current_batter < LINEUP
            && self.teams[1].team.has_lineup() && self.teams[1].current_batter < LINEUP;
        if !counters || !rosters {
            return false;
        }
        let late: bool = self.inning >= REGULATION;
        let ended: bool = self.live || (late && self.score.away != self.score.home);
        let home_behind: bool = !(self.live && self.team_idx == 1 && late) || self.field.runs
            <= self.score.away - self.score.home;
        let extra_level: bool = !(self.live && self.team_idx == 0 && self.inning > REGULATION)
            || self.score.away == self.score.home;
        ended && home_behind && extra_level
    }

    /// Whether a tag-out may name base `slot`.
    pub fn can_tag(&self, slot: usize) -> (yes: bool)
        ensures
            yes == self.field.advanced(1).on(slot as int),
    {
        slot == 0 || (slot < BASES && self.field.bases[slot - 1])
    }

    /// Draws a base for a tag-out, once. The draw counts when a runner
    /// stands on the base once everybody has moved up, and only then is
    /// the base returned; after a miss the draw is made again.
    pub fn draw_tag(&self, rng: &mut ThreadRng) -> (tag: Option<usize>)
        ensures
            exists|slot: usize| slot < BASES && tag == #[trigger] self.tag_for(slot),
            tag is Some ==> tag->0 < BASES && self.field.advanced(1).on(tag->0 as int),
            self.field.advanced(1).on(0) && self.field.advanced(1).on(1) && self.field.advanced(
                1,
            ).on(2) ==> tag is Some,
    {
        let slot: usize = draw_base(rng);
        self.settle_tag(slot)
    }

    /// What the draw of base `slot` settles for a tag-out: that base, when
    /// a runner stands on it once everybody has moved up, and nothing when
    /// nobody does.
    pub open spec fn tag_for(self, slot: usize) -> Option<usize> {
        if self.field.advanced(1).on(slot as int) {
            Some(slot)
        } else {
            None
        }
    }

    /// Settles a tag-out by the base that was drawn for it.
    pub fn settle_tag(&self, slot: usize) -> (tag: Option<usize>)
        ensures
            tag == self.tag_for(slot),
    {
        if self.can_tag(slot) {
            Some(slot)
        } else {
            None
        }
    }

    /// Plays one plate appearance and returns the runs it brought in.
    pub fn transition(&mut self, play: &Play) -> (runs: i32)
        requires
            old(self).wf(),
            old(self).live,
            old(self).in_range(),
            old(self).takes(*play),
        ensures
            *final(self) == old(self).next(*play),
            runs == old(self).runs_on(*play),
            final(self).wf(),
    {
        let batting: i32 = self.team_idx;
        let before: i32 = self.field.runs;

        self.teams[batting as usize].advance();
        assert(self.teams =~= old(self).teams_after());

        self.field.advance(play.outcome.bases());
        if let Outcome::TagOut = play.outcome {
            self.field.random_out(play.tag);
        }
        let runs: i32 = self.field.runs - before;
        self.outs += play.outcome.outs();

        let walk_off: bool = batting == 1 && self.inning >= REGULATION && self.score.home
            + self.field.runs > self.score.away;
        if self.outs >= 3 || walk_off {
            self.score = self.score.add(batting, self.field.runs);
            self.outs = 0;
            let decided: bool = if batting == 0 {
                self.score.home > self.score.away
            } else {
                self.score.home != self.score.away
            };
            if self.inning >= REGULATION && decided {
                self.live = false;
                self.field = Field::new(false);
            } else if batting == 0 {
                self.team_idx = 1;
                self.field = Field::new(self.inning > REGULATION);
            } else {
                self.inning += 1;
                self.team_idx = 0;
                self.field = Field::new(self.inning > REGULATION);
            }
        }
        runs
    }
}

impl<'a> GameState<'a> {
    /// The game is on and can take the play.
    pub open spec fn can_play(self, play: Play) -> bool {
        self.live && self.in_range() && self.takes(play)
    }

    /// The game after the plays of `script`, taken in order for as long as
    /// the game can take them.
    pub open spec fn run(self, script: Seq<Play>) -> GameState<'a>
        decreases script.len(),
    {
        if script.len() == 0 || !self.can_play(script[0]) {
            self
        } else {
            self.next(script[0]).run(script.drop_first())
        }
    }

    /// The play as the game scores it: with the side at bat and the runs
    /// that it brings in.
    pub open spec fn scores(self, play: Play) -> Play {
        Play { team: self.team_idx, runs: self.runs_on(play) as i32, ..play }
    }

    /// The plays of `script` that the game takes, each as it is scored.
    pub open spec fn scored(self, script: Seq<Play>) -> Seq<Play>
        decreases script.len(),
    {
        if script.len() == 0 || !self.can_play(script[0]) {
            Seq::empty()
        } else {
            seq![self.scores(script[0])] + self.next(script[0]).scored(script.drop_first())
        }
    }

    /// The runs of a side, those of the half-inning under way among them.
    pub open spec fn total(self, side: int) -> int {
        if side == 0 {
            self.score.away + if self.team_idx == 0 {
                self.field.runs as int
            } else {
                0
            }
        } else {
            self.score.home + if self.team_idx == 1 {
                self.field.runs as int
            } else {
                0
            }
        }
    }

    /// Whether the game is on and can take the play.
    pub fn accepts(&self, play: &Play) -> (yes: bool)
        requires
            self.wf(),
        ensures
            yes == self.can_play(*play),
    {
        let tag_fits: bool = match play.outcome {
            Outcome::TagOut => self.can_tag(play.tag),
            _ => true,
        };
        self.live && tag_fits && self.inning < i32::MAX && self.score.away <= i32::MAX
            - MAX_RUNS_PER_PLAY - self.field.runs && self.score.home <= i32::MAX
            - MAX_RUNS_PER_PLAY - self.field.runs
    }

    /// Plays the script from its start until the game is over, the script
    /// is used up or a play cannot be taken, and returns the plays that
    /// were played, each as it was scored.
    pub fn play(&mut self, script: &Vec<Play>) -> (plays: Vec<Play>)
        requires
            old(self).wf(),
        ensures
            *final(self) == old(self).run(script@),
            plays@ == old(self).scored(script@),
            plays@.len() <= script@.len(),
            final(self).wf(),
    {
        let mut plays: Vec<Play> = Vec::new();
        let mut i: usize = 0;
        assert(script@.skip(0) =~= script@);
        while i < script.len() && self.accepts(&script[i])
            invariant
                i <= script@.len(),
                plays@.len() == i,
                self.wf(),
                old(self).run(script@) == self.run(script@.skip(i as int)),
                old(self).scored(script@) == plays@ + self.scored(script@.skip(i as int)),
            ensures
                plays@.len() <= script@.len(),
                self.wf(),
                *self == old(self).run(script@),
                plays@ == old(self).scored(script@),
            decreases script@.len() - i,
        {
            assert(script@.skip(i as int).drop_first() =~= script@.skip(i + 1));
            let ghost before = *self;
            let ghost sofar = plays@;
            let team: i32 = self.team_idx;
            let runs: i32 = self.transition(&script[i]);
            plays.push(Play { team, runs, ..script[i] });
            assert(plays@ + self.scored(script@.skip(i + 1)) =~= sofar + before.scored(
                script@.skip(i as int),
            ));
            i += 1;
        }
        plays
    }
}

/// What a game answers to a tag-out on a base without a runner.
pub open spec fn empty_base_message() -> Seq<char> {
    "no runner on the tagged base"@
}

/// What a game answers when its counters cannot take another play.
pub open spec fn out_of_range_message() -> Seq<char> {
    "score out of range"@
}

/// A game together with the drawing of its plays: each step takes what
/// was drawn for the next plate appearance and plays it.
#[derive(Clone, Copy, Debug)]
pub struct SimbaState<'a> {
    pub gamestate: GameState<'a>,
}

impl<'a> SimbaState<'a> {
    pub open spec fn wf(self) -> bool {
        self.gamestate.wf()
    }

    /// The side at bat.
    pub open spec fn batting(self) -> LiveTeam<'a> {
        self.gamestate.teams[self.gamestate.team_idx as int]
    }

    /// The side in the field.
    pub open spec fn fielding(self) -> LiveTeam<'a> {
        self.gamestate.teams[1 - self.gamestate.team_idx]
    }

    /// The play that `eval` builds from a draw.
    pub open spec fn drawn(self, outcome: Outcome, tag: usize) -> Play {
        Play { team: self.gamestate.team_idx, runs: 0, outcome, tag }
    }

    pub fn new(gamestate: GameState<'a>) -> (state: SimbaState<'a>)
        ensures
            state.gamestate == gamestate,
    {
        SimbaState { gamestate }
    }

    /// The pitcher and the batter who meet in the next plate appearance:
    /// the starter of the side in the field and the batter who is up.
    pub fn matchup(&self) -> (pair: (&PitcherStats, &BatterStats))
        requires
            self.wf(),
        ensures
            *pair.0 == self.fielding().team.starting_pitcher,
            *pair.1 == self.batting().team.batters@[self.batting().current_batter as int],
    {
        let off_idx: usize = self.gamestate.team_idx as usize;
        let def_idx: usize = 1 - off_idx;
        (self.gamestate.teams[def_idx].pitcher(), self.gamestate.teams[off_idx].batter())
    }

    /// The next play, as drawn and not yet scored; none once the game is
    /// over.
    pub fn eval(&self, outcome: Outcome, tag: usize) -> (play: Option<Play>)
        ensures
            play == if self.gamestate.live {
                Some(self.drawn(outcome, tag))
            } else {
                None
            },
    {
        if !self.gamestate.live {
            return None;
        }
        Some(Play { team: self.gamestate.team_idx, runs: 0, outcome, tag })
    }

    /// Plays what was drawn and returns the play with its runs. A game
    /// that is over answers with no play; a draw that the game cannot take
    /// is refused and leaves the game as it was.
    pub fn transition(&mut self, outcome: Outcome, tag: usize) -> (result: Result<
        Option<Play>,
        String,
    >)
        requires
            old(self).wf(),
        ensures
            final(self).wf(),
            !old(self).gamestate.live ==> result == Ok::<Option<Play>, String>(None) && *final(self)
                == *old(self),
            old(self).gamestate.live && !old(self).gamestate.takes(old(self).drawn(outcome, tag))
                ==> result is Err && result->Err_0@ == empty_base_message() && *final(self) == *old(
                self,
            ),
            old(self).gamestate.live && old(self).gamestate.takes(old(self).drawn(outcome, tag))
                && !old(self).gamestate.in_range() ==> result is Err && result->Err_0@
                == out_of_range_message() && *final(self) == *old(self),
            old(self).gamestate.can_play(old(self).drawn(outcome, tag)) ==> {
                let play = old(self).drawn(outcome, tag);
                &&& result == Ok::<Option<Play>, String>(
                    Some(Play { runs: old(self).gamestate.runs_on(play) as i32, ..play }),
                )
                &&& final(self).gamestate == old(self).gamestate.next(play)
            },
    {
        match self.eval(outcome, tag) {
            None => Ok(None),
            Some(play) => {
                if !self.gamestate.accepts(&play) {
                    let tag_fits: bool = match outcome {
                        Outcome::TagOut => self.gamestate.can_tag(tag),
                        _ => true,
                    };
                    if tag_fits {
                        Err(String::from_str("score out of range"))
                    } else {
                        Err(String::from_str("no runner on the tagged base"))
                    }
                } else {
                    let runs: i32 = self.gamestate.transition(&play);
                    Ok(Some(Play { runs, ..play }))
                }
            },
        }
    }

    /// The plays of the game, one for each draw handed to `next`.
    pub fn into_iter(self) -> (plays: SimbaIter<'a>)
        ensures
            plays.0 == Some(self),
    {
        SimbaIter(Some(self))
    }
}

/// The plays of a game, one at a time, until the game is over or a draw is
/// refused.
#[derive(Debug)]
pub struct SimbaIter<'a>(pub Option<SimbaState<'a>>);

impl<'a> SimbaIter<'a> {
    pub open spec fn wf(self) -> bool {
        self.0 is Some ==> self.0->0.wf()
    }

    /// Plays what was drawn and hands out the play. Once the game is over
    /// there are no more plays; after a refusal there are none either.
    pub fn next(&mut self, outcome: Outcome, tag: usize) -> (item: Option<Result<Play, String>>)
        requires
            old(self).wf(),
        ensures
            final(self).wf(),
            match old(self).0 {
                None => item is None && final(self).0 is None,
                Some(state) => {
                    let play = state.drawn(outcome, tag);
                    if !state.gamestate.live {
                        item is None && final(self).0 is None
                    } else if !state.gamestate.takes(play) {
                        &&& item is Some
                        &&& item->0 is Err
                        &&& item->0->Err_0@ == empty_base_message()
                        &&& final(self).0 is None
                    } else if !state.gamestate.in_range() {
                        &&& item is Some
                        &&& item->0 is Err
                        &&& item->0->Err_0@ == out_of_range_message()
                        &&& final(self).0 is None
                    } else {
                        &&& item == Some(
                            Ok::<Play, String>(
                                Play { runs: state.gamestate.runs_on(play) as i32, ..play },
                            ),
                        )
                        &&& final(self).0 == Some(
                            SimbaState { gamestate: state.gamestate.next(play) },
                        )
                    }
                },
            },
    {
        let mut state = match self.0 {
            None => {
                return None;
            },
            Some(state) => state,
        };
        self.0 = None;
        match state.transition(outcome, tag) {
            Ok(Some(play)) => {
                self.0 = Some(state);
                Some(Ok(play))
            },
            Ok(None) => None,
            Err(e) => Some(Err(e)),
        }
    }
}

/// How many games a prediction plays.
pub const DEFAULT_ITERATIONS: usize = 1000;

/// What a prediction answers to a batch of another size than asked for.
pub open spec fn incomplete_batch_message() -> Seq<char> {
    "incomplete batch"@
}

/// What a prediction answers when its estimate is no probability.
pub open spec fn invalid_probability_message() -> Seq<char> {
    "invalid probability"@
}

/// The settings of a prediction.
#[derive(Clone, Copy, Debug)]
pub struct SimbaConfig {
    /// How many games are played.
    pub n_iter: usize,
}

/// The estimate of a prediction, as a fraction: the home side won
/// `home_wins` of `games` games.
#[derive(Clone, Copy, Debug, PartialEq, Eq, Structural)]
pub struct SimResult {
    pub home_wins: usize,
    pub games: usize,
}

impl SimResult {
    /// The fraction is a probability: it has a denominator and lies
    /// between nought and one.
    pub open spec fn wf(self) -> bool {
        0 < self.games && self.home_wins <= self.games
    }
}

impl SimbaConfig {
    /// Reduces the final scores of the games of one prediction to the
    /// estimate that the home side wins: the share of the games that it
    /// won. A batch that does not hold one score for each game asked for is
    /// refused, and so is an estimate over no game at all.
    pub fn run(&self, scores: &Vec<Score>) -> (result: Result<SimResult, String>)
        ensures
            scores@.len() != self.n_iter ==> result is Err && result->Err_0@
                == incomplete_batch_message(),
            scores@.len() == self.n_iter && self.n_iter == 0 ==> result is Err && result->Err_0@
                == invalid_probability_message(),
            scores@.len() == self.n_iter && self.n_iter > 0 ==> result == Ok::<SimResult, String>(
                SimResult { home_wins: home_wins(scores@) as usize, games: self.n_iter },
            ),
            result is Ok ==> result->Ok_0.wf(),
    {
        if scores.len() != self.n_iter {
            return Err(String::from_str("incomplete batch"));
        }
        let (wins, games) = tally(scores);
        if games == 0 || wins > games {
            return Err(String::from_str("invalid probability"));
        }
        Ok(SimResult { home_wins: wins, games })
    }
}

impl Default for SimbaConfig {
    fn default() -> (config: SimbaConfig)
        ensures
            config.n_iter == DEFAULT_ITERATIONS,
    {
        SimbaConfig { n_iter: DEFAULT_ITERATIONS }
    }
}

} // verus!
