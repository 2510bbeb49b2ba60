//! Career statistics of players and teams.

use vstd::prelude::*;
use crate::json::{Json, Step};
use crate::text::{i32_of, int_error_text, parse_i32, same_text, strip_quotes, unquoted};

verus! {

/// Number of places in a batting order.
pub const LINEUP: usize = 9;

/// One scheduled game, as the schedule lists it.
#[derive(Debug)]
pub struct Game {
    pub away_name: String,
    pub home_name: String,
    pub game_id: String,
    pub status: String,
}

/// Career totals of a batter.
#[derive(Debug)]
pub struct BatterStats {
    pub name: String,
    pub hand: String,
    pub plate_appearances: i32,
    pub bases_on_balls: i32,
    pub hits: i32,
    pub doubles: i32,
    pub triples: i32,
    pub homeruns: i32,
    pub strikeouts: i32,
}

/// Career totals of a pitcher.
#[derive(Debug)]
pub struct PitcherStats {
    pub name: String,
    pub hand: String,
    pub batters_faced: i32,
    pub bases_on_balls: i32,
    pub hits: i32,
    pub doubles: i32,
    pub triples: i32,
    pub homeruns: i32,
    pub strikeouts: i32,
}

/// A starting pitcher and the batting order behind them.
#[derive(Debug)]
pub struct Team {
    pub name: String,
    pub starting_pitcher: PitcherStats,
    pub batters: Vec<BatterStats>,
}

impl Team {
    /// A team can take the field when its batting order is complete.
    pub open spec fn wf(self) -> bool {
        self.batters@.len() == LINEUP
    }
}

impl Team {
    /// Whether the batting order is complete.
    pub fn has_lineup(&self) -> (yes: bool)
        ensures
            yes == self.wf(),
    {
        self.batters.len() == LINEUP
    }
}

/// Where every query begins.
pub open spec fn api_root() -> Seq<char> {
    "https://statsapi.mlb.com/api/"@
}

/// The parameters as the tail of an address: `?` before the first, `&`
/// before each of the others, and `=` between a name and its value.
pub open spec fn query_text(params: Seq<(Seq<char>, Seq<char>)>) -> Seq<char>
    decreases params.len(),
{
    if params.len() == 0 {
        Seq::empty()
    } else {
        query_text(params.drop_last()) + (if params.len() == 1 {
            seq!['?']
        } else {
            seq!['&']
        }) + params.last().0 + seq!['='] + params.last().1
    }
}

/// Where `name` stands among the parameters, if it does.
pub open spec fn position(params: Seq<(Seq<char>, Seq<char>)>, name: Seq<char>) -> Option<int> {
    if exists|i: int| 0 <= i < params.len() && params[i].0 == name {
        Some(choose|i: int| 0 <= i < params.len() && params[i].0 == name)
    } else {
        None
    }
}

/// The parameters with `name` set to `value`: in the place where the name
/// stood, or at the end when it is new.
pub open spec fn with_param(
    params: Seq<(Seq<char>, Seq<char>)>,
    name: Seq<char>,
    value: Seq<char>,
) -> Seq<(Seq<char>, Seq<char>)> {
    match position(params, name) {
        Some(i) => params.update(i, (name, value)),
        None => params.push((name, value)),
    }
}

/// No name stands twice among the parameters.
pub open spec fn distinct_names(params: Seq<(Seq<char>, Seq<char>)>) -> bool {
    forall|i: int, j: int| 0 <= i < j < params.len() ==> params[i].0 != params[j].0
}

/// A query to the statistics service: a path and named parameters.
pub struct StatsApi<'a> {
    url: String,
    params: Vec<(&'a str, &'a str)>,
}

impl<'a> StatsApi<'a> {
    /// The path of the query, below the root of the service.
    pub closed spec fn path(self) -> Seq<char> {
        self.url@
    }

    /// The parameters of the query, each a name and a value, in the order
    /// in which their names were first given.
    pub closed spec fn params(self) -> Seq<(Seq<char>, Seq<char>)> {
        self.params@.map_values(|p: (&'a str, &'a str)| (p.0@, p.1@))
    }

    /// No parameter is named twice.
    pub open spec fn wf(self) -> bool {
        distinct_names(self.params())
    }

    /// The address that the query asks.
    pub open spec fn address(self) -> Seq<char> {
        api_root() + self.path() + query_text(self.params())
    }

    /// The schedule of one day.
    pub fn schedule(date: &'a str) -> (api: StatsApi<'a>)
        ensures
            api.path() == "v1/schedule"@,
            api.params() == seq![("sportId"@, "1"@), ("date"@, date@)],
            api.wf(),
    {
        let mut params: Vec<(&'a str, &'a str)> = Vec::new();
        params.push(("sportId", "1"));
        params.push(("date", date));
        let api = StatsApi { url: String::from_str("v1/schedule"), params };
        proof {
            reveal_strlit("sportId");
            reveal_strlit("date");
            assert("sportId"@.len() == 7 && "date"@.len() == 4);
            assert(api.params() =~= seq![("sportId"@, "1"@), ("date"@, date@)]);
        }
        api
    }

    /// The live feed of one game.
    pub fn game(game_id: &str) -> (api: StatsApi<'a>)
        ensures
            api.path() == "v1.1/game/"@ + game_id@ + "/feed/live"@,
            api.params() == Seq::<(Seq<char>, Seq<char>)>::empty(),
            api.wf(),
    {
        let mut url = String::from_str("v1.1/game/");
        url.append(game_id);
        url.append("/feed/live");
        let api = StatsApi { url, params: Vec::new() };
        assert(api.params() =~= Seq::empty());
        api
    }

    /// The record of one player.
    pub fn player(player_id: &str) -> (api: StatsApi<'a>)
        ensures
            api.path() == "v1/people/"@ + player_id@,
            api.params() == Seq::<(Seq<char>, Seq<char>)>::empty(),
            api.wf(),
    {
        let mut url = String::from_str("v1/people/");
        url.append(player_id);
        let api = StatsApi { url, params: Vec::new() };
        assert(api.params() =~= Seq::empty());
        api
    }

    /// Sets parameter `k` to `v`, in place of the value it had if it had
    /// one.
    pub fn param(self, k: &'a str, v: &'a str) -> (api: Self)
        requires
            self.wf(),
        ensures
            api.path() == self.path(),
            api.params() == with_param(self.params(), k@, v@),
            api.wf(),
    {
        let ghost before = self.params();
        let ghost path = self.path();
        let mut api = self;
        let mut i: usize = 0;
        while i < api.params.len()
            invariant
                i <= api.params@.len(),
                api.params() == before,
                before == self.params(),
                distinct_names(before),
                api.path() == path,
                path == self.path(),
                forall|j: int| 0 <= j < i ==> before[j].0 != k@,
            decreases api.params@.len() - i,
        {
            if same_text(api.params[i].0, k) {
                assert(before[i as int].0 == k@);
                proof {
                    let found = choose|j: int| 0 <= j < before.len() && before[j].0 == k@;
                    assert(found == i) by {
                        if found < i {
                            assert(before[found].0 != k@);
                        } else if i < found {
                            assert(before[i as int].0 != before[found].0);
                        }
                    }
                }
                api.params[i] = (k, v);
                assert(api.params() =~= with_param(before, k@, v@));
                return api;
            }
            i += 1;
        }
        api.params.push((k, v));
        assert(position(before, k@) is None);
        assert(api.params() =~= with_param(before, k@, v@));
        api
    }

    /// Writes out the address of the query.
    pub fn build_url(&mut self) -> (result: Result<String, String>)
        ensures
            *final(self) == *old(self),
            result is Ok,
            result->Ok_0@ == old(self).address(),
    {
        let mut url = String::from_str("https://statsapi.mlb.com/api/");
        url.append(self.url.as_str());
        let mut i: usize = 0;
        assert(self.params().take(0) =~= Seq::empty());
        while i < self.params.len()
            invariant
                i <= self.params@.len(),
                *self == *old(self),
                url@ == api_root() + self.path() + query_text(self.params().take(i as int)),
            decreases self.params@.len() - i,
        {
            proof {
                let upto = self.params().take(i + 1);
                assert(upto.drop_last() =~= self.params().take(i as int));
                assert(upto.last() == self.params()[i as int]);
            }
            url.append(if i == 0 { "?" } else { "&" });
            url.append(self.params[i].0);
            url.append("=");
            url.append(self.params[i].1);
            proof {
                reveal_strlit("?");
                reveal_strlit("&");
                reveal_strlit("=");
                assert("?"@ =~= seq!['?']);
                assert("&"@ =~= seq!['&']);
                assert("="@ =~= seq!['=']);
                assert(url@ =~= api_root() + self.path() + query_text(self.params().take(i + 1)));
            }
            i += 1;
        }
        assert(self.params().take(i as int) =~= self.params());
        Ok(url)
    }
}

/// The text of a node without its double quotes: what a string says, and
/// the digits of a number.
pub fn value_to_string(value: &Json) -> (text: String)
    ensures
        text@ == unquoted(value.text@),
{
    strip_quotes(value.text.as_str())
}

/// What is answered to a node that spells no number; `written` is the
/// node's text.
pub open spec fn int_error_message(written: Seq<char>) -> Seq<char> {
    "Error while parsing \""@ + written + "\" to i32: "@ + int_error_text(unquoted(written))
}

/// The number that a node spells once its double quotes are gone, or the
/// complaint that it spells none; `written` is the node's text.
pub open spec fn int_of(written: Seq<char>) -> Result<i32, Seq<char>> {
    match i32_of(unquoted(written)) {
        Some(v) => Ok(v),
        None => Err(int_error_message(written)),
    }
}

/// The number that was read from a node, or the complaint about the node
/// with what the reading said against it.
pub fn checked_int(written: &str, parsed: Result<i32, String>) -> (result: Result<i32, String>)
    ensures
        match parsed {
            Ok(v) => result == Ok::<i32, String>(v),
            Err(e) => result is Err && result->Err_0@ == "Error while parsing \""@ + written@
                + "\" to i32: "@ + e@,
        },
{
    match parsed {
        Ok(v) => Ok(v),
        Err(e) => {
            let mut msg = String::from_str("Error while parsing \"");
            msg.append(written);
            msg.append("\" to i32: ");
            msg.append(e.as_str());
            Err(msg)
        },
    }
}

/// Reads the number that a node's text spells.
pub fn text_to_int(written: &str) -> (result: Result<i32, String>)
    ensures
        match int_of(written@) {
            Ok(v) => result == Ok::<i32, String>(v),
            Err(e) => result is Err && result->Err_0@ == e,
        },
{
    let bare = strip_quotes(written);
    checked_int(written, parse_i32(bare.as_str()))
}

/// Reads the number that a node spells.
pub fn value_to_int(value: &Json) -> (result: Result<i32, String>)
    ensures
        match int_of(value.text@) {
            Ok(v) => result == Ok::<i32, String>(v),
            Err(e) => result is Err && result->Err_0@ == e,
        },
{
    text_to_int(value.text.as_str())
}

/// Where a game of the schedule names the team of one side.
pub open spec fn team_name_path(side: &str) -> Seq<Step> {
    seq![Step::Key("teams"), Step::Key(side), Step::Key("team"), Step::Key("name")]
}

/// Where a game of the schedule says how it stands.
pub open spec fn status_path() -> Seq<Step<'static>> {
    seq![Step::Key("status"), Step::Key("detailedState")]
}

impl Game {
    /// The game says what the entry of the schedule says: both names, the
    /// number of the game and its state, each without double quotes.
    pub open spec fn describes(self, entry: Json) -> bool {
        &&& self.away_name@ == unquoted(entry.text_at(team_name_path("away")))
        &&& self.home_name@ == unquoted(entry.text_at(team_name_path("home")))
        &&& self.game_id@ == unquoted(entry.text_at(seq![Step::Key("gamePk")]))
        &&& self.status@ == unquoted(entry.text_at(status_path()))
    }

    /// Reads one entry of the schedule.
    pub fn from_entry(entry: &Json) -> (game: Game)
        ensures
            game.describes(*entry),
    {
        let away = [Step::Key("teams"), Step::Key("away"), Step::Key("team"), Step::Key("name")];
        let home = [Step::Key("teams"), Step::Key("home"), Step::Key("team"), Step::Key("name")];
        let id = [Step::Key("gamePk")];
        let status = [Step::Key("status"), Step::Key("detailedState")];
        assert(away@ =~= team_name_path("away"));
        assert(home@ =~= team_name_path("home"));
        assert(id@ =~= seq![Step::Key("gamePk")]);
        assert(status@ =~= status_path());
        Game {
            away_name: strip_quotes(entry.text_of(away.as_slice()).as_str()),
            home_name: strip_quotes(entry.text_of(home.as_slice()).as_str()),
            game_id: strip_quotes(entry.text_of(id.as_slice()).as_str()),
            status: strip_quotes(entry.text_of(status.as_slice()).as_str()),
        }
    }
}

/// What is answered to a schedule that holds more than one day.
pub open spec fn ambiguous_message() -> Seq<char> {
    "Ambiguous data for this date!"@
}

/// The entries of the one day that a schedule holds: none where the
/// schedule lists no day or the day lists no games, and a refusal where
/// it holds several days.
pub open spec fn entries_of(data: Json) -> Result<Seq<Json>, Seq<char>> {
    match data.elements_at(seq![Step::Key("dates")]) {
        Some(dates) => if dates.len() == 0 {
            Ok(Seq::empty())
        } else if dates.len() > 1 {
            Err(ambiguous_message())
        } else {
            match dates[0].elements_at(seq![Step::Key("games")]) {
                Some(entries) => Ok(entries),
                None => Ok(Seq::empty()),
            }
        },
        None => Ok(Seq::empty()),
    }
}

/// Reads the games of a day from the schedule that the service sent.
pub fn schedule(data: &Json) -> (result: Result<Vec<Game>, String>)
    ensures
        match entries_of(*data) {
            Ok(entries) => {
                &&& result is Ok
                &&& result->Ok_0@.len() == entries.len()
                &&& forall|i: int|
                    0 <= i < entries.len() ==> (#[trigger] result->Ok_0@[i]).describes(entries[i])
            },
            Err(e) => result is Err && result->Err_0@ == e,
        },
{
    let mut games: Vec<Game> = Vec::new();
    let dates_path = [Step::Key("dates")];
    let games_path = [Step::Key("games")];
    assert(dates_path@ =~= seq![Step::Key("dates")]);
    assert(games_path@ =~= seq![Step::Key("games")]);
    if let Some(dates) = data.elements_of(dates_path.as_slice()) {
        if dates.len() == 0 {
            return Ok(games);
        } else if dates.len() > 1 {
            return Err(String::from_str("Ambiguous data for this date!"));
        }
        if let Some(entries) = dates[0].elements_of(games_path.as_slice()) {
            let mut i: usize = 0;
            while i < entries.len()
                invariant
                    i <= entries@.len(),
                    games@.len() == i,
                    forall|j: int| 0 <= j < i ==> (#[trigger] games@[j]).describes(entries@[j]),
                decreases entries@.len() - i,
            {
                games.push(Game::from_entry(&entries[i]));
                i += 1;
            }
        }
    }
    Ok(games)
}

/// How many totals a career holds.
pub const TOTALS: usize = 7;

/// The names under which a record holds the totals of a career, in the
/// order in which they are read; `faced` names the first, which counts the
/// plate appearances of a batter or the batters that a pitcher faced.
pub open spec fn stat_fields(faced: &'static str) -> Seq<&'static str> {
    seq![faced, "baseOnBalls", "hits", "doubles", "triples", "homeRuns", "strikeOuts"]
}

/// Where the record of a player holds something about the person.
pub open spec fn person_path(field: &str) -> Seq<Step> {
    seq![Step::Key("people"), Step::Index(0), Step::Key(field)]
}

/// Where the record of a player says from which side they bat.
pub open spec fn bat_side_path() -> Seq<Step<'static>> {
    seq![Step::Key("people"), Step::Index(0), Step::Key("batSide"), Step::Key("code")]
}

/// Where the record of a player holds one total of the career.
pub open spec fn stat_path(field: &str) -> Seq<Step> {
    seq![
        Step::Key("people"),
        Step::Index(0),
        Step::Key("stats"),
        Step::Index(0),
        Step::Key("splits"),
        Step::Index(0),
        Step::Key("stat"),
        Step::Key(field),
    ]
}

/// What is answered to a record that lacks a text.
pub open spec fn missing_text_message(what: Seq<char>) -> Seq<char> {
    "missing text: "@ + what
}

/// One total of a career as the record spells it.
pub open spec fn stat_of(doc: Json, field: &str) -> Result<i32, Seq<char>> {
    int_of(doc.text_at(stat_path(field)))
}

/// The total in place `i` of a career as the record spells it.
pub open spec fn nth_stat(doc: Json, faced: &'static str, i: int) -> Result<i32, Seq<char>> {
    stat_of(doc, stat_fields(faced)[i])
}

/// The first of the totals that the record does not spell as a number.
pub open spec fn first_bad_stat(doc: Json, faced: &'static str) -> Option<int> {
    if exists|i: int| 0 <= i < TOTALS && #[trigger] nth_stat(doc, faced, i) is Err {
        Some(
            choose|i: int|
                0 <= i < TOTALS && #[trigger] nth_stat(doc, faced, i) is Err && forall|j: int|
                    0 <= j < i ==> #[trigger] nth_stat(doc, faced, j) is Ok,
        )
    } else {
        None
    }
}

/// What keeps a record from being read, if anything does: that it lacks
/// the player's name or batting side, or else the first total that is no
/// number.
pub open spec fn career_error(doc: Json, faced: &'static str) -> Option<Seq<char>> {
    if doc.string_at(person_path("initLastName")) is None {
        Some(missing_text_message("initLastName"@))
    } else if doc.string_at(bat_side_path()) is None {
        Some(missing_text_message("batSide"@))
    } else {
        match first_bad_stat(doc, faced) {
            Some(i) => Some(nth_stat(doc, faced, i)->Err_0),
            None => None,
        }
    }
}

/// A career as a record holds it.
pub struct Career {
    pub name: String,
    pub hand: String,
    pub totals: Vec<i32>,
}

impl Career {
    /// The career says what the record says: the name, the batting side
    /// with `suffix` behind it, and the totals in their order.
    pub open spec fn read_from(self, doc: Json, faced: &'static str, suffix: Seq<char>) -> bool {
        &&& doc.string_at(person_path("initLastName")) == Some(self.name@)
        &&& doc.string_at(bat_side_path()) is Some
        &&& self.hand@ == doc.string_at(bat_side_path())->0 + suffix
        &&& self.totals@.len() == TOTALS
        &&& forall|i: int|
            0 <= i < TOTALS ==> #[trigger] nth_stat(doc, faced, i) == Ok::<i32, Seq<char>>(
                self.totals@[i],
            )
    }

    /// Reads a career from the record of a player.
    pub fn read(doc: &Json, faced: &'static str, suffix: &str) -> (result: Result<Career, String>)
        ensures
            match career_error(*doc, faced) {
                Some(e) => result is Err && result->Err_0@ == e,
                None => result is Ok && result->Ok_0.read_from(*doc, faced, suffix@),
            },
    {
        let name_path = [Step::Key("people"), Step::Index(0), Step::Key("initLastName")];
        assert(name_path@ =~= person_path("initLastName"));
        let name = match doc.string_of(name_path.as_slice()) {
            Some(s) => s.to_owned(),
            None => {
                return Err(String::from_str("missing text: ").concat("initLastName"));
            },
        };
        let side_path = [
            Step::Key("people"),
            Step::Index(0),
            Step::Key("batSide"),
            Step::Key("code"),
        ];
        assert(side_path@ =~= bat_side_path());
        let hand = match doc.string_of(side_path.as_slice()) {
            Some(s) => s.to_owned().concat(suffix),
            None => {
                return Err(String::from_str("missing text: ").concat("batSide"));
            },
        };
        let fields = [faced, "baseOnBalls", "hits", "doubles", "triples", "homeRuns", "strikeOuts"];
        assert(fields@ =~= stat_fields(faced));
        let mut totals: Vec<i32> = Vec::new();
        let mut i: usize = 0;
        while i < TOTALS
            invariant
                i <= TOTALS,
                fields@ == stat_fields(faced),
                totals@.len() == i,
                doc.string_at(person_path("initLastName")) is Some,
                doc.string_at(bat_side_path()) is Some,
                forall|j: int|
                    0 <= j < i ==> #[trigger] nth_stat(*doc, faced, j) == Ok::<i32, Seq<char>>(
                        totals@[j],
                    ),
            decreases TOTALS - i,
        {
            let path = [
                Step::Key("people"),
                Step::Index(0),
                Step::Key("stats"),
                Step::Index(0),
                Step::Key("splits"),
                Step::Index(0),
                Step::Key("stat"),
                Step::Key(fields[i]),
            ];
            assert(path@ =~= stat_path(stat_fields(faced)[i as int]));
            match text_to_int(doc.text_of(path.as_slice()).as_str()) {
                Ok(v) => {
                    assert(nth_stat(*doc, faced, i as int) == Ok::<i32, Seq<char>>(v));
                    totals.push(v);
                },
                Err(e) => {
                    proof {
                        let first = first_bad_stat(*doc, faced);
                        assert(nth_stat(*doc, faced, i as int) is Err);
                        assert(first is Some);
                        assert(first->0 == i) by {
                            if first->0 < i {
                                assert(nth_stat(*doc, faced, first->0) is Ok);
                            }
                        }
                    }
                    return Err(e);
                },
            }
            i += 1;
        }
        proof {
            assert(first_bad_stat(*doc, faced) is None);
        }
        Ok(Career { name, hand, totals })
    }
}

impl BatterStats {
    /// The statistics say what the record of the batter says.
    pub open spec fn read_from(self, doc: Json) -> bool {
        &&& doc.string_at(person_path("initLastName")) == Some(self.name@)
        &&& doc.string_at(bat_side_path()) is Some
        &&& self.hand@ == doc.string_at(bat_side_path())->0 + "HB"@
        &&& stat_of(doc, "plateAppearances") == Ok::<i32, Seq<char>>(self.plate_appearances)
        &&& stat_of(doc, "baseOnBalls") == Ok::<i32, Seq<char>>(self.bases_on_balls)
        &&& stat_of(doc, "hits") == Ok::<i32, Seq<char>>(self.hits)
        &&& stat_of(doc, "doubles") == Ok::<i32, Seq<char>>(self.doubles)
        &&& stat_of(doc, "triples") == Ok::<i32, Seq<char>>(self.triples)
        &&& stat_of(doc, "homeRuns") == Ok::<i32, Seq<char>>(self.homeruns)
        &&& stat_of(doc, "strikeOuts") == Ok::<i32, Seq<char>>(self.strikeouts)
    }

    /// Reads the statistics of a batter from their record.
    pub fn from_record(doc: &Json) -> (result: Result<BatterStats, String>)
        ensures
            match career_error(*doc, "plateAppearances") {
                Some(e) => result is Err && result->Err_0@ == e,
                None => result is Ok && result->Ok_0.read_from(*doc),
            },
    {
        match Career::read(doc, "plateAppearances", "HB") {
            Ok(career) => {
                proof {
                    let doc = *doc;
                    assert(nth_stat(doc, "plateAppearances", 0) == stat_of(doc, "plateAppearances"));
                    assert(nth_stat(doc, "plateAppearances", 1) == stat_of(doc, "baseOnBalls"));
                    assert(nth_stat(doc, "plateAppearances", 2) == stat_of(doc, "hits"));
                    assert(nth_stat(doc, "plateAppearances", 3) == stat_of(doc, "doubles"));
                    assert(nth_stat(doc, "plateAppearances", 4) == stat_of(doc, "triples"));
                    assert(nth_stat(doc, "plateAppearances", 5) == stat_of(doc, "homeRuns"));
                    assert(nth_stat(doc, "plateAppearances", 6) == stat_of(doc, "strikeOuts"));
                }
                Ok(
                    BatterStats {
                        plate_appearances: career.totals[0],
                        bases_on_balls: career.totals[1],
                        hits: career.totals[2],
                        doubles: career.totals[3],
                        triples: career.totals[4],
                        homeruns: career.totals[5],
                        strikeouts: career.totals[6],
                        name: career.name,
                        hand: career.hand,
                    },
                )
            },
            Err(e) => Err(e),
        }
    }
}

impl PitcherStats {
    /// The statistics say what the record of the pitcher says.
    pub open spec fn read_from(self, doc: Json) -> bool {
        &&& doc.string_at(person_path("initLastName")) == Some(self.name@)
        &&& doc.string_at(bat_side_path()) is Some
        &&& self.hand@ == doc.string_at(bat_side_path())->0 + "HP"@
        &&& stat_of(doc, "battersFaced") == Ok::<i32, Seq<char>>(self.batters_faced)
        &&& stat_of(doc, "baseOnBalls") == Ok::<i32, Seq<char>>(self.bases_on_balls)
        &&& stat_of(doc, "hits") == Ok::<i32, Seq<char>>(self.hits)
        &&& stat_of(doc, "doubles") == Ok::<i32, Seq<char>>(self.doubles)
        &&& stat_of(doc, "triples") == Ok::<i32, Seq<char>>(self.triples)
        &&& stat_of(doc, "homeRuns") == Ok::<i32, Seq<char>>(self.homeruns)
        &&& stat_of(doc, "strikeOuts") == Ok::<i32, Seq<char>>(self.strikeouts)
    }

    /// Reads the statistics of a pitcher from their record.
    pub fn from_record(doc: &Json) -> (result: Result<PitcherStats, String>)
        ensures
            match career_error(*doc, "battersFaced") {
                Some(e) => result is Err && result->Err_0@ == e,
                None => result is Ok && result->Ok_0.read_from(*doc),
            },
    {
        match Career::read(doc, "battersFaced", "HP") {
            Ok(career) => {
                proof {
                    let doc = *doc;
                    assert(nth_stat(doc, "battersFaced", 0) == stat_of(doc, "battersFaced"));
                    assert(nth_stat(doc, "battersFaced", 1) == stat_of(doc, "baseOnBalls"));
                    assert(nth_stat(doc, "battersFaced", 2) == stat_of(doc, "hits"));
                    assert(nth_stat(doc, "battersFaced", 3) == stat_of(doc, "doubles"));
                    assert(nth_stat(doc, "battersFaced", 4) == stat_of(doc, "triples"));
                    assert(nth_stat(doc, "battersFaced", 5) == stat_of(doc, "homeRuns"));
                    assert(nth_stat(doc, "battersFaced", 6) == stat_of(doc, "strikeOuts"));
                }
                Ok(
                    PitcherStats {
                        batters_faced: career.totals[0],
                        bases_on_balls: career.totals[1],
                        hits: career.totals[2],
                        doubles: career.totals[3],
                        triples: career.totals[4],
                        homeruns: career.totals[5],
                        strikeouts: career.totals[6],
                        name: career.name,
                        hand: career.hand,
                    },
                )
            },
            Err(e) => Err(e),
        }
    }
}

/// The first of the records that cannot be read as a batter's.
pub open spec fn first_bad_batter(docs: Seq<Json>) -> Option<int> {
    if exists|i: int|
        0 <= i < docs.len() && career_error(#[trigger] docs[i], "plateAppearances") is Some {
        Some(
            choose|i: int|
                0 <= i < docs.len() && career_error(#[trigger] docs[i], "plateAppearances") is Some
                    && forall|j: int|
                    0 <= j < i ==> career_error(#[trigger] docs[j], "plateAppearances") is None,
        )
    } else {
        None
    }
}

/// Reads the statistics of the batters of an order from their records, in
/// the order of the records. The first record that cannot be read stops
/// the reading.
pub fn batter_stats(docs: &Vec<Json>) -> (result: Result<Vec<BatterStats>, String>)
    ensures
        match first_bad_batter(docs@) {
            Some(i) => result is Err && Some(result->Err_0@) == career_error(
                docs@[i],
                "plateAppearances",
            ),
            None => {
                &&& result is Ok
                &&& result->Ok_0@.len() == docs@.len()
                &&& forall|i: int|
                    0 <= i < docs@.len() ==> (#[trigger] result->Ok_0@[i]).read_from(docs@[i])
            },
        },
{
    let mut bats: Vec<BatterStats> = Vec::new();
    let mut i: usize = 0;
    while i < docs.len()
        invariant
            i <= docs@.len(),
            bats@.len() == i,
            forall|j: int|
                0 <= j < i ==> career_error(#[trigger] docs@[j], "plateAppearances") is None,
            forall|j: int| 0 <= j < i ==> (#[trigger] bats@[j]).read_from(docs@[j]),
        decreases docs@.len() - i,
    {
        match BatterStats::from_record(&docs[i]) {
            Ok(b) => {
                bats.push(b);
            },
            Err(e) => {
                proof {
                    let first = first_bad_batter(docs@);
                    assert(career_error(docs@[i as int], "plateAppearances") is Some);
                    assert(first is Some);
                    assert(first->0 == i) by {
                        if first->0 < i {
                            assert(career_error(docs@[first->0], "plateAppearances") is None);
                        }
                    }
                }
                return Err(e);
            },
        }
        i += 1;
    }
    Ok(bats)
}

/// Where the feed of a game names the first pitcher of one side.
pub open spec fn pitcher_path(side: &str) -> Seq<Step> {
    seq![
        Step::Key("liveData"),
        Step::Key("boxscore"),
        Step::Key("teams"),
        Step::Key(side),
        Step::Key("pitchers"),
        Step::Index(0),
    ]
}

/// Where the feed of a game lists the batting order of one side.
pub open spec fn order_path(side: &str) -> Seq<Step> {
    seq![
        Step::Key("liveData"),
        Step::Key("boxscore"),
        Step::Key("teams"),
        Step::Key(side),
        Step::Key("battingOrder"),
    ]
}

/// Where the feed of a game abbreviates the name of one side.
pub open spec fn abbreviation_path(side: &str) -> Seq<Step> {
    seq![Step::Key("gameData"), Step::Key("teams"), Step::Key(side), Step::Key("abbreviation")]
}

/// A side's line-up counts as posted once the feed names its first
/// pitcher.
pub open spec fn has_lineup(data: Json, side: &str) -> bool {
    !data.null_at(pitcher_path(side))
}

/// The players of one side whose records have to be asked for.
#[derive(Debug)]
pub struct Lineup {
    pub pitcher_id: String,
    pub batter_ids: Vec<String>,
}

impl Lineup {
    /// The line-up names the players that the feed names for the side: its
    /// first pitcher, and its batting order where the feed lists one.
    pub open spec fn read_from(self, data: Json, side: &str) -> bool {
        &&& self.pitcher_id@ == unquoted(data.text_at(pitcher_path(side)))
        &&& match data.elements_at(order_path(side)) {
            Some(order) => {
                &&& self.batter_ids@.len() == order.len()
                &&& forall|i: int|
                    0 <= i < order.len() ==> (#[trigger] self.batter_ids@[i])@ == unquoted(
                        order[i].text@,
                    )
            },
            None => self.batter_ids@.len() == 0,
        }
    }
}

/// Reads from the feed of a game which players one side sends out; none
/// while its line-up is not posted.
pub fn lineup(data: &Json, side: &str) -> (result: Option<Lineup>)
    ensures
        result is Some == has_lineup(*data, side),
        result is Some ==> result->0.read_from(*data, side),
{
    let first = [
        Step::Key("liveData"),
        Step::Key("boxscore"),
        Step::Key("teams"),
        Step::Key(side),
        Step::Key("pitchers"),
        Step::Index(0),
    ];
    assert(first@ =~= pitcher_path(side));
    if data.is_null_at(first.as_slice()) {
        return None;
    }
    let pitcher_id = strip_quotes(data.text_of(first.as_slice()).as_str());
    let order_steps = [
        Step::Key("liveData"),
        Step::Key("boxscore"),
        Step::Key("teams"),
        Step::Key(side),
        Step::Key("battingOrder"),
    ];
    assert(order_steps@ =~= order_path(side));
    let mut batter_ids: Vec<String> = Vec::new();
    if let Some(order) = data.elements_of(order_steps.as_slice()) {
        let mut i: usize = 0;
        while i < order.len()
            invariant
                i <= order@.len(),
                batter_ids@.len() == i,
                forall|j: int|
                    0 <= j < i ==> (#[trigger] batter_ids@[j])@ == unquoted(order@[j].text@),
            decreases order@.len() - i,
        {
            batter_ids.push(value_to_string(&order[i]));
            i += 1;
        }
    }
    Some(Lineup { pitcher_id, batter_ids })
}

/// The records of the players of one side: the first pitcher's, and the
/// batters' in their order.
#[derive(Debug)]
pub struct Roster {
    pub pitcher: Json,
    pub batters: Vec<Json>,
}

/// What keeps a side from being read, if anything does: that the feed
/// lacks its abbreviation, or else the first of its records, the
/// pitcher's before the batters', that cannot be read.
pub open spec fn team_error(data: Json, side: &str, roster: Roster) -> Option<Seq<char>> {
    if data.string_at(abbreviation_path(side)) is None {
        Some(missing_text_message("abbreviation"@))
    } else if career_error(roster.pitcher, "battersFaced") is Some {
        career_error(roster.pitcher, "battersFaced")
    } else {
        match first_bad_batter(roster.batters@) {
            Some(i) => career_error(roster.batters@[i], "plateAppearances"),
            None => None,
        }
    }
}

/// How the reading of one side ends: without a team while the line-up is
/// not posted, with a team, or with a complaint.
pub open spec fn team_outcome(data: Json, side: &str, roster: Roster) -> Result<bool, Seq<char>> {
    if !has_lineup(data, side) {
        Ok(false)
    } else {
        match team_error(data, side, roster) {
            Some(e) => Err(e),
            None => Ok(true),
        }
    }
}

impl Team {
    /// The team says what the feed and the records say of the side.
    pub open spec fn read_from(self, data: Json, side: &str, roster: Roster) -> bool {
        &&& data.string_at(abbreviation_path(side)) == Some(self.name@)
        &&& self.starting_pitcher.read_from(roster.pitcher)
        &&& self.batters@.len() == roster.batters@.len()
        &&& forall|i: int|
            0 <= i < roster.batters@.len() ==> (#[trigger] self.batters@[i]).read_from(
                roster.batters@[i],
            )
    }

    /// Reads one side of a game from the feed and from the records of its
    /// players.
    pub fn read(data: &Json, side: &str, roster: &Roster) -> (result: Result<
        Option<Team>,
        String,
    >)
        ensures
            match team_outcome(*data, side, *roster) {
                Ok(posted) => {
                    &&& result is Ok
                    &&& result->Ok_0 is Some == posted
                    &&& posted ==> result->Ok_0->0.read_from(*data, side, *roster)
                },
                Err(e) => result is Err && result->Err_0@ == e,
            },
    {
        let first = [
            Step::Key("liveData"),
            Step::Key("boxscore"),
            Step::Key("teams"),
            Step::Key(side),
            Step::Key("pitchers"),
            Step::Index(0),
        ];
        assert(first@ =~= pitcher_path(side));
        if data.is_null_at(first.as_slice()) {
            return Ok(None);
        }
        let short = [
            Step::Key("gameData"),
            Step::Key("teams"),
            Step::Key(side),
            Step::Key("abbreviation"),
        ];
        assert(short@ =~= abbreviation_path(side));
        let name = match data.string_of(short.as_slice()) {
            Some(s) => s.to_owned(),
            None => {
                return Err(String::from_str("missing text: ").concat("abbreviation"));
            },
        };
        let starting_pitcher = match PitcherStats::from_record(&roster.pitcher) {
            Ok(p) => p,
            Err(e) => {
                return Err(e);
            },
        };
        let batters = match batter_stats(&roster.batters) {
            Ok(b) => b,
            Err(e) => {
                return Err(e);
            },
        };
        Ok(Some(Team { name, starting_pitcher, batters }))
    }
}

/// Reads both sides of a game, the visitors first. A side whose line-up
/// is not posted is left out; a side that cannot be read ends the reading.
pub fn teams(data: &Json, away: &Roster, home: &Roster) -> (result: Result<
    (Option<Team>, Option<Team>),
    String,
>)
    ensures
        match team_outcome(*data, "away", *away) {
            Err(e) => result is Err && result->Err_0@ == e,
            Ok(away_posted) => match team_outcome(*data, "home", *home) {
                Err(e) => result is Err && result->Err_0@ == e,
                Ok(home_posted) => {
                    &&& result is Ok
                    &&& result->Ok_0.0 is Some == away_posted
                    &&& result->Ok_0.1 is Some == home_posted
                    &&& away_posted ==> result->Ok_0.0->0.read_from(*data, "away", *away)
                    &&& home_posted ==> result->Ok_0.1->0.read_from(*data, "home", *home)
                },
            },
        },
{
    let away_team = match Team::read(data, "away", away) {
        Ok(t) => t,
        Err(e) => {
            return Err(e);
        },
    };
    let home_team = match Team::read(data, "home", home) {
        Ok(t) => t,
        Err(e) => {
            return Err(e);
        },
    };
    Ok((away_team, home_team))
}

/// What is asked of the feed of a game.
pub open spec fn feed_fields() -> Seq<char> {
    "gameData,liveData,boxscore,teams,players,id,abbreviation"@
}

/// What is asked of the record of a batter.
pub open spec fn hitting_career() -> Seq<char> {
    "stats(group=hitting,type=career,sportId=1),currentTeam"@
}

/// What is asked of the record of a pitcher.
pub open spec fn pitching_career() -> Seq<char> {
    "stats(group=pitching,type=career,sportId=1),currentTeam"@
}

/// The query for the feed of a game, cut down to what is read from it.
pub fn game_query<'a>(game_id: &str) -> (api: StatsApi<'a>)
    ensures
        api.path() == "v1.1/game/"@ + game_id@ + "/feed/live"@,
        api.params() == seq![("fields"@, feed_fields())],
        api.wf(),
{
    let api = StatsApi::game(game_id).param(
        "fields",
        "gameData,liveData,boxscore,teams,players,id,abbreviation",
    );
    assert(api.params() =~= seq![("fields"@, feed_fields())]);
    api
}

/// The query for the career of a batter.
pub fn batter_query<'a>(player_id: &str) -> (api: StatsApi<'a>)
    ensures
        api.path() == "v1/people/"@ + player_id@,
        api.params() == seq![("hydrate"@, hitting_career())],
        api.wf(),
{
    let api = StatsApi::player(player_id).param(
        "hydrate",
        "stats(group=hitting,type=career,sportId=1),currentTeam",
    );
    assert(api.params() =~= seq![("hydrate"@, hitting_career())]);
    api
}

/// The query for the career of a pitcher.
pub fn pitcher_query<'a>(player_id: &str) -> (api: StatsApi<'a>)
    ensures
        api.path() == "v1/people/"@ + player_id@,
        api.params() == seq![("hydrate"@, pitching_career())],
        api.wf(),
{
    let api = StatsApi::player(player_id).param(
        "hydrate",
        "stats(group=pitching,type=career,sportId=1),currentTeam",
    );
    assert(api.params() =~= seq![("hydrate"@, pitching_career())]);
    api
}

} // verus!
