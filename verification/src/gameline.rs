//! The line that reports on one game: the two teams and, between them,
//! how far the prediction has come or what it says.

use vstd::prelude::*;
use crate::mlbstats::Game;

verus! {

/// Boxes that show the chances of one side.
pub const BOXES_PER_TEAM: i32 = 10;

/// The width to which a status is centred.
pub const STATUS_WIDTH: usize = 21;

/// The width to which the visitors' name is set to the right.
pub const NAME_WIDTH: usize = 25;

/// The colours of a terminal.
#[derive(Clone, Copy, Debug, PartialEq, Eq, Structural)]
pub enum TTYColor {
    Black,
    Red,
    Green,
    Yellow,
    Blue,
    Cyan,
    White,
}

impl TTYColor {
    /// The digits by which a terminal is told the colour.
    pub open spec fn spec_code(self) -> Seq<char> {
        match self {
            TTYColor::Black => "30"@,
            TTYColor::Red => "31"@,
            TTYColor::Green => "32"@,
            TTYColor::Yellow => "33"@,
            TTYColor::Blue => "34"@,
            TTYColor::Cyan => "36"@,
            TTYColor::White => "37"@,
        }
    }

    pub fn code(self) -> (digits: &'static str)
        ensures
            digits@ == self.spec_code(),
    {
        match self {
            TTYColor::Black => "30",
            TTYColor::Red => "31",
            TTYColor::Green => "32",
            TTYColor::Yellow => "33",
            TTYColor::Blue => "34",
            TTYColor::Cyan => "36",
            TTYColor::White => "37",
        }
    }
}

/// The text in bold.
pub open spec fn spec_bold(msg: Seq<char>) -> Seq<char> {
    "\x1B[1m"@ + msg + "\x1B[0m"@
}

/// The text in a colour.
pub open spec fn spec_colored_msg(color: TTYColor, msg: Seq<char>) -> Seq<char> {
    "\x1B["@ + color.spec_code() + "m"@ + msg + "\x1B[0m"@
}

pub fn bold(msg: &String) -> (text: String)
    ensures
        text@ == spec_bold(msg@),
{
    let mut text = String::from_str("\x1B[1m");
    text.append(msg.as_str());
    text.append("\x1B[0m");
    text
}

pub fn colored_msg(color: TTYColor, msg: &String) -> (text: String)
    ensures
        text@ == spec_colored_msg(color, msg@),
{
    let mut text = String::from_str("\x1B[");
    text.append(color.code());
    text.append("m");
    text.append(msg.as_str());
    text.append("\x1B[0m");
    text
}

/// A row of `n` times the same character.
pub open spec fn row(c: char, n: int) -> Seq<char> {
    Seq::new(
        if n >= 0 {
            n as nat
        } else {
            0
        },
        |i: int| c,
    )
}

/// Appends a row of empty boxes; a count below nought stands for none.
fn push_empty(line: &mut String, n: i64)
    ensures
        final(line)@ == old(line)@ + row('□', n as int),
{
    let mut i: i64 = 0;
    assert(line@ =~= old(line)@ + row('□', 0));
    while i < n
        invariant
            0 <= i,
            i <= n || i == 0,
            line@ == old(line)@ + row('□', i as int),
        decreases n - i,
    {
        proof {
            reveal_strlit("□");
            assert("□"@ =~= seq!['□']);
            assert(old(line)@ + row('□', i as int) + seq!['□'] =~= old(line)@ + row(
                '□',
                i + 1,
            ));
        }
        line.append("□");
        i += 1;
    }
    assert(row('□', i as int) =~= row('□', n as int));
}

/// Appends a row of full boxes; a count below nought stands for none.
fn push_full(line: &mut String, n: i32)
    ensures
        final(line)@ == old(line)@ + row('■', n as int),
{
    let mut i: i32 = 0;
    assert(line@ =~= old(line)@ + row('■', 0));
    while i < n
        invariant
            0 <= i,
            i <= n || i == 0,
            line@ == old(line)@ + row('■', i as int),
        decreases n - i,
    {
        proof {
            reveal_strlit("■");
            assert("■"@ =~= seq!['■']);
            assert(old(line)@ + row('■', i as int) + seq!['■'] =~= old(line)@ + row(
                '■',
                i + 1,
            ));
        }
        line.append("■");
        i += 1;
    }
    assert(row('■', i as int) =~= row('■', n as int));
}

/// Appends a row of spaces.
fn push_spaces(line: &mut String, n: usize)
    ensures
        final(line)@ == old(line)@ + row(' ', n as int),
{
    let mut i: usize = 0;
    assert(line@ =~= old(line)@ + row(' ', 0));
    while i < n
        invariant
            i <= n,
            line@ == old(line)@ + row(' ', i as int),
        decreases n - i,
    {
        proof {
            reveal_strlit(" ");
            assert(" "@ =~= seq![' ']);
            assert(old(line)@ + row(' ', i as int) + seq![' '] =~= old(line)@ + row(' ', i + 1));
        }
        line.append(" ");
        i += 1;
    }
}

/// The text in the middle of a field of `width` characters; of an odd
/// number of spaces the greater part stands behind it. A text that fills
/// the field stands as it is.
pub open spec fn centered(text: Seq<char>, width: int) -> Seq<char> {
    if text.len() >= width {
        text
    } else {
        row(' ', (width - text.len()) / 2) + text + row(
            ' ',
            (width - text.len()) - (width - text.len()) / 2,
        )
    }
}

/// The text at the right of a field of `width` characters. A text that
/// fills the field stands as it is.
pub open spec fn right_aligned(text: Seq<char>, width: int) -> Seq<char> {
    if text.len() >= width {
        text
    } else {
        row(' ', width - text.len()) + text
    }
}

/// The chances of both sides as a line shows them: how many of the ten
/// boxes of each side are full, and in which colour.
#[derive(Clone, Copy, Debug, PartialEq, Eq, Structural)]
pub struct Chances {
    pub away_full: i32,
    pub away_color: TTYColor,
    pub home_full: i32,
    pub home_color: TTYColor,
}

/// The two rows of boxes of a prediction: the visitors' from the middle
/// to the left, the home side's from the middle to the right, each filled
/// up to ten with empty boxes, and the full boxes in their colour.
pub open spec fn prediction_line(chances: Chances) -> Seq<char> {
    row('□', BOXES_PER_TEAM - chances.away_full) + spec_colored_msg(
        chances.away_color,
        row('■', chances.away_full as int),
    ) + seq![' '] + spec_colored_msg(
        chances.home_color,
        row('■', chances.home_full as int),
    ) + row('□', BOXES_PER_TEAM - chances.home_full)
}

/// The report on one game.
#[derive(Debug)]
pub struct GameLine<'a> {
    pub game: &'a Game,
    pub status: Option<String>,
    pub color: Option<TTYColor>,
}

impl<'a> GameLine<'a> {
    /// The line shows `label` in `color`.
    pub open spec fn shows(self, label: Seq<char>, color: Option<TTYColor>) -> bool {
        self.status is Some && self.status->0@ == label && self.color == color
    }

    /// The status as it is written between the names: in its colour, bold
    /// and centred; a status without a colour as it is; and `UNKNOWN`
    /// where there is none.
    pub open spec fn status_text(self) -> Seq<char> {
        let status = match self.status {
            Some(s) => s@,
            None => "UNKNOWN"@,
        };
        match self.color {
            Some(color) => spec_colored_msg(
                color,
                spec_bold(centered(status, STATUS_WIDTH as int)),
            ),
            None => status,
        }
    }

    /// The whole line: the visitors, the status, the home side.
    pub open spec fn text(self) -> Seq<char> {
        right_aligned(self.game.away_name@, NAME_WIDTH as int) + seq![' '] + self.status_text()
            + seq![' '] + self.game.home_name@
    }

    pub fn new(game: &'a Game) -> (line: GameLine<'a>)
        ensures
            line.game == game,
            line.status is None,
            line.color is None,
    {
        GameLine { game, status: None, color: None }
    }

    fn set(&mut self, label: &str, color: TTYColor)
        ensures
            final(self).game == old(self).game,
            final(self).shows(label@, Some(color)),
    {
        self.status = Some(String::from_str(label));
        self.color = Some(color);
    }

    pub fn fetching(&mut self)
        ensures
            final(self).game == old(self).game,
            final(self).shows("FETCHING DATA..."@, Some(TTYColor::Black)),
    {
        self.set("FETCHING DATA...", TTYColor::Black);
    }

    pub fn postponed(&mut self)
        ensures
            final(self).game == old(self).game,
            final(self).shows("POSTPONED"@, Some(TTYColor::Blue)),
    {
        self.set("POSTPONED", TTYColor::Blue);
    }

    pub fn frontend_error(&mut self)
        ensures
            final(self).game == old(self).game,
            final(self).shows("FRONTEND ERROR"@, Some(TTYColor::Red)),
    {
        self.set("FRONTEND ERROR", TTYColor::Red);
    }

    pub fn missing_lineups(&mut self)
        ensures
            final(self).game == old(self).game,
            final(self).shows("MISSING LINEUPS"@, Some(TTYColor::Yellow)),
    {
        self.set("MISSING LINEUPS", TTYColor::Yellow);
    }

    pub fn missing_lineup_away(&mut self)
        ensures
            final(self).game == old(self).game,
            final(self).shows("MISSING LINEUP A"@, Some(TTYColor::Yellow)),
    {
        self.set("MISSING LINEUP A", TTYColor::Yellow);
    }

    pub fn missing_lineup_home(&mut self)
        ensures
            final(self).game == old(self).game,
            final(self).shows("MISSING LINEUP H"@, Some(TTYColor::Yellow)),
    {
        self.set("MISSING LINEUP H", TTYColor::Yellow);
    }

    pub fn predicting(&mut self)
        ensures
            final(self).game == old(self).game,
            final(self).shows("PREDICTING..."@, Some(TTYColor::Black)),
    {
        self.set("PREDICTING...", TTYColor::Black);
    }

    pub fn backend_error(&mut self)
        ensures
            final(self).game == old(self).game,
            final(self).shows("BACKEND ERROR"@, Some(TTYColor::Red)),
    {
        self.set("BACKEND ERROR", TTYColor::Red);
    }

    /// Whether the game is put off, so that nothing is predicted.
    pub fn is_postponed(&self) -> (yes: bool)
        ensures
            yes == (self.game.status@ == "Postponed"@),
    {
        crate::text::same_text(self.game.status.as_str(), "Postponed")
    }

    /// Reports which line-ups are still missing, and says whether none
    /// is: only then is the line left as it was.
    pub fn lineups(&mut self, away_posted: bool, home_posted: bool) -> (complete: bool)
        ensures
            complete == (away_posted && home_posted),
            final(self).game == old(self).game,
            complete ==> *final(self) == *old(self),
            !away_posted && !home_posted ==> final(self).shows(
                "MISSING LINEUPS"@,
                Some(TTYColor::Yellow),
            ),
            !away_posted && home_posted ==> final(self).shows(
                "MISSING LINEUP A"@,
                Some(TTYColor::Yellow),
            ),
            away_posted && !home_posted ==> final(self).shows(
                "MISSING LINEUP H"@,
                Some(TTYColor::Yellow),
            ),
    {
        if !away_posted && !home_posted {
            self.missing_lineups();
            false
        } else if !away_posted {
            self.missing_lineup_away();
            false
        } else if !home_posted {
            self.missing_lineup_home();
            false
        } else {
            true
        }
    }

    /// Shows the chances as two rows of boxes, or that there is no
    /// prediction.
    pub fn prediction(&mut self, chances: Option<Chances>)
        ensures
            final(self).game == old(self).game,
            match chances {
                None => final(self).shows("NO PREDICTION"@, Some(TTYColor::Red)),
                Some(c) => final(self).shows(prediction_line(c), None),
            },
    {
        match chances {
            None => {
                self.set("NO PREDICTION", TTYColor::Red);
            },
            Some(c) => {
                let mut line = String::new();
                push_empty(&mut line, BOXES_PER_TEAM as i64 - c.away_full as i64);
                let mut subline = String::new();
                push_full(&mut subline, c.away_full);
                line.append(colored_msg(c.away_color, &subline).as_str());

                line.append(" ");

                let mut subline = String::new();
                push_full(&mut subline, c.home_full);
                line.append(colored_msg(c.home_color, &subline).as_str());
                push_empty(&mut line, BOXES_PER_TEAM as i64 - c.home_full as i64);

                proof {
                    reveal_strlit(" ");
                    assert(" "@ =~= seq![' ']);
                    assert(line@ =~= prediction_line(c));
                }
                self.color = None;
                self.status = Some(line);
            },
        }
    }

    /// Writes out the line.
    pub fn render(&self) -> (line: String)
        ensures
            line@ == self.text(),
    {
        let status = match &self.status {
            Some(s) => s.clone(),
            None => String::from_str("UNKNOWN"),
        };
        let status = match self.color {
            Some(color) => {
                let len: usize = status.as_str().unicode_len();
                let mut field = String::new();
                if len < STATUS_WIDTH {
                    let before: usize = (STATUS_WIDTH - len) / 2;
                    push_spaces(&mut field, before);
                    field.append(status.as_str());
                    push_spaces(&mut field, STATUS_WIDTH - len - before);
                } else {
                    field.append(status.as_str());
                }
                assert(field@ =~= centered(status@, STATUS_WIDTH as int));
                colored_msg(color, &bold(&field))
            },
            None => status,
        };
        let mut line = String::new();
        let len: usize = self.game.away_name.as_str().unicode_len();
        if len < NAME_WIDTH {
            push_spaces(&mut line, NAME_WIDTH - len);
        }
        line.append(self.game.away_name.as_str());
        assert(line@ =~= right_aligned(self.game.away_name@, NAME_WIDTH as int));
        line.append(" ");
        line.append(status.as_str());
        line.append(" ");
        line.append(self.game.home_name.as_str());
        proof {
            reveal_strlit(" ");
            assert(" "@ =~= seq![' ']);
        }
        line
    }
}

} // verus!
