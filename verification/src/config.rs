//! The settings of a run: the day whose games are predicted.

use vstd::prelude::*;
use chrono::NaiveDate;

verus! {

/// The settings of a run.
#[derive(Debug)]
pub struct Config {
    /// The day whose games are predicted.
    pub date: String,
    pub verbose: bool,
}

/// The calendar date that `text` spells as year, month and day with
/// hyphens between them, written out again in the same form with every
/// digit of it in place; none where `text` spells no date.
pub uninterp spec fn iso_date(text: Seq<char>) -> Option<Seq<char>>;

/// Reads a date with `NaiveDate::parse_from_str` under the format `%F` and
/// writes it with the date's `Display`: the result is the date named by
/// `iso_date`, and there is none exactly where the text does not parse.
#[verifier::external_body]
fn read_iso_date(datestr: &str) -> (date: Option<String>)
    ensures
        match date {
            Some(d) => iso_date(datestr@) == Some(d@),
            None => iso_date(datestr@) is None,
        },
{
    match NaiveDate::parse_from_str(datestr, "%F") {
        Ok(v) => Some(v.to_string()),
        Err(_) => None,
    }
}

/// Today's date on this machine's clock and in its time zone, from
/// `Local::now`, written as month, day and year with slashes between.
/// Nothing is claimed of it.
#[verifier::external_body]
fn local_today() -> (date: String) {
    chrono::offset::Local::now().format("%m/%d/%Y").to_string()
}

/// What is answered to a text that spells no date.
pub open spec fn invalid_date_message(datestr: Seq<char>) -> Seq<char> {
    "Invalid date: "@ + datestr
}

/// The date that was read from `datestr`, or the complaint that there was
/// none.
pub fn checked_date(datestr: &str, parsed: Option<String>) -> (result: Result<String, String>)
    ensures
        match parsed {
            Some(d) => result == Ok::<String, String>(d),
            None => result is Err && result->Err_0@ == invalid_date_message(datestr@),
        },
{
    match parsed {
        Some(d) => Ok(d),
        None => {
            let mut msg = String::from_str("Invalid date: ");
            msg.append(datestr);
            Err(msg)
        },
    }
}

/// Reads a date given as year, month and day and returns it in that form.
pub fn parse_date(datestr: &str) -> (result: Result<String, String>)
    ensures
        match iso_date(datestr@) {
            Some(d) => result is Ok && result->Ok_0@ == d,
            None => result is Err && result->Err_0@ == invalid_date_message(datestr@),
        },
{
    checked_date(datestr, read_iso_date(datestr))
}

impl Config {
    /// The settings for a day that was asked for, or for `today` when none
    /// was. A day that was asked for has to be a date.
    pub fn dated(date: Option<String>, today: String, verbose: bool) -> (result: Result<
        Config,
        String,
    >)
        ensures
            match date {
                Some(s) => match iso_date(s@) {
                    Some(d) => result is Ok && result->Ok_0.date@ == d && result->Ok_0.verbose
                        == verbose,
                    None => result is Err && result->Err_0@ == invalid_date_message(s@),
                },
                None => result is Ok && result->Ok_0.date == today && result->Ok_0.verbose
                    == verbose,
            },
    {
        let date = match date {
            Some(s) => match parse_date(s.as_str()) {
                Ok(d) => d,
                Err(e) => {
                    return Err(e);
                },
            },
            None => today,
        };
        Ok(Config { date, verbose })
    }

    /// The settings of a run from what the command line gave: the day, if
    /// one was named, and whether to be verbose. Without a day the run is
    /// for today.
    pub fn get(date: Option<String>, verbose: bool) -> (result: Result<Config, String>)
        ensures
            match date {
                Some(s) => match iso_date(s@) {
                    Some(d) => result is Ok && result->Ok_0.date@ == d && result->Ok_0.verbose
                        == verbose,
                    None => result is Err && result->Err_0@ == invalid_date_message(s@),
                },
                None => result is Ok && result->Ok_0.verbose == verbose,
            },
    {
        match date {
            Some(s) => Config::dated(Some(s), String::new(), verbose),
            None => Config::dated(None, local_today(), verbose),
        }
    }
}

} // verus!
