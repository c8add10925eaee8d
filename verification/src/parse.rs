//! Parsing of free-form date/time text with chrono's strftime-style
//! format strings, tried in a fixed priority order: full date-time, then
//! date-only (combined with midnight), then time-only (combined with the
//! current local calendar date).

use vstd::prelude::*;

use chrono::{Datelike, Timelike};

use crate::civil::{CivilDate, CivilDateTime, CivilTime};

verus! {

/// The outcome of chrono's `NaiveDateTime::parse_from_str` on an input
/// and a format string, as a (year, month, day, hour, minute, second)
/// tuple; the outcome is a function of the two strings alone.
pub uninterp spec fn chrono_datetime_parse(s: Seq<char>, fmt: Seq<char>) -> Option<
    (int, int, int, int, int, int),
>;

/// The outcome of chrono's `NaiveDate::parse_from_str` on an input and a
/// format string, as a (year, month, day) tuple.
pub uninterp spec fn chrono_date_parse(s: Seq<char>, fmt: Seq<char>) -> Option<(int, int, int)>;

/// The outcome of chrono's `NaiveTime::parse_from_str` on an input and a
/// format string, as an (hour, minute, second) tuple.
pub uninterp spec fn chrono_time_parse(s: Seq<char>, fmt: Seq<char>) -> Option<(int, int, int)>;

#[verifier::external_type_specification]
#[verifier::external_body]
pub struct ExParseError(chrono::ParseError);

/// Relies on chrono's `NaiveDateTime::parse_from_str`, whose outcome
/// depends on the two strings alone, and on the `Datelike`/`Timelike`
/// accessors, whose results chrono documents to be a valid calendar date
/// (year within ±262143) and clock time (hour 0-23, minute/second 0-59).
#[verifier::external_body]
fn parse_datetime_with(s: &str, fmt: &str) -> (r: Result<CivilDateTime, chrono::ParseError>)
    ensures
        match r {
            Ok(dt) => dt.wf() && chrono_datetime_parse(s@, fmt@) == Some(dt.as_tuple6()),
            Err(_) => chrono_datetime_parse(s@, fmt@) is None,
        },
{
    match chrono::NaiveDateTime::parse_from_str(s, fmt) {
        Ok(dt) => Ok(CivilDateTime {
            date: CivilDate { year: dt.year(), month: dt.month() as u8, day: dt.day() as u8 },
            time: CivilTime {
                hour: dt.hour() as u8,
                minute: dt.minute() as u8,
                second: dt.second() as u8,
            },
        }),
        Err(e) => Err(e),
    }
}

/// Relies on chrono's `NaiveDate::parse_from_str`, whose outcome depends
/// on the two strings alone, and on the `Datelike` accessors, whose
/// results chrono documents to be a valid calendar date.
#[verifier::external_body]
fn parse_date_with(s: &str, fmt: &str) -> (r: Result<CivilDate, chrono::ParseError>)
    ensures
        match r {
            Ok(d) => d.wf() && chrono_date_parse(s@, fmt@) == Some(d.as_tuple()),
            Err(_) => chrono_date_parse(s@, fmt@) is None,
        },
{
    match chrono::NaiveDate::parse_from_str(s, fmt) {
        Ok(d) => Ok(CivilDate { year: d.year(), month: d.month() as u8, day: d.day() as u8 }),
        Err(e) => Err(e),
    }
}

/// Relies on chrono's `NaiveTime::parse_from_str`, whose outcome depends
/// on the two strings alone, and on the `Timelike` accessors, whose
/// results chrono documents to be a valid clock time.
#[verifier::external_body]
fn parse_time_with(s: &str, fmt: &str) -> (r: Result<CivilTime, chrono::ParseError>)
    ensures
        match r {
            Ok(t) => t.wf() && chrono_time_parse(s@, fmt@) == Some(t.as_tuple()),
            Err(_) => chrono_time_parse(s@, fmt@) is None,
        },
{
    match chrono::NaiveTime::parse_from_str(s, fmt) {
        Ok(t) => Ok(CivilTime {
            hour: t.hour() as u8,
            minute: t.minute() as u8,
            second: t.second() as u8,
        }),
        Err(e) => Err(e),
    }
}

/// Relies on chrono's `Local::now` and `date_naive`: whatever instant
/// and time zone the machine reports, the fields form a valid calendar
/// date.
#[verifier::external_body]
fn today_local() -> (r: CivilDate)
    ensures
        r.wf(),
{
    let today = chrono::Local::now().date_naive();
    CivilDate { year: today.year(), month: today.month() as u8, day: today.day() as u8 }
}

/// Relies on the `Display` implementation of chrono's `ParseError` to
/// render the parse failure as text.
#[verifier::external_body]
fn parse_error_text(e: &chrono::ParseError) -> (r: String) {
    format!("{}", e)
}

/// Tries the three format strings against the input in fixed priority
/// order — full date-time, date-only (combined with midnight), time-only
/// (combined with the given `today`) — and returns the first success; if
/// all three attempts fail, the error of the last (time-only) attempt is
/// returned, rendered as text.
pub fn resolve_naive_datetime_with_today(
    input: &str,
    datetime_format: &str,
    date_format: &str,
    time_format: &str,
    today: CivilDate,
) -> (r: Result<CivilDateTime, String>)
    requires
        today.wf(),
    ensures
        match chrono_datetime_parse(input@, datetime_format@) {
            Some(t6) => r matches Ok(dt) && dt.as_tuple6() == t6 && dt.wf(),
            None => match chrono_date_parse(input@, date_format@) {
                Some(t3) => r matches Ok(dt) && dt.date.as_tuple() == t3 && dt.time
                    == CivilTime::midnight() && dt.wf(),
                None => match chrono_time_parse(input@, time_format@) {
                    Some(t3) => r matches Ok(dt) && dt.time.as_tuple() == t3 && dt.date == today
                        && dt.wf(),
                    None => r is Err,
                },
            },
        },
{
    match parse_datetime_with(input, datetime_format) {
        Ok(dt) => {
            return Ok(dt);
        },
        Err(_) => {},
    }
    match parse_date_with(input, date_format) {
        Ok(d) => {
            return Ok(CivilDateTime::from_date(d));
        },
        Err(_) => {},
    }
    match parse_time_with(input, time_format) {
        Ok(t) => Ok(CivilDateTime { date: today, time: t }),
        Err(e) => Err(parse_error_text(&e)),
    }
}

/// As `resolve_naive_datetime_with_today`, with `today` taken from the
/// machine's clock and local time zone; a time-only input is therefore
/// combined with some valid calendar date that the contract leaves open.
pub fn resolve_naive_datetime(
    input: &str,
    datetime_format: &str,
    date_format: &str,
    time_format: &str,
) -> (r: Result<CivilDateTime, String>)
    ensures
        match chrono_datetime_parse(input@, datetime_format@) {
            Some(t6) => r matches Ok(dt) && dt.as_tuple6() == t6 && dt.wf(),
            None => match chrono_date_parse(input@, date_format@) {
                Some(t3) => r matches Ok(dt) && dt.date.as_tuple() == t3 && dt.time
                    == CivilTime::midnight() && dt.wf(),
                None => match chrono_time_parse(input@, time_format@) {
                    Some(t3) => r matches Ok(dt) && dt.time.as_tuple() == t3 && dt.wf(),
                    None => r is Err,
                },
            },
        },
{
    let today = today_local();
    resolve_naive_datetime_with_today(input, datetime_format, date_format, time_format, today)
}

} // verus!
