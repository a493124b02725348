//! Calendar dates without a time of day.

use crate::error::{Error, ErrorKind, ErrorView};
use crate::text::joined;
use chrono::Datelike;
use vstd::prelude::*;

verus! {

/// A day of the proleptic Gregorian calendar.
#[derive(Clone, Copy, Debug, PartialEq, Eq, Structural)]
pub struct Date {
    pub year: i32,
    pub month: u32,
    pub day: u32,
}

/// Whether a year has a 29th of February.
pub open spec fn is_leap_year(year: int) -> bool {
    year % 4 == 0 && (year % 100 != 0 || year % 400 == 0)
}

/// The number of days of a month, or 0 where `month` is not in 1..=12.
pub open spec fn days_in_month(year: int, month: int) -> int {
    if month == 1 || month == 3 || month == 5 || month == 7 || month == 8 || month == 10 || month
        == 12 {
        31
    } else if month == 4 || month == 6 || month == 9 || month == 11 {
        30
    } else if month == 2 {
        if is_leap_year(year) {
            29
        } else {
            28
        }
    } else {
        0
    }
}

/// Whether year, month and day name a day that exists.
pub open spec fn is_calendar_day(year: int, month: int, day: int) -> bool {
    1 <= month <= 12 && 1 <= day <= days_in_month(year, month)
}

/// The year, month and day that `chrono::NaiveDate::parse_from_str` reads
/// from a text under the format `%Y-%m-%d`, or `None` where it rejects the
/// text.
pub uninterp spec fn ymd_text_value(s: Seq<char>) -> Option<(i32, u32, u32)>;

/// Calls `chrono::NaiveDate::parse_from_str` with the format `%Y-%m-%d` and
/// takes the date apart with `Datelike`'s `year`, `month` and `day`. The
/// contract claims only that the outcome is a function of the text: it gives
/// that function its name. That the parts name an existing day is checked by
/// the caller, not claimed here.
#[verifier::external_body]
fn chrono_parse_ymd(s: &str) -> (r: Option<(i32, u32, u32)>)
    ensures
        r == ymd_text_value(s@),
{
    match chrono::NaiveDate::parse_from_str(s, "%Y-%m-%d") {
        Ok(d) => Some((d.year(), d.month(), d.day())),
        Err(_) => None,
    }
}

fn leap(year: i32) -> (b: bool)
    ensures
        b == is_leap_year(year as int),
{
    year % 4 == 0 && (year % 100 != 0 || year % 400 == 0)
}

fn month_length(year: i32, month: u32) -> (n: u32)
    ensures
        n == days_in_month(year as int, month as int),
{
    if month == 1 || month == 3 || month == 5 || month == 7 || month == 8 || month == 10 || month
        == 12 {
        31
    } else if month == 4 || month == 6 || month == 9 || month == 11 {
        30
    } else if month == 2 {
        if leap(year) {
            29
        } else {
            28
        }
    } else {
        0
    }
}

impl Date {
    /// Whether the date names a day that exists.
    pub open spec fn wf(self) -> bool {
        is_calendar_day(self.year as int, self.month as int, self.day as int)
    }

    /// The date with the given parts, where such a day exists.
    pub fn new(year: i32, month: u32, day: u32) -> (r: Option<Date>)
        ensures
            is_calendar_day(year as int, month as int, day as int) ==> r == Some(
                Date { year, month, day },
            ),
            !is_calendar_day(year as int, month as int, day as int) ==> r is None,
    {
        if 1 <= month && month <= 12 && 1 <= day && day <= month_length(year, month) {
            Some(Date { year, month, day })
        } else {
            None
        }
    }
}

/// The failure reported for a text that is no date.
pub open spec fn invalid_date(s: Seq<char>) -> ErrorView {
    ErrorView { kind: ErrorKind::Validation, message: "Invalid date "@ + s }
}

/// What [`parse_date`] returns for a text, given what the date reader made of
/// it: the date, where the reader accepted the text and the day exists.
pub open spec fn date_or_invalid(s: Seq<char>, parsed: Option<(i32, u32, u32)>) -> Result<
    Date,
    ErrorView,
> {
    match parsed {
        Some((year, month, day)) => if is_calendar_day(year as int, month as int, day as int) {
            Ok(Date { year, month, day })
        } else {
            Err(invalid_date(s))
        },
        None => Err(invalid_date(s)),
    }
}

/// Turns the date reader's outcome for `s` into a date or a validation
/// failure that quotes `s`.
pub fn date_from_parts(s: &str, parsed: Option<(i32, u32, u32)>) -> (r: Result<Date, Error>)
    ensures
        match date_or_invalid(s@, parsed) {
            Ok(d) => r == Ok::<Date, Error>(d) && d.wf(),
            Err(e) => r is Err && r->Err_0@ == e,
        },
{
    match parsed {
        Some((year, month, day)) => match Date::new(year, month, day) {
            Some(d) => Ok(d),
            None => Err(Error::validation(joined("Invalid date ", s))),
        },
        None => Err(Error::validation(joined("Invalid date ", s))),
    }
}

/// Reads a date written as year, month and day with hyphens between them,
/// such as `2025-12-01`. Fails with a validation error where the text is
/// malformed or names no day.
pub fn parse_date(s: &str) -> (r: Result<Date, Error>)
    ensures
        match date_or_invalid(s@, ymd_text_value(s@)) {
            Ok(d) => r == Ok::<Date, Error>(d) && d.wf(),
            Err(e) => r is Err && r->Err_0@ == e,
        },
{
    date_from_parts(s, chrono_parse_ymd(s))
}

} // verus!
