//! Calendar dates as day numbers of the proleptic Gregorian calendar.

use chrono::Datelike;
use vstd::prelude::*;

verus! {

/// Day number of the earliest date `chrono::NaiveDate` can hold (1 January of year -262143).
pub const FIRST_DAY: i32 = -95_746_129;

/// Day number of the latest date `chrono::NaiveDate` can hold (31 December of year 262142).
pub const LAST_DAY: i32 = 95_745_399;

/// What `chrono::NaiveDate::from_ymd_opt` gives for a year, a month and a day
/// of the month, as a day number (`None` where the calendar has no such day).
pub uninterp spec fn civil_day(year: int, month: int, day: int) -> Option<int>;

/// What `chrono::NaiveDate::parse_from_str` reads from a text under a pattern,
/// as a day number (`None` where the text does not parse).
pub uninterp spec fn parsed_day(text: Seq<char>, pattern: Seq<char>) -> Option<int>;

/// What `chrono::NaiveDate::format` writes for a day number under a pattern.
pub uninterp spec fn formatted_day(day: int, pattern: Seq<char>) -> Seq<char>;

/// The pattern of a date inside a page address: year, month and day, with slashes.
pub const PATH_PATTERN: &'static str = "%Y/%m/%d";

/// The pattern of a date in the output table: year, month and day, with hyphens.
pub const ISO_PATTERN: &'static str = "%Y-%m-%d";

/// The two patterns this library formats dates with.
pub open spec fn is_output_pattern(pattern: Seq<char>) -> bool {
    pattern == PATH_PATTERN@ || pattern == ISO_PATTERN@
}

/// Calls `chrono::NaiveDate::from_ymd_opt` and hands back the date's day
/// number, taken with `Datelike::num_days_from_ce`. Trusted: the result is
/// `civil_day` of the arguments, and a day number that comes back lies
/// between `FIRST_DAY` and `LAST_DAY`.
#[verifier::external_body]
fn day_from_ymd(year: i32, month: u32, day: u32) -> (found: Option<i32>)
    ensures
        match found {
            Some(n) => civil_day(year as int, month as int, day as int) == Some(n as int)
                && FIRST_DAY <= n <= LAST_DAY,
            None => civil_day(year as int, month as int, day as int) is None,
        },
{
    chrono::NaiveDate::from_ymd_opt(year, month, day).map(|date| date.num_days_from_ce())
}

/// Calls `chrono::NaiveDate::parse_from_str` and hands back the date's day
/// number, taken with `Datelike::num_days_from_ce`. Trusted: the result is
/// `parsed_day` of the arguments, and a day number that comes back lies
/// between `FIRST_DAY` and `LAST_DAY`.
#[verifier::external_body]
fn day_from_text(text: &str, pattern: &str) -> (found: Option<i32>)
    ensures
        match found {
            Some(n) => parsed_day(text@, pattern@) == Some(n as int) && FIRST_DAY <= n <= LAST_DAY,
            None => parsed_day(text@, pattern@) is None,
        },
{
    match chrono::NaiveDate::parse_from_str(text, pattern) {
        Ok(date) => Some(date.num_days_from_ce()),
        Err(_) => None,
    }
}

/// Calls `chrono::NaiveDate::from_num_days_from_ce_opt`, which holds every day
/// from `FIRST_DAY` to `LAST_DAY`, and `chrono::NaiveDate::format`, whose
/// output is turned into a `String`. Trusted: the result is `formatted_day` of
/// the arguments. Formatting fails on a malformed pattern, so only the two
/// output patterns are admitted.
#[verifier::external_body]
fn text_from_day(day: i32, pattern: &str) -> (text: String)
    requires
        FIRST_DAY <= day <= LAST_DAY,
        is_output_pattern(pattern@),
    ensures
        text@ == formatted_day(day as int, pattern@),
{
    chrono::NaiveDate::from_num_days_from_ce_opt(day).unwrap().format(pattern).to_string()
}

/// A calendar date, held as its day number: 1 January of year 1 is day 1.
#[derive(Clone, Copy, Debug, PartialEq, Eq, Structural, PartialOrd, Ord, Hash)]
pub struct Date {
    days: i32,
}

impl View for Date {
    type V = int;

    closed spec fn view(&self) -> int {
        self.days as int
    }
}

/// The day number of a date that may be absent.
pub open spec fn day_number_of(date: Option<Date>) -> Option<int> {
    match date {
        Some(d) => Some(d@),
        None => None,
    }
}

impl Date {
    #[verifier::type_invariant]
    pub open spec fn in_calendar(self) -> bool {
        FIRST_DAY <= self@ <= LAST_DAY
    }

    /// The date with the given day number, if the calendar holds it.
    pub fn from_days(days: i32) -> (date: Option<Date>)
        ensures
            date is Some <==> FIRST_DAY <= days <= LAST_DAY,
            date is Some ==> date->0@ == days,
    {
        if FIRST_DAY <= days && days <= LAST_DAY {
            Some(Date { days })
        } else {
            None
        }
    }

    /// The date of a year, a month and a day of the month.
    pub fn from_ymd(year: i32, month: u32, day: u32) -> (date: Option<Date>)
        ensures
            day_number_of(date) == civil_day(year as int, month as int, day as int),
    {
        match day_from_ymd(year, month, day) {
            Some(days) => Some(Date { days }),
            None => None,
        }
    }

    /// Reads a date from a text under a `strftime` pattern.
    pub fn parse(text: &str, pattern: &str) -> (date: Option<Date>)
        ensures
            day_number_of(date) == parsed_day(text@, pattern@),
    {
        match day_from_text(text, pattern) {
            Some(days) => Some(Date { days }),
            None => None,
        }
    }

    /// The date as year, month and day with hyphens between them.
    pub fn to_iso_string(self) -> (text: String)
        ensures
            text@ == formatted_day(self@, ISO_PATTERN@),
    {
        proof {
            use_type_invariant(&self);
        }
        text_from_day(self.days, ISO_PATTERN)
    }

    /// The date as year, month and day with slashes between them.
    pub fn to_path_string(self) -> (text: String)
        ensures
            text@ == formatted_day(self@, PATH_PATTERN@),
    {
        proof {
            use_type_invariant(&self);
        }
        text_from_day(self.days, PATH_PATTERN)
    }

    /// The date `count` days after this one, if the calendar holds it.
    pub fn plus_days(self, count: u32) -> (later: Option<Date>)
        ensures
            later is Some <==> self@ + count <= LAST_DAY,
            later is Some ==> later->0@ == self@ + count,
    {
        proof {
            use_type_invariant(&self);
        }
        if count <= i32::MAX as u32 && self.days <= LAST_DAY - (count as i32) {
            Some(Date { days: self.days + (count as i32) })
        } else {
            None
        }
    }

    /// The day number of this date.
    pub fn days(self) -> (days: i32)
        ensures
            days == self@,
            FIRST_DAY <= days <= LAST_DAY,
    {
        proof {
            use_type_invariant(&self);
        }
        self.days
    }
}

} // verus!
