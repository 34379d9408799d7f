//! Calendar dates and instants as plain values.

use chrono::Datelike;
use vstd::prelude::*;

verus! {

/// A calendar date: a year, a month from 1 to 12 and a day of that month.
/// The ledger carries dates as it is given them.
#[derive(Clone, Copy, Debug, PartialEq, Eq, Structural)]
pub struct CalendarDate {
    pub year: i32,
    pub month: u32,
    pub day: u32,
}

/// An instant, in microseconds since the start of 1970, as the store's
/// clock gave it.
pub type Timestamp = i64;

/// The year, month and day that a text in the form year-month-day stands
/// for, where it stands for a date.
pub uninterp spec fn ymd_of_text(text: Seq<char>) -> Option<(i32, u32, u32)>;

/// The text of the date of a year, month and day, where there is such a
/// date.
pub uninterp spec fn text_of_ymd(year: i32, month: u32, day: u32) -> Option<Seq<char>>;

/// Parses a date with `chrono::NaiveDate::parse_from_str` and the format
/// `%Y-%m-%d`, and hands out the year, month and day of the date as
/// `chrono::Datelike` gives them. The contract only names the answer.
#[verifier::external_body]
fn parse_ymd(text: &str) -> (r: Option<(i32, u32, u32)>)
    ensures
        r == ymd_of_text(text@),
{
    match chrono::NaiveDate::parse_from_str(text, "%Y-%m-%d") {
        Ok(date) => Some((date.year(), date.month(), date.day())),
        Err(_) => None,
    }
}

/// Makes the date with `chrono::NaiveDate::from_ymd_opt`, which gives none
/// where no such date exists, and formats it with the date's `Display`.
/// The contract only names the answer.
#[verifier::external_body]
fn format_ymd(year: i32, month: u32, day: u32) -> (r: Option<String>)
    ensures
        match r {
            Some(text) => text_of_ymd(year, month, day) == Some(text@),
            None => text_of_ymd(year, month, day) is None,
        },
{
    match chrono::NaiveDate::from_ymd_opt(year, month, day) {
        Some(date) => Some(date.to_string()),
        None => None,
    }
}

/// The first date is the second or comes after it.
pub open spec fn not_before(first: CalendarDate, second: CalendarDate) -> bool {
    first.year > second.year || (first.year == second.year && (first.month > second.month || (
    first.month == second.month && first.day >= second.day)))
}

impl CalendarDate {
    /// Whether this date is the other or comes after it.
    pub fn not_before(&self, other: CalendarDate) -> (b: bool)
        ensures
            b == not_before(*self, other),
    {
        self.year > other.year || (self.year == other.year && (self.month > other.month || (
        self.month == other.month && self.day >= other.day)))
    }

    /// The date that a text in the form year-month-day stands for.
    pub open spec fn parsed(text: Seq<char>) -> Option<CalendarDate> {
        match ymd_of_text(text) {
            Some((year, month, day)) => Some(CalendarDate { year, month, day }),
            None => None,
        }
    }

    /// The text of the date, where the year, month and day make a date.
    pub open spec fn text(self) -> Option<Seq<char>> {
        text_of_ymd(self.year, self.month, self.day)
    }

    /// The date of the given year, month and day.
    pub fn new(year: i32, month: u32, day: u32) -> (date: CalendarDate)
        ensures
            date == (CalendarDate { year, month, day }),
    {
        CalendarDate { year, month, day }
    }

    /// Reads a date written as year-month-day.
    pub fn parse(text: &str) -> (r: Option<CalendarDate>)
        ensures
            r == CalendarDate::parsed(text@),
    {
        match parse_ymd(text) {
            Some((year, month, day)) => Some(CalendarDate { year, month, day }),
            None => None,
        }
    }

    /// Writes the date as year-month-day, where the year, month and day
    /// make a date.
    pub fn to_text(&self) -> (r: Option<String>)
        ensures
            match r {
                Some(text) => self.text() == Some(text@),
                None => self.text() is None,
            },
    {
        format_ymd(self.year, self.month, self.day)
    }
}

} // verus!
