//! Calendar dates as year, month and day, and the order in which dated
//! records are listed.

use chrono::Datelike;
use chrono::Local;
use chrono::NaiveDate;
use vstd::prelude::*;

verus! {

/// A calendar date.
#[derive(Clone, Copy, Debug, PartialEq, Eq, Structural)]
pub struct Date {
    pub year: i32,
    pub month: u32,
    pub day: u32,
}

/// Whether the day `a`, as year, month and day, is earlier than `b`.
pub open spec fn ymd_lt(a: (int, int, int), b: (int, int, int)) -> bool {
    a.0 < b.0 || (a.0 == b.0 && (a.1 < b.1 || (a.1 == b.1 && a.2 < b.2)))
}

/// Whether `a` is an earlier day than `b`.
pub open spec fn date_lt(a: Date, b: Date) -> bool {
    ymd_lt(a.ymd(), b.ymd())
}

/// Order of optional dates: the missing one comes first.
pub open spec fn opt_date_lt(a: Option<Date>, b: Option<Date>) -> bool {
    match (a, b) {
        (None, None) => false,
        (None, Some(_)) => true,
        (Some(_), None) => false,
        (Some(x), Some(y)) => date_lt(x, y),
    }
}

/// A date as a triple of year, month and day.
pub open spec fn ymd(d: Option<Date>) -> Option<(int, int, int)> {
    match d {
        Some(x) => Some(x.ymd()),
        None => None,
    }
}

/// What reading a text as `year-month-day` gives: the date, or nothing where
/// the text is no such date.
pub uninterp spec fn parsed_date(text: Seq<char>) -> Option<(int, int, int)>;

impl Date {
    /// The date as a triple of year, month and day.
    pub open spec fn ymd(self) -> (int, int, int) {
        (self.year as int, self.month as int, self.day as int)
    }

    /// Whether `self` is an earlier day than `other`.
    pub fn is_before(&self, other: &Date) -> (r: bool)
        ensures
            r == date_lt(*self, *other),
    {
        self.year < other.year || (self.year == other.year && (self.month < other.month || (
        self.month == other.month && self.day < other.day)))
    }
}

/// Compares two optional dates, the missing one first.
pub fn date_precedes(a: &Option<Date>, b: &Option<Date>) -> (r: bool)
    ensures
        r == opt_date_lt(*a, *b),
{
    match (a, b) {
        (None, None) => false,
        (None, Some(_)) => true,
        (Some(_), None) => false,
        (Some(x), Some(y)) => x.is_before(y),
    }
}

/// `chrono::NaiveDate::parse_from_str` with the format `%Y-%m-%d`: the date
/// that the text denotes, with the year, month and day that `Datelike`
/// reports of it, or `None` where chrono rejects the text. The result
/// depends on the text alone.
#[verifier::external_body]
pub(crate) fn parse_date(text: &str) -> (d: Option<Date>)
    ensures
        ymd(d) == parsed_date(text@),
{
    match NaiveDate::parse_from_str(text, "%Y-%m-%d") {
        Ok(d) => Some(Date { year: d.year(), month: d.month(), day: d.day() }),
        Err(_) => None,
    }
}

/// `chrono::Local::now().date_naive()`: the current day in the local time
/// zone. Nothing is claimed of it.
#[verifier::external_body]
pub(crate) fn today() -> Date {
    let d = Local::now().date_naive();
    Date { year: d.year(), month: d.month(), day: d.day() }
}

/// How a calendar day is written as `year-month-day`, or nothing where no
/// such day exists.
pub uninterp spec fn date_text(year: int, month: int, day: int) -> Option<Seq<char>>;

/// `chrono::NaiveDate::from_ymd_opt` and, on the date it gives, `Display`:
/// the date written as `year-month-day`, or `None` where chrono knows no
/// such day. The result depends on the three numbers alone.
#[verifier::external_body]
pub(crate) fn format_date(date: Date) -> (text: Option<String>)
    ensures
        crate::text::text_of(text) == date_text(date.year as int, date.month as int, date.day as int),
{
    match NaiveDate::from_ymd_opt(date.year, date.month, date.day) {
        Some(d) => Some(d.to_string()),
        None => None,
    }
}

} // verus!
