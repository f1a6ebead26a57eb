//! Calendar dates with a four-digit year: reading a check-in date, the day
//! after it, and the form in which the report shows both.

use crate::text::{padded_string, padded_text};
use chrono::Datelike;
use vstd::prelude::*;
use vstd::string::*;

verus! {

/// The last year that a date of the report can show.
pub const MAX_YEAR: u16 = 9999;

/// A day of the proleptic Gregorian calendar.
#[derive(Clone, Copy, Debug, PartialEq, Eq)]
pub struct Date {
    pub year: u16,
    pub month: u8,
    pub day: u8,
}

/// True for the years that have a 29th of February.
pub open spec fn is_leap_year(year: int) -> bool {
    year % 4 == 0 && (year % 100 != 0 || year % 400 == 0)
}

/// The number of days of a month.
pub open spec fn days_in_month(year: int, month: int) -> int {
    if month == 2 {
        if is_leap_year(year) {
            29
        } else {
            28
        }
    } else if month == 4 || month == 6 || month == 9 || month == 11 {
        30
    } else {
        31
    }
}

/// The date with the given year, month and day, where the calendar has such
/// a day and the year has at most four digits.
pub open spec fn date_of_ymd(year: int, month: int, day: int) -> Option<Date> {
    if 0 <= year <= MAX_YEAR && 1 <= month <= 12 && 1 <= day <= days_in_month(year, month) {
        Some(Date { year: year as u16, month: month as u8, day: day as u8 })
    } else {
        None
    }
}

/// What `chrono` reads from `text` under the format `format`: year, month
/// and day of the date, or nothing where it reports an error.
pub uninterp spec fn parsed_date(text: Seq<char>, format: Seq<char>) -> Option<(i32, u32, u32)>;

/// What date a check-in field denotes: the date that `chrono` reads from it
/// as year, month and day without separators, where that date has a year of
/// at most four digits.
pub open spec fn checkin_of(text: Seq<char>) -> Option<Date> {
    match parsed_date(text, "%Y%m%d"@) {
        Some((year, month, day)) => date_of_ymd(year as int, month as int, day as int),
        None => None,
    }
}

/// Calls `chrono::NaiveDate::parse_from_str` and takes the date apart with
/// `Datelike::year`, `month` and `day`. Trusted: the result is a function of
/// the two texts alone. Nothing is claimed about which texts are dates.
#[verifier::external_body]
fn parse_date(text: &str, format: &str) -> (r: Option<(i32, u32, u32)>)
    ensures
        r == parsed_date(text@, format@),
{
    chrono::NaiveDate::parse_from_str(text, format).ok().map(|d| (d.year(), d.month(), d.day()))
}

/// Tells whether `year` has a 29th of February.
fn leap_year(year: u16) -> (r: bool)
    ensures
        r == is_leap_year(year as int),
{
    year % 4 == 0 && (year % 100 != 0 || year % 400 == 0)
}

/// Counts the days of a month.
fn month_length(year: u16, month: u8) -> (r: u8)
    ensures
        r == days_in_month(year as int, month as int),
{
    if month == 2 {
        if leap_year(year) {
            29
        } else {
            28
        }
    } else if month == 4 || month == 6 || month == 9 || month == 11 {
        30
    } else {
        31
    }
}

impl Date {
    /// True when the calendar has this day and the year has at most four
    /// digits.
    pub open spec fn wf(&self) -> bool {
        date_of_ymd(self.year as int, self.month as int, self.day as int) is Some
    }

    /// True unless this is the last day of the last year.
    pub open spec fn has_next(&self) -> bool {
        !(self.year == MAX_YEAR && self.month == 12 && self.day == 31)
    }

    /// The day after this one.
    pub open spec fn next(&self) -> Date {
        if (self.day as int) < days_in_month(self.year as int, self.month as int) {
            Date { year: self.year, month: self.month, day: (self.day + 1) as u8 }
        } else if self.month < 12 {
            Date { year: self.year, month: (self.month + 1) as u8, day: 1 }
        } else {
            Date { year: (self.year + 1) as u16, month: 1, day: 1 }
        }
    }

    /// The date as year, month and day with hyphens between them, the year
    /// in four digits and the others in two.
    pub open spec fn iso_text(&self) -> Seq<char> {
        padded_text(self.year as nat, 4) + seq!['-'] + padded_text(self.month as nat, 2) + seq![
            '-',
        ] + padded_text(self.day as nat, 2)
    }

    /// Makes a date of a year, a month and a day, if there is such a date.
    pub fn from_ymd(year: i32, month: u32, day: u32) -> (r: Option<Date>)
        ensures
            r == date_of_ymd(year as int, month as int, day as int),
            r matches Some(d) ==> d.wf(),
    {
        if year < 0 || year > 9999 || month < 1 || month > 12 || day < 1 || day > 31 {
            return None;
        }
        if day as u8 > month_length(year as u16, month as u8) {
            return None;
        }
        Some(Date { year: year as u16, month: month as u8, day: day as u8 })
    }

    /// Tells whether this is the last day of the last year.
    pub fn is_last(&self) -> (r: bool)
        ensures
            r == !self.has_next(),
    {
        self.year == MAX_YEAR && self.month == 12 && self.day == 31
    }

    /// The day after this one.
    pub fn succ(&self) -> (r: Date)
        requires
            self.wf(),
            self.has_next(),
        ensures
            r == self.next(),
            r.wf(),
    {
        if self.day < month_length(self.year, self.month) {
            Date { year: self.year, month: self.month, day: self.day + 1 }
        } else if self.month < 12 {
            Date { year: self.year, month: self.month + 1, day: 1 }
        } else {
            Date { year: self.year + 1, month: 1, day: 1 }
        }
    }

    /// Writes the date as the report shows it.
    pub fn to_iso_string(&self) -> (r: String)
        ensures
            r@ == self.iso_text(),
    {
        proof {
            reveal_strlit("-");
        }
        let mut out = padded_string(self.year as u128, 4);
        let month = padded_string(self.month as u128, 2);
        let day = padded_string(self.day as u128, 2);
        out.append("-");
        out.append(month.as_str());
        out.append("-");
        out.append(day.as_str());
        out
    }
}

/// Reads a check-in date.
pub fn deserialize_checkin(text: &str) -> (r: Option<Date>)
    ensures
        r == checkin_of(text@),
        r matches Some(d) ==> d.wf(),
{
    match parse_date(text, "%Y%m%d") {
        Some((year, month, day)) => Date::from_ymd(year, month, day),
        None => None,
    }
}

} // verus!
