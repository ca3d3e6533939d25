//! Calendar dates as plain values, with chrono doing the calendar arithmetic,
//! the ISO rendering and the parsing.

use vstd::prelude::*;
use chrono::Datelike;
use crate::text::{decimal, zero_pad};

verus! {

/// A proleptic Gregorian calendar date held as plain integers.
#[derive(Clone, Copy, Debug, PartialEq, Eq, Structural)]
pub struct CalendarDate {
    pub year: i32,
    pub month: u32,
    pub day: u32,
}

/// The smallest year that `chrono::NaiveDate` represents.
pub open spec fn min_year() -> int {
    -262143
}

/// The largest year that `chrono::NaiveDate` represents.
pub open spec fn max_year() -> int {
    262142
}

/// Leap years of the proleptic Gregorian calendar.
pub open spec fn is_leap_year(year: int) -> bool {
    year % 4 == 0 && (year % 100 != 0 || year % 400 == 0)
}

/// Number of days in `month` of `year` (for `1 <= month <= 12`).
pub open spec fn days_in_month(year: int, month: int) -> int {
    if month == 2 {
        if is_leap_year(year) {
            29
        } else {
            28
        }
    } else if month == 4 || month == 6 || month == 9 || month == 11 {
        30
    } else {
        31
    }
}

/// Whether year/month/day names an existing day within chrono's range.
pub open spec fn valid_ymd(year: int, month: int, day: int) -> bool {
    &&& min_year() <= year <= max_year()
    &&& 1 <= month <= 12
    &&& 1 <= day <= days_in_month(year, month)
}

/// The year as `%Y` writes it: four digits for 0..=9999, otherwise an explicit
/// sign followed by at least four digits.
pub open spec fn year_text(year: int) -> Seq<char> {
    if 0 <= year <= 9999 {
        zero_pad(decimal(year as nat), 4)
    } else if year >= 0 {
        seq!['+'] + zero_pad(decimal(year as nat), 4)
    } else {
        seq!['-'] + zero_pad(decimal((-year) as nat), 4)
    }
}

/// The ISO `%Y-%m-%d` text of a date.
pub open spec fn iso_date_text(d: CalendarDate) -> Seq<char> {
    year_text(d.year as int) + seq!['-'] + zero_pad(decimal(d.month as nat), 2) + seq!['-']
        + zero_pad(decimal(d.day as nat), 2)
}

impl CalendarDate {
    /// The date is one that exists and that chrono can hold.
    pub open spec fn wf(self) -> bool {
        valid_ymd(self.year as int, self.month as int, self.day as int)
    }

    /// The triple of plain integers that the date stands for.
    pub open spec fn ymd(self) -> (int, int, int) {
        (self.year as int, self.month as int, self.day as int)
    }
}

/// What `chrono::NaiveDate::from_str` gives for a text, as year/month/day.
pub uninterp spec fn chrono_parsed_date(text: Seq<char>) -> Option<(int, int, int)>;

/// The number of days from 1970-01-01 to the given proleptic Gregorian date
/// (negative before it): the date's position on the day line.
pub open spec fn day_number(year: int, month: int, day: int) -> int {
    let y = if month <= 2 {
        year - 1
    } else {
        year
    };
    let era = y / 400;
    let year_of_era = y - era * 400;
    let shifted_month = if month > 2 {
        month - 3
    } else {
        month + 9
    };
    let day_of_year = (153 * shifted_month + 2) / 5 + day - 1;
    let day_of_era = year_of_era * 365 + year_of_era / 4 - year_of_era / 100 + day_of_year;
    era * 146097 + day_of_era - 719468
}

/// The day number of the earliest date chrono represents, January 1 of its
/// smallest year.
pub open spec fn first_day_number() -> int {
    day_number(min_year(), 1, 1)
}

/// Calls `chrono::NaiveDate::from_ymd_opt`, which returns `Some` exactly when the
/// month is 1..=12, the day exists in that month, and the year lies in chrono's range.
#[verifier::external_body]
fn chrono_from_ymd_is_some(year: i32, month: u32, day: u32) -> (r: bool)
    ensures
        r == valid_ymd(year as int, month as int, day as int),
{
    chrono::NaiveDate::from_ymd_opt(year, month, day).is_some()
}

/// Renders a date with `NaiveDate`'s `Display` impl, which writes `%Y-%m-%d`
/// (zero-padded four-digit year for 0..=9999, signed year otherwise).
#[verifier::external_body]
fn chrono_to_string(d: CalendarDate) -> (s: String)
    requires
        d.wf(),
    ensures
        s@ == iso_date_text(d),
{
    chrono::NaiveDate::from_ymd_opt(d.year, d.month, d.day).unwrap().to_string()
}

/// Parses a text with `NaiveDate`'s `FromStr` impl (`%Y-%m-%d`, the format that
/// `Display` writes). The contract claims: the result is `chrono_parsed_date` of
/// the text; a parsed date exists; and the text that `Display` writes for a date
/// parses back to that date.
#[verifier::external_body]
fn chrono_parse(text: &str) -> (r: Option<CalendarDate>)
    ensures
        r is Some == chrono_parsed_date(text@) is Some,
        r matches Some(d) ==> d.wf() && d.ymd() == chrono_parsed_date(text@)->0,
        forall|d: CalendarDate| d.wf() && text@ == #[trigger] iso_date_text(d) ==> r == Some(d),
{
    match text.parse::<chrono::NaiveDate>() {
        Ok(n) => Some(CalendarDate { year: n.year(), month: n.month(), day: n.day() }),
        Err(_) => None,
    }
}

/// Subtracts `days` whole days with `NaiveDate::checked_sub_signed`, which gives
/// `None` exactly when the result would fall before chrono's earliest date, and
/// otherwise the existing date that many days earlier on the day line.
#[verifier::external_body]
fn chrono_checked_sub_days(d: CalendarDate, days: u32) -> (r: Option<CalendarDate>)
    requires
        d.wf(),
    ensures
        r is Some <==> day_number(d.year as int, d.month as int, d.day as int) - days >= first_day_number(),
        r matches Some(e) ==> e.wf() && day_number(e.year as int, e.month as int, e.day as int) == day_number(
            d.year as int,
            d.month as int,
            d.day as int,
        ) - days,
{
    let n = chrono::NaiveDate::from_ymd_opt(d.year, d.month, d.day).unwrap();
    match n.checked_sub_signed(chrono::TimeDelta::days(days as i64)) {
        Some(e) => Some(CalendarDate { year: e.year(), month: e.month(), day: e.day() }),
        None => None,
    }
}

impl CalendarDate {
    /// Makes a date from year, month and day; `None` when no such day exists
    /// (as `NaiveDate::from_ymd_opt`).
    pub fn from_ymd(year: i32, month: u32, day: u32) -> (r: Option<CalendarDate>)
        ensures
            r is Some <==> valid_ymd(year as int, month as int, day as int),
            r matches Some(d) ==> d.year == year && d.month == month && d.day == day,
    {
        if chrono_from_ymd_is_some(year, month, day) {
            Some(CalendarDate { year, month, day })
        } else {
            None
        }
    }

    /// The first of January 1970, the date `NaiveDate::default()` gives.
    pub fn epoch() -> (r: CalendarDate)
        ensures
            r.year == 1970 && r.month == 1 && r.day == 1,
            r.wf(),
    {
        CalendarDate { year: 1970, month: 1, day: 1 }
    }

    /// The ISO `YYYY-MM-DD` text of the date, as `NaiveDate::to_string` writes it.
    pub fn to_iso_string(&self) -> (s: String)
        requires
            self.wf(),
        ensures
            s@ == iso_date_text(*self),
    {
        chrono_to_string(*self)
    }

    /// Parses an ISO date text as `str::parse::<NaiveDate>` does.
    pub fn parse_iso(text: &str) -> (r: Option<CalendarDate>)
        ensures
            r is Some == chrono_parsed_date(text@) is Some,
            r matches Some(d) ==> d.wf() && d.ymd() == chrono_parsed_date(text@)->0,
            forall|d: CalendarDate| d.wf() && text@ == #[trigger] iso_date_text(d) ==> r == Some(d),
    {
        chrono_parse(text)
    }

    /// The date `days` days earlier (`self - Duration::days(days)`), or `None` when
    /// that falls before chrono's earliest date.
    pub fn days_before(&self, days: u32) -> (r: Option<CalendarDate>)
        requires
            self.wf(),
        ensures
            r is Some <==> day_number(self.year as int, self.month as int, self.day as int) - days
                >= first_day_number(),
            r matches Some(e) ==> e.wf() && day_number(e.year as int, e.month as int, e.day as int)
                == day_number(self.year as int, self.month as int, self.day as int) - days,
    {
        chrono_checked_sub_days(*self, days)
    }
}

} // verus!
