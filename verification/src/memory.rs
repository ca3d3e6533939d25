//! Meal history and preferences as plain records, and the conversions between
//! those records and what the meal database stores and returns. The SQL
//! statements themselves are run by the application.

use vstd::prelude::*;
use vstd::string::*;
use crate::calendar::{CalendarDate, iso_date_text, chrono_parsed_date};
use crate::text::decimal;

verus! {

/// One planned meal and what became of it.
pub struct MealLog {
    pub id: i64,
    pub recipe_id: String,
    pub recipe_name: String,
    pub planned_date: CalendarDate,
    pub was_cooked: bool,
    pub substituted_with: Option<String>,
    pub notes: Option<String>,
}

/// A stored user preference.
pub struct Preference {
    pub id: i64,
    pub key: String,
    pub value: String,
    pub created_at: String,
}

/// The date a stored text stands for: the parsed date, or 1970-01-01 when the
/// text does not parse (as `parse().unwrap_or(NaiveDate::default())`).
pub open spec fn stored_date(text: Seq<char>) -> (int, int, int) {
    match chrono_parsed_date(text) {
        Some(d) => d,
        None => (1970, 1, 1),
    }
}

/// The text under which a date is stored, as `NaiveDate::to_string` writes it.
pub fn date_param(date: &CalendarDate) -> (s: String)
    requires
        date.wf(),
    ensures
        s@ == iso_date_text(*date),
{
    date.to_iso_string()
}

/// Reads a stored date text: the parsed date, or 1970-01-01 when it does not
/// parse. A text written by `date_param` reads back as the date it was made from.
pub fn read_planned_date(text: &str) -> (d: CalendarDate)
    ensures
        d.wf(),
        d.ymd() == stored_date(text@),
        forall|e: CalendarDate| e.wf() && text@ == #[trigger] iso_date_text(e) ==> d == e,
{
    match CalendarDate::parse_iso(text) {
        Some(d) => d,
        None => CalendarDate::epoch(),
    }
}

/// Builds a meal-log record from the columns of a `meal_log` row.
pub fn meal_log_from_row(
    id: i64,
    recipe_id: String,
    recipe_name: String,
    planned_date_text: &str,
    was_cooked: bool,
    substituted_with: Option<String>,
    notes: Option<String>,
) -> (log: MealLog)
    ensures
        log.id == id,
        log.recipe_id == recipe_id,
        log.recipe_name == recipe_name,
        log.planned_date.wf(),
        log.planned_date.ymd() == stored_date(planned_date_text@),
        log.was_cooked == was_cooked,
        log.substituted_with == substituted_with,
        log.notes == notes,
{
    MealLog {
        id,
        recipe_id,
        recipe_name,
        planned_date: read_planned_date(planned_date_text),
        was_cooked,
        substituted_with,
        notes,
    }
}

/// The last date a recipe was planned, from the text of `MAX(planned_date)`:
/// `None` when there is no such row or the text does not parse.
pub fn last_planned_from(max_date: Option<String>) -> (r: Option<CalendarDate>)
    ensures
        match max_date {
            None => r is None,
            Some(t) => (r is Some == chrono_parsed_date(t@) is Some) && (r matches Some(d) ==> d.wf()
                && d.ymd() == chrono_parsed_date(t@)->0),
        },
{
    match max_date {
        None => None,
        Some(t) => CalendarDate::parse_iso(t.as_str()),
    }
}

/// Planned and cooked counts of a recipe; the cooked sum is NULL when the
/// recipe has no rows, which counts as zero.
pub fn recipe_stats_from(planned: u32, cooked_sum: Option<u32>) -> (r: (u32, u32))
    ensures
        r.0 == planned,
        r.1 == match cooked_sum {
            Some(c) => c,
            None => 0u32,
        },
{
    match cooked_sum {
        Some(c) => (planned, c),
        None => (planned, 0),
    }
}

/// The SQLite date modifier for "the last `days` days": `-<days> days`.
pub fn compliance_window(days: u32) -> (s: String)
    ensures
        s@ == seq!['-'] + decimal(days as nat) + " days"@,
{
    let mut s = String::from_str("-");
    crate::text::push_decimal(&mut s, days as u64);
    s.append(" days");
    proof {
        reveal_strlit("-");
    }
    s
}

/// How plan compliance is reported: with no planned meals it counts as full
/// compliance, otherwise it is the fraction of planned meals that were cooked.
#[derive(Clone, Copy, Debug, PartialEq, Eq, Structural)]
pub enum Compliance {
    NoPlans,
    Fraction { cooked: u32, total: u32 },
}

/// The compliance for `total` planned meals of which `cooked` were cooked.
pub fn compliance_from_counts(total: u32, cooked: u32) -> (c: Compliance)
    ensures
        total == 0 ==> c == Compliance::NoPlans,
        total != 0 ==> c == (Compliance::Fraction { cooked, total }),
{
    if total == 0 {
        Compliance::NoPlans
    } else {
        Compliance::Fraction { cooked, total }
    }
}

} // verus!
