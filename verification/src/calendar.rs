//! Calendar days as text, read and written by `chrono`.

use vstd::prelude::*;
use crate::session::Date;

verus! {

/// The day that `chrono` reads from a text in the form year, month and day
/// of the month with hyphens between them, as the number of days since the
/// first day of the year 1; nothing where it reads none.
pub uninterp spec fn days_of_text(text: Seq<char>) -> Option<i32>;

/// The text that `chrono` writes for the day with this number of days since
/// the first day of the year 1.
pub uninterp spec fn text_of_days(days: i32) -> Seq<char>;

/// The day that a text denotes, if it denotes one.
pub open spec fn date_of_text(text: Seq<char>) -> Option<Date> {
    match days_of_text(text) {
        Some(days) => Some(Date { days }),
        None => None,
    }
}

/// Reads a day with `chrono::NaiveDate::parse_from_str` and the format
/// `%Y-%m-%d`, and counts its days with `Datelike::num_days_from_ce`. The
/// contract only says that the outcome depends on the text alone.
#[verifier::external_body]
pub(crate) fn parse_date(text: &str) -> (days: Option<i32>)
    ensures
        days == days_of_text(text@),
{
    match chrono::NaiveDate::parse_from_str(text, "%Y-%m-%d") {
        Ok(date) => Some(chrono::Datelike::num_days_from_ce(&date)),
        Err(_) => None,
    }
}

/// Writes a day as `chrono::NaiveDate` displays it, after making the day
/// with `NaiveDate::from_num_days_from_ce_opt`; a number of days that
/// `chrono` has no day for is written as no text at all. The contract only
/// says that the text depends on the number of days alone.
#[verifier::external_body]
pub(crate) fn render_days(days: i32) -> (text: String)
    ensures
        text@ == text_of_days(days),
{
    match chrono::NaiveDate::from_num_days_from_ce_opt(days) {
        Some(date) => date.to_string(),
        None => String::new(),
    }
}

/// Reads a day from a text such as `2024-02-29`.
pub fn date_from_text(text: &str) -> (date: Option<Date>)
    ensures
        date == date_of_text(text@),
{
    match parse_date(text) {
        Some(days) => Some(Date { days }),
        None => None,
    }
}

/// Writes a day as text.
pub fn date_to_text(date: Date) -> (text: String)
    ensures
        text@ == text_of_days(date.days),
{
    render_days(date.days)
}

} // verus!
