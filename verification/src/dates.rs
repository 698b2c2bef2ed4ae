//! Calendar dates, read and written by `chrono`.

use vstd::prelude::*;
use chrono::Datelike;
use crate::models::Date;

verus! {

/// Year, month and day of the date that a text denotes under a format of
/// `chrono`, or `None` where the text does not denote a date under it.
pub uninterp spec fn parsed_date(text: Seq<char>, format: Seq<char>) -> Option<(i32, u32, u32)>;

/// The text of a date as `chrono` displays it, year first, or `None` where
/// year, month and day are not those of a day of the calendar.
pub uninterp spec fn displayed_date(year: i32, month: u32, day: u32) -> Option<Seq<char>>;

/// `chrono::NaiveDate::parse_from_str`: reads a text as a date under a
/// format. The date is handed out as year, month and day.
#[verifier::external_body]
fn chrono_parse(text: &str, format: &str) -> (date: Option<Date>)
    ensures
        match date {
            Some(date) => parsed_date(text@, format@) == Some((date.year, date.month, date.day)),
            None => parsed_date(text@, format@) is None,
        },
{
    match chrono::NaiveDate::parse_from_str(text, format) {
        Ok(date) => Some(Date { year: date.year(), month: date.month(), day: date.day() }),
        Err(_) => None,
    }
}

/// `chrono::NaiveDate::from_ymd_opt` and the `Display` of the date it makes:
/// the text of the date, year first.
#[verifier::external_body]
fn chrono_display(date: Date) -> (text: Option<String>)
    ensures
        match text {
            Some(text) => displayed_date(date.year, date.month, date.day) == Some(text@),
            None => displayed_date(date.year, date.month, date.day) is None,
        },
{
    match chrono::NaiveDate::from_ymd_opt(date.year, date.month, date.day) {
        Some(date) => Some(date.to_string()),
        None => None,
    }
}

/// The format of the dates in the files: day, month and year with dots in
/// between.
pub open spec fn day_month_year() -> Seq<char> {
    "%d.%m.%Y"@
}

/// Reads a date that is written as day, month and year with dots in between.
pub fn parse_date(text: &str) -> (date: Option<Date>)
    ensures
        match date {
            Some(date) => parsed_date(text@, day_month_year()) == Some(
                (date.year, date.month, date.day),
            ),
            None => parsed_date(text@, day_month_year()) is None,
        },
{
    chrono_parse(text, "%d.%m.%Y")
}

/// Writes a date year first, with dashes in between.
pub fn date_to_text(date: Date) -> (text: Option<String>)
    ensures
        match text {
            Some(text) => displayed_date(date.year, date.month, date.day) == Some(text@),
            None => displayed_date(date.year, date.month, date.day) is None,
        },
{
    chrono_display(date)
}

} // verus!
