//! Dates that the sources write without a year: reading them with the
//! current year put in, and deciding which year was meant.

use crate::calendar::{date_exists, four_digits, year_text, CalendarDate, MAX_YEAR, MIN_YEAR};
use crate::text::{trim, trimmed};
use chrono::format::ParseError;
use chrono::{Datelike, Local, NaiveDate};
use vstd::prelude::*;
use vstd::string::StringExecFns;

verus! {

#[verifier::external_type_specification]
#[verifier::external_body]
pub struct ExParseError(chrono::format::ParseError);

/// How many days ahead of today a date of the table source may lie.
pub const WINDOW_DAYS: i64 = 14;

/// The year, month and day of the date that `NaiveDate::parse_from_str`
/// reads from a text by a format, where it reads one.
pub uninterp spec fn parsed_date(text: Seq<char>, format: Seq<char>) -> Option<(int, int, int)>;

/// `NaiveDate::parse_from_str`, with the date it reads taken apart into
/// year, month and day: what comes back is what `parsed_date` names.
#[verifier::external_body]
fn parse_from_str(text: &str, format: &str) -> (r: Result<(i32, u32, u32), ParseError>)
    ensures
        match r {
            Ok(date) => parsed_date(text@, format@) == Some(
                (date.0 as int, date.1 as int, date.2 as int),
            ),
            Err(_) => parsed_date(text@, format@) is None,
        },
{
    NaiveDate::parse_from_str(text, format).map(|d| (d.year(), d.month(), d.day()))
}

/// `Local::now`, as year, month and day of the local date. Nothing is
/// claimed of what the clock says. The call panics where the system clock
/// stands before 1970.
#[verifier::external_body]
fn local_date() -> (r: (i32, u32, u32)) {
    let now = Local::now();
    (now.year(), now.month(), now.day())
}

/// The date that a text holds by a format, where it holds one that this
/// library can write with a four-digit year.
pub open spec fn date_read(text: Seq<char>, format: Seq<char>) -> Option<CalendarDate> {
    match parsed_date(text, format) {
        Some((year, month, day)) => if MIN_YEAR <= year <= MAX_YEAR && date_exists(
            year,
            month,
            day,
        ) {
            Some(CalendarDate { year: year as i32, month: month as u32, day: day as u32 })
        } else {
            None
        },
        None => None,
    }
}

/// The date that a text holds by a format, where it is a date of `year`:
/// a text that begins with a year holds no date of another.
pub open spec fn date_read_in(text: Seq<char>, format: Seq<char>, year: int) -> Option<
    CalendarDate,
> {
    match date_read(text, format) {
        Some(date) => if date.year == year {
            Some(date)
        } else {
            None
        },
        None => None,
    }
}

/// The format of a date like `mar_10` behind a year.
pub open spec fn compact_format() -> Seq<char> {
    "%Y %b_%d"@
}

/// The format of a date like `Sun: Feb 5` behind a year.
pub open spec fn header_format() -> Seq<char> {
    "%Y%a: %b %e"@
}

/// A compact date with the year put before it.
pub open spec fn compact_text(date: Seq<char>, year: int) -> Seq<char> {
    four_digits(year) + " "@ + date
}

/// A weekday-and-day date with the year put before it.
pub open spec fn header_text(date: Seq<char>, year: int) -> Seq<char> {
    trimmed(four_digits(year) + date)
}

/// The wrap rule: a date whose month lies before today's month is meant
/// for the year after, where that year has such a day; any other date
/// stands as it is.
pub open spec fn rolled_over(date: CalendarDate, today: CalendarDate) -> Option<CalendarDate> {
    if date.month < today.month {
        if date.year < MAX_YEAR && date_exists(
            date.year + 1,
            date.month as int,
            date.day as int,
        ) {
            Some(CalendarDate { year: (date.year + 1) as i32, month: date.month, day: date.day })
        } else {
            None
        }
    } else {
        Some(date)
    }
}

/// The recency window: a date more than `WINDOW_DAYS` days after today is
/// not current; any other date stands.
pub open spec fn in_window(date: CalendarDate, today: CalendarDate) -> Option<CalendarDate> {
    if date.number() - today.number() > WINDOW_DAYS {
        None
    } else {
        Some(date)
    }
}

/// What a compact date resolves to on a given day.
pub open spec fn compact_date(date: Seq<char>, today: CalendarDate) -> Option<CalendarDate> {
    match date_read_in(
        compact_text(date, today.year as int),
        compact_format(),
        today.year as int,
    ) {
        Some(read) => rolled_over(read, today),
        None => None,
    }
}

/// What a weekday-and-day date resolves to on a given day.
pub open spec fn header_date(date: Seq<char>, today: CalendarDate) -> Option<CalendarDate> {
    match date_read_in(
        header_text(date, today.year as int),
        header_format(),
        today.year as int,
    ) {
        Some(read) => in_window(read, today),
        None => None,
    }
}

/// Today's date by the local clock, where its year has four digits.
pub fn today() -> (r: Option<CalendarDate>)
    ensures
        r matches Some(date) ==> date.is_valid(),
{
    let (year, month, day) = local_date();
    CalendarDate::new(year, month, day)
}

/// Reads a date from a text by a `chrono` format.
pub fn read_date(text: &str, format: &str) -> (r: Option<CalendarDate>)
    ensures
        r == date_read(text@, format@),
        r matches Some(date) ==> date.is_valid(),
{
    match parse_from_str(text, format) {
        Ok((year, month, day)) => CalendarDate::new(year, month, day),
        Err(_) => None,
    }
}

/// Reads a date of a given year from a text by a `chrono` format.
pub fn read_date_in(text: &str, format: &str, year: i32) -> (r: Option<CalendarDate>)
    ensures
        r == date_read_in(text@, format@, year as int),
        r matches Some(date) ==> date.is_valid() && date.year == year,
{
    match read_date(text, format) {
        Some(date) => if date.year == year {
            Some(date)
        } else {
            None
        },
        None => None,
    }
}

/// Reads a date like `mar_10` as a date of today's year.
pub fn parse_date_string(date: &str, today: &CalendarDate) -> (r: Option<CalendarDate>)
    requires
        today.is_valid(),
    ensures
        r == date_read_in(
            compact_text(date@, today.year as int),
            compact_format(),
            today.year as int,
        ),
        r matches Some(read) ==> read.is_valid() && read.year == today.year,
{
    let mut text = year_text(today.year);
    text.append(" ");
    text.append(date);
    read_date_in(text.as_str(), "%Y %b_%d", today.year)
}

/// Reads a date like `Sun: Feb 5` as a date of today's year.
pub fn parse_header_string(date: &str, today: &CalendarDate) -> (r: Option<CalendarDate>)
    requires
        today.is_valid(),
    ensures
        r == date_read_in(
            header_text(date@, today.year as int),
            header_format(),
            today.year as int,
        ),
        r matches Some(read) ==> read.is_valid() && read.year == today.year,
{
    let mut text = year_text(today.year);
    text.append(date);
    let text = trim(text.as_str());
    read_date_in(text.as_str(), "%Y%a: %b %e", today.year)
}

/// Applies the wrap rule to a date that was read in today's year.
pub fn roll_over(date: CalendarDate, today: &CalendarDate) -> (r: Option<CalendarDate>)
    requires
        date.is_valid(),
        today.is_valid(),
    ensures
        r == rolled_over(date, *today),
        r matches Some(resolved) ==> resolved.is_valid(),
        date.month >= today.month ==> r == Some(date),
        date.month < today.month ==> (r matches Some(resolved) ==> resolved.year == date.year + 1),
{
    if date.month < today.month {
        if date.year < MAX_YEAR {
            CalendarDate::new(date.year + 1, date.month, date.day)
        } else {
            None
        }
    } else {
        Some(date)
    }
}

/// Applies the recency window to a date.
pub fn keep_in_window(date: CalendarDate, today: &CalendarDate) -> (r: Option<CalendarDate>)
    requires
        date.is_valid(),
        today.is_valid(),
    ensures
        r == in_window(date, *today),
        date.number() - today.number() > WINDOW_DAYS ==> r is None,
        date.number() - today.number() <= WINDOW_DAYS ==> r == Some(date),
{
    if date.days_since(today) > WINDOW_DAYS {
        None
    } else {
        Some(date)
    }
}

/// Resolves a compact date: reads it in today's year and applies the wrap
/// rule.
pub fn resolve_compact(date: &str, today: &CalendarDate) -> (r: Option<CalendarDate>)
    requires
        today.is_valid(),
    ensures
        r == compact_date(date@, *today),
        r matches Some(resolved) ==> {
            &&& resolved.is_valid()
            &&& resolved.month < today.month ==> resolved.year == today.year + 1
            &&& resolved.month >= today.month ==> resolved.year == today.year
        },
{
    match parse_date_string(date, today) {
        Some(read) => roll_over(read, today),
        None => None,
    }
}

/// Resolves a weekday-and-day date: reads it in today's year and applies
/// the recency window.
pub fn resolve_header(date: &str, today: &CalendarDate) -> (r: Option<CalendarDate>)
    requires
        today.is_valid(),
    ensures
        r == header_date(date@, *today),
        r matches Some(resolved) ==> {
            &&& resolved.is_valid()
            &&& resolved.year == today.year
            &&& resolved.number() - today.number() <= WINDOW_DAYS
        },
{
    match parse_header_string(date, today) {
        Some(read) => keep_in_window(read, today),
        None => None,
    }
}

/// Year rollover: a compact date that reads as a day of a month before
/// today's month resolves to that day of the next year. The 29th of
/// February is left out, which the next year does not have, and so is
/// the last year that four digits can write.
pub proof fn lemma_rollover_next_year(date: Seq<char>, today: CalendarDate)
    requires
        today.is_valid(),
        today.year < MAX_YEAR,
        date_read_in(compact_text(date, today.year as int), compact_format(), today.year as int)
            matches Some(read) && read.month < today.month && !(read.month == 2 && read.day
            == 29),
    ensures
        ({
            let read = date_read_in(
                compact_text(date, today.year as int),
                compact_format(),
                today.year as int,
            )->0;
            compact_date(date, today) == Some(
                CalendarDate { year: (today.year + 1) as i32, month: read.month, day: read.day },
            )
        }),
{
}

/// No rollover: a compact date that reads as a day of today's month or of
/// a later one resolves to that day of today's year.
pub proof fn lemma_same_year(date: Seq<char>, today: CalendarDate)
    requires
        today.is_valid(),
        date_read_in(compact_text(date, today.year as int), compact_format(), today.year as int)
            matches Some(read) && read.month >= today.month,
    ensures
        ({
            let read = date_read_in(
                compact_text(date, today.year as int),
                compact_format(),
                today.year as int,
            )->0;
            compact_date(date, today) == Some(read) && read.year == today.year
        }),
{
}

/// The recency window: a weekday-and-day date that reads as a day more
/// than fourteen days after today is unresolvable; one that reads as a day
/// at most fourteen days after today, or before it, resolves to that day.
pub proof fn lemma_window(date: Seq<char>, today: CalendarDate)
    requires
        today.is_valid(),
        date_read_in(header_text(date, today.year as int), header_format(), today.year as int)
            is Some,
    ensures
        ({
            let read = date_read_in(
                header_text(date, today.year as int),
                header_format(),
                today.year as int,
            )->0;
            &&& read.number() - today.number() > 14 ==> header_date(date, today) is None
            &&& read.number() - today.number() <= 14 ==> header_date(date, today) == Some(read)
        }),
{
}

} // verus!
