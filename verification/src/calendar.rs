//! Days of the Gregorian calendar: which dates exist, how far apart two
//! of them lie, and how a date is written.

use vstd::prelude::*;

verus! {

/// The first year a date of this library can lie in.
pub const MIN_YEAR: i32 = 0;

/// The last year that is written with four digits.
pub const MAX_YEAR: i32 = 9999;

/// Whether `year` has a 29th of February.
pub open spec fn is_leap_year(year: int) -> bool {
    year % 4 == 0 && (year % 100 != 0 || year % 400 == 0)
}

/// The number of days in `year`.
pub open spec fn year_length(year: int) -> int {
    if is_leap_year(year) {
        366
    } else {
        365
    }
}

/// The number of days in `month` of `year`; 0 where there is no such month.
pub open spec fn days_in_month(year: int, month: int) -> int {
    if month < 1 || month > 12 {
        0
    } else if month == 2 {
        if is_leap_year(year) {
            29
        } else {
            28
        }
    } else if month == 4 || month == 6 || month == 9 || month == 11 {
        30
    } else {
        31
    }
}

/// Whether the calendar has a day `day` in `month` of `year`.
pub open spec fn date_exists(year: int, month: int, day: int) -> bool {
    1 <= month <= 12 && 1 <= day <= days_in_month(year, month)
}

/// The days of the years `0 .. year`.
pub open spec fn days_before_year(year: int) -> int
    decreases year,
{
    if year <= 0 {
        0
    } else {
        days_before_year(year - 1) + year_length(year - 1)
    }
}

/// The days of the months `1 .. month` of `year`.
pub open spec fn days_before_month(year: int, month: int) -> int
    decreases month,
{
    if month <= 1 {
        0
    } else {
        days_before_month(year, month - 1) + days_in_month(year, month - 1)
    }
}

/// The position of a day in the run of all days from 1 January of year 0,
/// which has the number 1.
pub open spec fn day_number(year: int, month: int, day: int) -> int {
    days_before_year(year) + days_before_month(year, month) + day
}

/// The character that stands for a digit.
pub open spec fn digit(d: int) -> char {
    if d == 0 {
        '0'
    } else if d == 1 {
        '1'
    } else if d == 2 {
        '2'
    } else if d == 3 {
        '3'
    } else if d == 4 {
        '4'
    } else if d == 5 {
        '5'
    } else if d == 6 {
        '6'
    } else if d == 7 {
        '7'
    } else if d == 8 {
        '8'
    } else {
        '9'
    }
}

/// The last two decimal digits of `n`.
pub open spec fn two_digits(n: int) -> Seq<char> {
    seq![digit(n / 10 % 10), digit(n % 10)]
}

/// The last four decimal digits of `n`.
pub open spec fn four_digits(n: int) -> Seq<char> {
    two_digits(n / 100) + two_digits(n)
}

/// A date as year, month and day with hyphens between them: `YYYY-MM-DD`.
pub open spec fn iso_text(year: int, month: int, day: int) -> Seq<char> {
    four_digits(year) + seq!['-'] + two_digits(month) + seq!['-'] + two_digits(day)
}

/// A day of the calendar, given by year, month and day of the month.
#[derive(Clone, Copy, Debug, PartialEq, Eq, Structural)]
pub struct CalendarDate {
    pub year: i32,
    pub month: u32,
    pub day: u32,
}

impl CalendarDate {
    /// The date exists and its year has four digits.
    pub open spec fn is_valid(&self) -> bool {
        &&& MIN_YEAR <= self.year <= MAX_YEAR
        &&& date_exists(self.year as int, self.month as int, self.day as int)
    }

    /// The position of this date in the run of all days.
    pub open spec fn number(&self) -> int {
        day_number(self.year as int, self.month as int, self.day as int)
    }

    /// The date of the given year, month and day, where the calendar has it
    /// and the year has four digits.
    pub fn new(year: i32, month: u32, day: u32) -> (r: Option<CalendarDate>)
        ensures
            r == if MIN_YEAR <= year <= MAX_YEAR && date_exists(year as int, month as int, day as int) {
                Some(CalendarDate { year, month, day })
            } else {
                None::<CalendarDate>
            },
    {
        if year < MIN_YEAR || year > MAX_YEAR || month < 1 || month > 12 || day < 1 {
            return None;
        }
        if day > month_length(year, month) {
            return None;
        }
        Some(CalendarDate { year, month, day })
    }

    /// How many days after `other` this date lies; negative where it lies
    /// before.
    pub fn days_since(&self, other: &CalendarDate) -> (r: i64)
        requires
            self.is_valid(),
            other.is_valid(),
        ensures
            r == self.number() - other.number(),
    {
        ordinal(self) - ordinal(other)
    }

    /// The date written as `YYYY-MM-DD`.
    pub fn to_iso(&self) -> (r: String)
        requires
            self.is_valid(),
        ensures
            r@ == iso_text(self.year as int, self.month as int, self.day as int),
            r@.len() == 10,
    {
        let mut out = year_text(self.year);
        out.append("-");
        append_two_digits(&mut out, self.month);
        out.append("-");
        append_two_digits(&mut out, self.day);
        proof {
            reveal_strlit("-");
            assert("-"@ == seq!['-']);
        }
        out
    }
}

/// Among the years `0 ..= year` one more is a multiple of `k` than among
/// the years before `year`, where `year` is such a multiple.
proof fn lemma_multiples(year: int, k: int)
    requires
        0 <= year,
        k == 4 || k == 100 || k == 400,
    ensures
        (year + k) / k - (year + k - 1) / k == if year % k == 0 {
            1int
        } else {
            0int
        },
{
}

/// A multiple of 400 is one of 100, and a multiple of 100 is one of 4.
proof fn lemma_centuries(year: int)
    ensures
        year % 400 == 0 ==> year % 100 == 0,
        year % 100 == 0 ==> year % 4 == 0,
{
    if year % 400 == 0 {
        assert(year == 100 * (4 * (year / 400)));
    }
    if year % 100 == 0 {
        assert(year == 4 * (25 * (year / 100)));
    }
}

/// The days of the years before `year`, counted without walking them.
pub proof fn lemma_days_before_year(year: int)
    requires
        0 <= year,
    ensures
        days_before_year(year) == 365 * year + (year + 3) / 4 - (year + 99) / 100 + (year + 399)
            / 400,
    decreases year,
{
    if year > 0 {
        let y = year - 1;
        lemma_days_before_year(y);
        lemma_multiples(y, 4);
        lemma_multiples(y, 100);
        lemma_multiples(y, 400);
        lemma_centuries(y);
    }
}

/// The position of a date in the run of all days.
fn ordinal(date: &CalendarDate) -> (r: i64)
    requires
        date.is_valid(),
    ensures
        r == date.number(),
        0 < r < 3_660_000,
{
    let y: i64 = date.year as i64;
    let m: u32 = date.month;
    let leap = leap_year(date.year);
    let before_month: i64 = if m == 1 {
        0
    } else if m == 2 {
        31
    } else {
        let common: i64 = if m == 3 {
            59
        } else if m == 4 {
            90
        } else if m == 5 {
            120
        } else if m == 6 {
            151
        } else if m == 7 {
            181
        } else if m == 8 {
            212
        } else if m == 9 {
            243
        } else if m == 10 {
            273
        } else if m == 11 {
            304
        } else {
            334
        };
        if leap {
            common + 1
        } else {
            common
        }
    };
    proof {
        lemma_days_before_year(y as int);
        reveal_with_fuel(days_before_month, 13);
    }
    365 * y + (y + 3) / 4 - (y + 99) / 100 + (y + 399) / 400 + before_month + date.day as i64
}

/// The text of one digit.
fn digit_text(d: u32) -> (r: &'static str)
    requires
        d < 10,
    ensures
        r@ == seq![digit(d as int)],
{
    proof {
        reveal_strlit("0");
        reveal_strlit("1");
        reveal_strlit("2");
        reveal_strlit("3");
        reveal_strlit("4");
        reveal_strlit("5");
        reveal_strlit("6");
        reveal_strlit("7");
        reveal_strlit("8");
        reveal_strlit("9");
    }
    let r = if d == 0 {
        "0"
    } else if d == 1 {
        "1"
    } else if d == 2 {
        "2"
    } else if d == 3 {
        "3"
    } else if d == 4 {
        "4"
    } else if d == 5 {
        "5"
    } else if d == 6 {
        "6"
    } else if d == 7 {
        "7"
    } else if d == 8 {
        "8"
    } else {
        "9"
    };
    assert(r@ =~= seq![digit(d as int)]);
    r
}

/// Appends the last two decimal digits of `n`.
fn append_two_digits(out: &mut String, n: u32)
    ensures
        final(out)@ == old(out)@ + two_digits(n as int),
{
    out.append(digit_text(n / 10 % 10));
    out.append(digit_text(n % 10));
}

/// A year written with four digits, as it stands at the head of a date.
pub fn year_text(year: i32) -> (r: String)
    requires
        MIN_YEAR <= year <= MAX_YEAR,
    ensures
        r@ == four_digits(year as int),
        r@.len() == 4,
{
    let y: u32 = year as u32;
    let mut out = String::new();
    append_two_digits(&mut out, y / 100);
    append_two_digits(&mut out, y);
    out
}

/// Whether `year` is a leap year.
pub fn leap_year(year: i32) -> (r: bool)
    ensures
        r == is_leap_year(year as int),
{
    year % 4 == 0 && (year % 100 != 0 || year % 400 == 0)
}

/// The number of days in a month of a year.
pub fn month_length(year: i32, month: u32) -> (r: u32)
    ensures
        r == days_in_month(year as int, month as int),
{
    if month < 1 || month > 12 {
        0
    } else if month == 2 {
        if leap_year(year) {
            29
        } else {
            28
        }
    } else if month == 4 || month == 6 || month == 9 || month == 11 {
        30
    } else {
        31
    }
}

} // verus!
