//! The proleptic Gregorian calendar, as far as day indices need it, and the
//! calls into `chrono` that convert, print and read calendar dates.

use chrono::Datelike;
use std::fmt::Write;
use vstd::prelude::*;

verus! {

/// The first year that has calendar dates here.
pub const MIN_YEAR: i32 = -262143;

/// The last year that has calendar dates here.
pub const MAX_YEAR: i32 = 262142;

pub open spec fn is_leap_year(year: int) -> bool {
    year % 4 == 0 && (year % 100 != 0 || year % 400 == 0)
}

pub open spec fn days_in_month(year: int, month: int) -> int {
    if month == 2 {
        if is_leap_year(year) {
            29
        } else {
            28
        }
    } else if month == 4 || month == 6 || month == 9 || month == 11 {
        30
    } else {
        31
    }
}

/// Whether year, month and day name a day of the calendar.
pub open spec fn is_calendar_date(year: int, month: int, day: int) -> bool {
    &&& MIN_YEAR <= year <= MAX_YEAR
    &&& 1 <= month <= 12
    &&& 1 <= day <= days_in_month(year, month)
}

/// The days of the calendar before January 1 of `year`, counted from
/// January 1 of the year 1.
pub open spec fn days_before_year(year: int) -> int {
    let y = year - 1;
    365 * y + y / 4 - y / 100 + y / 400
}

/// The days of `year` before the first of `month`.
pub open spec fn days_before_month(year: int, month: int) -> int {
    let leap: int = if month > 2 && is_leap_year(year) {
        1
    } else {
        0
    };
    leap + if month <= 1 {
        0int
    } else if month == 2 {
        31
    } else if month == 3 {
        59
    } else if month == 4 {
        90
    } else if month == 5 {
        120
    } else if month == 6 {
        151
    } else if month == 7 {
        181
    } else if month == 8 {
        212
    } else if month == 9 {
        243
    } else if month == 10 {
        273
    } else if month == 11 {
        304
    } else if month == 12 {
        334
    } else {
        365
    }
}

/// The number of a day in the calendar, where January 1 of the year 1 is
/// day 1.
pub open spec fn day_number(year: int, month: int, day: int) -> int {
    days_before_year(year) + days_before_month(year, month) + day
}

/// Whether a day number belongs to a day of the calendar.
pub open spec fn in_calendar_range(n: int) -> bool {
    day_number(MIN_YEAR as int, 1, 1) <= n <= day_number(MAX_YEAR as int, 12, 31)
}

/// Two calendar dates with the same day number are the same date.
pub proof fn lemma_day_number_injective(y1: int, m1: int, d1: int, y2: int, m2: int, d2: int)
    requires
        is_calendar_date(y1, m1, d1),
        is_calendar_date(y2, m2, d2),
        day_number(y1, m1, d1) == day_number(y2, m2, d2),
    ensures
        y1 == y2,
        m1 == m2,
        d1 == d2,
{
    lemma_day_number_in_year(y1, m1, d1);
    lemma_day_number_in_year(y2, m2, d2);
    if y1 < y2 {
        lemma_days_before_year_monotonic(y1 + 1, y2);
    }
    if y2 < y1 {
        lemma_days_before_year_monotonic(y2 + 1, y1);
    }
    assert(y1 == y2);
    lemma_day_number_in_month(y1, m1, d1);
    lemma_day_number_in_month(y2, m2, d2);
    if m1 < m2 {
        lemma_days_before_month_monotonic(y1, m1 + 1, m2);
    }
    if m2 < m1 {
        lemma_days_before_month_monotonic(y1, m2 + 1, m1);
    }
}

/// The day number of a calendar date lies within its year.
proof fn lemma_day_number_in_year(y: int, m: int, d: int)
    requires
        is_calendar_date(y, m, d),
    ensures
        days_before_year(y) < day_number(y, m, d) <= days_before_year(y + 1),
{
}

/// The day number of a calendar date lies within its month.
proof fn lemma_day_number_in_month(y: int, m: int, d: int)
    requires
        is_calendar_date(y, m, d),
    ensures
        days_before_month(y, m) < days_before_month(y, m) + d <= days_before_month(y, m + 1),
{
}

proof fn lemma_days_before_year_monotonic(a: int, b: int)
    requires
        a <= b,
    ensures
        days_before_year(a) <= days_before_year(b),
{
}

proof fn lemma_days_before_month_monotonic(y: int, a: int, b: int)
    requires
        1 <= a <= b <= 13,
    ensures
        days_before_month(y, a) <= days_before_month(y, b),
{
}

/// `chrono::NaiveDate::from_ymd_opt`, numbered by
/// `chrono::Datelike::num_days_from_ce`: `None` where the three numbers name
/// no day of the calendar, else the day's number counted from January 1 of
/// the year 1 as day 1.
#[verifier::external_body]
pub(crate) fn day_number_of(year: i32, month: u32, day: u32) -> (n: Option<i32>)
    ensures
        n is Some <==> is_calendar_date(year as int, month as int, day as int),
        n matches Some(v) ==> v == day_number(year as int, month as int, day as int),
{
    chrono::NaiveDate::from_ymd_opt(year, month, day).map(|date| date.num_days_from_ce())
}

/// `chrono::NaiveDate::from_num_days_from_ce_opt`, read back as year, month
/// and day: `None` where the number lies outside the calendar, else the
/// calendar date that has this number.
#[verifier::external_body]
pub(crate) fn date_of_day_number(n: i32) -> (r: Option<(i32, u32, u32)>)
    ensures
        r is Some <==> in_calendar_range(n as int),
        r matches Some((y, m, d)) ==> is_calendar_date(y as int, m as int, d as int) && day_number(
            y as int,
            m as int,
            d as int,
        ) == n,
{
    chrono::NaiveDate::from_num_days_from_ce_opt(n).map(
        |date| (date.year(), date.month(), date.day()),
    )
}

/// `chrono::Local::now`, as a calendar date. Which date comes back depends
/// on the host clock and time zone; it is always a day of the calendar.
/// `chrono` does not return from the call where the host clock stands
/// before the year 1970, and nothing here can rule that out.
#[verifier::external_body]
pub(crate) fn local_today() -> (r: (i32, u32, u32))
    ensures
        is_calendar_date(r.0 as int, r.1 as int, r.2 as int),
{
    let date = chrono::Local::now().date_naive();
    (date.year(), date.month(), date.day())
}

/// What `chrono` prints for a calendar date under a `strftime` pattern;
/// `None` where it cannot print the date under that pattern.
pub uninterp spec fn date_formatted(year: int, month: int, day: int, pattern: Seq<char>) -> Option<
    Seq<char>,
>;

/// `chrono::NaiveDate::format`, written into a string.
#[verifier::external_body]
pub(crate) fn format_date(year: i32, month: u32, day: u32, pattern: &str) -> (r: Option<String>)
    requires
        is_calendar_date(year as int, month as int, day as int),
    ensures
        r.deep_view() == date_formatted(year as int, month as int, day as int, pattern@),
{
    let date = chrono::NaiveDate::from_ymd_opt(year, month, day)?;
    let mut out = String::new();
    write!(out, "{}", date.format(pattern)).ok()?;
    Some(out)
}

/// The calendar date that `chrono` reads from a text under a `strftime`
/// pattern; `None` where the text does not fit the pattern or names no day.
pub uninterp spec fn date_parsed(text: Seq<char>, pattern: Seq<char>) -> Option<(int, int, int)>;

/// `chrono::NaiveDate::parse_from_str`, read back as year, month and day.
/// What it returns on success is a day of the calendar.
#[verifier::external_body]
pub(crate) fn parse_date(text: &str, pattern: &str) -> (r: Option<(i32, u32, u32)>)
    ensures
        date_parsed(text@, pattern@) == match r {
            Some((y, m, d)) => Some((y as int, m as int, d as int)),
            None => None,
        },
        r matches Some((y, m, d)) ==> is_calendar_date(y as int, m as int, d as int),
{
    chrono::NaiveDate::parse_from_str(text, pattern).ok().map(
        |date| (date.year(), date.month(), date.day()),
    )
}

} // verus!
