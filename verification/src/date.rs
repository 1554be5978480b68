//! Day indices: days counted from the publication's first day.

use crate::calendar::date_formatted;
use crate::calendar::date_of_day_number;
use crate::calendar::date_parsed;
use crate::calendar::day_number;
use crate::calendar::day_number_of;
use crate::calendar::days_before_year;
use crate::calendar::format_date;
use crate::calendar::in_calendar_range;
use crate::calendar::is_calendar_date;
use crate::calendar::lemma_day_number_injective;
use crate::calendar::local_today;
use crate::calendar::parse_date;
use crate::calendar::MAX_YEAR;
use crate::calendar::MIN_YEAR;
use crate::APOD_BASE_URL;
use vstd::prelude::*;
use vstd::string::StringExecFns;

verus! {

/// The day number, in the calendar, of the publication's first day,
/// 1995-06-16.
pub const EPOCH_DAY_NUMBER: i32 = 728460;

/// How many days since the first one are known to have no entry.
pub const KNOWN_MISSING_COUNT: u32 = 4;

/// The last of the days known to have no entry, 2020-06-10.
pub const LAST_KNOWN_MISSING_DAY: i32 = 9126;

/// Counting days since 1995-06-16, where the publication starts.
#[derive(Debug, Copy, Clone, PartialEq, Eq, Structural, PartialOrd, Ord, Hash)]
pub struct ApodDate(pub i32);

impl View for ApodDate {
    type V = int;

    open spec fn view(&self) -> int {
        self.0 as int
    }
}

impl Default for ApodDate {
    fn default() -> (r: Self)
        ensures
            r == ApodDate(0),
    {
        ApodDate(0)
    }
}

/// How many days after the publication's first day a calendar date lies.
pub open spec fn days_since_epoch(year: int, month: int, day: int) -> int {
    day_number(year, month, day) - EPOCH_DAY_NUMBER
}

/// Whether year, month and day are the calendar date of day index `days`.
pub open spec fn is_date_of(days: int, year: int, month: int, day: int) -> bool {
    is_calendar_date(year, month, day) && days_since_epoch(year, month, day) == days
}

/// Whether `days` is one of the days known to have no entry: 1995-06-17,
/// 1995-06-18, 1995-06-19 and 2020-06-10.
pub open spec fn is_known_missing_day(days: int) -> bool {
    days == 1 || days == 2 || days == 3 || days == LAST_KNOWN_MISSING_DAY
}

/// The days from the first one to `last`, in ascending order, without those
/// known to have no entry.
pub open spec fn valid_days(last: int) -> Seq<ApodDate>
    decreases last + 1,
{
    if last < 0 {
        Seq::empty()
    } else if is_known_missing_day(last) {
        valid_days(last - 1)
    } else {
        valid_days(last - 1).push(ApodDate(last as i32))
    }
}

/// How many days there are from the first one to `last`, less those known
/// to have no entry; zero where that would be negative.
pub open spec fn valid_day_count(last: int) -> int {
    if last + 1 <= KNOWN_MISSING_COUNT {
        0
    } else {
        last + 1 - KNOWN_MISSING_COUNT
    }
}

/// The address of the page whose date prints as `code`.
pub open spec fn page_address(code: Seq<char>) -> Seq<char> {
    APOD_BASE_URL@ + "/ap"@ + code + ".html"@
}

/// The view of an optional triple of machine integers.
pub open spec fn ymd_view(r: Option<(i32, u32, u32)>) -> Option<(int, int, int)> {
    match r {
        Some((y, m, d)) => Some((y as int, m as int, d as int)),
        None => None,
    }
}

/// The publication's first day is day zero, and the days known to have no
/// entry are the indices of 1995-06-17, 1995-06-18, 1995-06-19 and
/// 2020-06-10.
pub proof fn lemma_known_days()
    ensures
        is_date_of(0, 1995, 6, 16),
        is_date_of(1, 1995, 6, 17),
        is_date_of(2, 1995, 6, 18),
        is_date_of(3, 1995, 6, 19),
        is_date_of(LAST_KNOWN_MISSING_DAY as int, 2020, 6, 10),
{
}

/// Every calendar date has a day number inside the calendar's range, and
/// that range fits a machine integer with room for the epoch.
pub proof fn lemma_calendar_date_in_range(year: int, month: int, day: int)
    requires
        is_calendar_date(year, month, day),
    ensures
        in_calendar_range(day_number(year, month, day)),
        -100_000_000 < day_number(year, month, day) < 100_000_000,
{
    assert(days_before_year(MIN_YEAR as int) <= days_before_year(year));
    assert(days_before_year(year + 1) <= days_before_year(MAX_YEAR + 1));
}

/// A day index has at most one calendar date.
pub proof fn lemma_date_of_unique(days: int, y1: int, m1: int, d1: int, y2: int, m2: int, d2: int)
    requires
        is_date_of(days, y1, m1, d1),
        is_date_of(days, y2, m2, d2),
    ensures
        y1 == y2,
        m1 == m2,
        d1 == d2,
{
    lemma_day_number_injective(y1, m1, d1, y2, m2, d2);
}

/// `valid_days` holds one index for each day from zero to `last` that is
/// not known to be missing, in ascending order.
pub proof fn lemma_valid_days(last: int)
    requires
        last <= i32::MAX,
    ensures
        forall|i: int|
            0 <= i < valid_days(last).len() ==> 0 <= (#[trigger] valid_days(last)[i]).0 <= last
                && !is_known_missing_day(valid_days(last)[i].0 as int),
        forall|i: int, j: int|
            0 <= i < j < valid_days(last).len() ==> (#[trigger] valid_days(last)[i]).0 < (
            #[trigger] valid_days(last)[j]).0,
        forall|d: int|
            0 <= d <= last && !is_known_missing_day(d) ==> #[trigger] valid_days(last).contains(
                ApodDate(d as i32),
            ),
        last >= LAST_KNOWN_MISSING_DAY ==> valid_days(last).len() == valid_day_count(last),
        last >= -1 ==> valid_days(last).len() <= last + 1,
    decreases last + 1,
{
    if last >= 0 {
        lemma_valid_days(last - 1);
        let prev = valid_days(last - 1);
        let cur = valid_days(last);
        assert forall|d: int|
            0 <= d <= last && !is_known_missing_day(d) implies #[trigger] cur.contains(
            ApodDate(d as i32),
        ) by {
            if d < last {
                assert(prev.contains(ApodDate(d as i32)));
                let k = choose|k: int| 0 <= k < prev.len() && prev[k] == ApodDate(d as i32);
                assert(cur[k] == ApodDate(d as i32));
            } else {
                assert(cur[cur.len() - 1] == ApodDate(d as i32));
            }
        }
        if last == 0 {
            assert(prev.len() == 0);
        }
        if last == 4 {
            assert(valid_days(3).len() == 1) by {
                reveal_with_fuel(valid_days, 6);
            }
        }
        if last == LAST_KNOWN_MISSING_DAY {
            lemma_valid_days_len_before_last_missing(last - 1);
        }
    }
}

/// Between the early missing days and the last one, only the three early
/// ones are left out.
proof fn lemma_valid_days_len_before_last_missing(last: int)
    requires
        3 <= last < LAST_KNOWN_MISSING_DAY,
    ensures
        valid_days(last).len() == last + 1 - 3,
    decreases last,
{
    if last == 3 {
        assert(valid_days(3).len() == 1) by {
            reveal_with_fuel(valid_days, 6);
        }
    } else {
        lemma_valid_days_len_before_last_missing(last - 1);
    }
}

impl ApodDate {
    /// The publication's first day.
    pub fn start() -> (r: Self)
        ensures
            r == ApodDate(0),
    {
        ApodDate(0)
    }

    /// The calendar date of this day, where the calendar has one.
    pub open spec fn calendar_date(self) -> Option<(int, int, int)> {
        if exists|y: int, m: int, d: int| is_date_of(self.0 as int, y, m, d) {
            Some(choose|y: int, m: int, d: int| is_date_of(self.0 as int, y, m, d))
        } else {
            None
        }
    }

    /// The day index of a calendar date.
    pub open spec fn from_ymd_spec(year: int, month: int, day: int) -> Option<ApodDate> {
        if is_calendar_date(year, month, day) {
            Some(ApodDate(days_since_epoch(year, month, day) as i32))
        } else {
            None
        }
    }

    /// What this day prints as under a `strftime` pattern.
    pub open spec fn formatted(self, pattern: Seq<char>) -> Option<Seq<char>> {
        match self.calendar_date() {
            Some((y, m, d)) => date_formatted(y, m, d, pattern),
            None => None,
        }
    }

    /// The address of this day's page.
    pub open spec fn page_url_spec(self) -> Option<Seq<char>> {
        match self.formatted("%y%m%d"@) {
            Some(code) => Some(page_address(code)),
            None => None,
        }
    }

    pub fn from_days(days: i32) -> (r: Self)
        ensures
            r == ApodDate(days),
    {
        ApodDate(days)
    }

    pub fn days(&self) -> (r: i32)
        ensures
            r == self.0,
    {
        self.0
    }

    /// Steps to the next day; the last representable day stays as it is.
    pub fn inc(&mut self)
        ensures
            final(self).0 == if old(self).0 < i32::MAX {
                old(self).0 + 1
            } else {
                i32::MAX as int
            },
    {
        if self.0 < i32::MAX {
            self.0 = self.0 + 1;
        }
    }

    /// The day index of a calendar date; `None` where year, month and day
    /// name no day of the calendar.
    pub fn from_ymd(year: i32, month: u32, day: u32) -> (r: Option<Self>)
        ensures
            r == Self::from_ymd_spec(year as int, month as int, day as int),
    {
        match day_number_of(year, month, day) {
            Some(n) => {
                proof {
                    lemma_calendar_date_in_range(year as int, month as int, day as int);
                }
                Some(ApodDate(n - EPOCH_DAY_NUMBER))
            },
            None => None,
        }
    }

    /// The day index of a calendar date that is known to exist.
    pub fn from_ymd_unsafe(year: i32, month: u32, day: u32) -> (r: Self)
        requires
            is_calendar_date(year as int, month as int, day as int),
        ensures
            Some(r) == Self::from_ymd_spec(year as int, month as int, day as int),
    {
        match Self::from_ymd(year, month, day) {
            Some(date) => date,
            None => ApodDate(0),
        }
    }

    /// Year, month and day of this day; `None` where the calendar has no
    /// date for it.
    pub fn to_ymd(&self) -> (r: Option<(i32, u32, u32)>)
        ensures
            ymd_view(r) == self.calendar_date(),
    {
        let n: i64 = self.0 as i64 + EPOCH_DAY_NUMBER as i64;
        if n > i32::MAX as i64 {
            proof {
                assert forall|y: int, m: int, d: int| !is_date_of(self.0 as int, y, m, d) by {
                    if is_calendar_date(y, m, d) {
                        lemma_calendar_date_in_range(y, m, d);
                    }
                }
            }
            return None;
        }
        let r = date_of_day_number(n as i32);
        proof {
            match r {
                Some((y, m, d)) => {
                    assert(is_date_of(self.0 as int, y as int, m as int, d as int));
                    let (y2, m2, d2) = choose|y: int, m: int, d: int|
                        is_date_of(self.0 as int, y, m, d);
                    lemma_date_of_unique(self.0 as int, y as int, m as int, d as int, y2, m2, d2);
                },
                None => {
                    assert forall|y: int, m: int, d: int| !is_date_of(self.0 as int, y, m, d) by {
                        if is_calendar_date(y, m, d) {
                            lemma_calendar_date_in_range(y, m, d);
                        }
                    }
                },
            }
        }
        r
    }

    /// The day of the host clock, in local time. Whatever the clock says,
    /// the result is a day that has a calendar date.
    pub fn today() -> (r: Self)
        ensures
            r.calendar_date() is Some,
    {
        let (year, month, day) = local_today();
        let r = Self::from_ymd_unsafe(year, month, day);
        proof {
            lemma_calendar_date_in_range(year as int, month as int, day as int);
            assert(is_date_of(r.0 as int, year as int, month as int, day as int));
        }
        r
    }

    /// Reads a date from `date` under the `strftime` pattern `fmt`.
    pub fn parse_from_str(date: &str, fmt: &str) -> (r: Option<Self>)
        ensures
            r == match date_parsed(date@, fmt@) {
                Some((y, m, d)) => Self::from_ymd_spec(y, m, d),
                None => None,
            },
    {
        match parse_date(date, fmt) {
            Some((year, month, day)) => Self::from_ymd(year, month, day),
            None => None,
        }
    }

    /// Prints this day under the `strftime` pattern `fmt`; `None` where the
    /// day has no calendar date or the pattern cannot be printed for one.
    pub fn format(&self, fmt: &str) -> (r: Option<String>)
        ensures
            r.deep_view() == self.formatted(fmt@),
    {
        match self.to_ymd() {
            Some((year, month, day)) => format_date(year, month, day, fmt),
            None => None,
        }
    }

    /// This day as year, month and day, in the form `1995-06-16`.
    pub fn to_string(&self) -> (r: Option<String>)
        ensures
            r.deep_view() == self.formatted("%Y-%m-%d"@),
    {
        self.format("%Y-%m-%d")
    }

    /// The address of this day's page, whether or not the publication had
    /// started by then.
    pub fn page_url(&self) -> (r: Option<String>)
        ensures
            r.deep_view() == self.page_url_spec(),
    {
        match self.format("%y%m%d") {
            Some(code) => Some(page_address_of(code.as_str())),
            None => None,
        }
    }

    /// The address of this day's page; `None` for days before the first one.
    pub fn link(&self) -> (r: Option<String>)
        ensures
            r.deep_view() == if self.0 < 0 {
                None
            } else {
                self.page_url_spec()
            },
    {
        if self.days() < 0 {
            return None;
        }
        self.page_url()
    }

    /// Whether this day is known to have no entry.
    pub fn is_known_missing(&self) -> (r: bool)
        ensures
            r == is_known_missing_day(self.0 as int),
    {
        self.0 == 1 || self.0 == 2 || self.0 == 3 || self.0 == LAST_KNOWN_MISSING_DAY
    }

    /// The days from the first one to `last`, in ascending order, without
    /// those known to have no entry.
    pub fn days_until(last: ApodDate) -> (r: Vec<ApodDate>)
        ensures
            r@ == valid_days(last.0 as int),
            last.0 >= LAST_KNOWN_MISSING_DAY ==> r.len() == valid_day_count(last.0 as int),
    {
        let mut r: Vec<ApodDate> = Vec::new();
        proof {
            lemma_valid_days(last.0 as int);
        }
        if last.0 < 0 {
            return r;
        }
        let mut day: i32 = 0;
        loop
            invariant_except_break
                r@ == valid_days(day - 1),
            invariant
                0 <= day <= last.0,
            ensures
                r@ == valid_days(last.0 as int),
            decreases last.0 - day,
        {
            let date = ApodDate(day);
            if !date.is_known_missing() {
                r.push(date);
            }
            if day == last.0 {
                break ;
            }
            day = day + 1;
        }
        r
    }

    /// The days from the first one to today, in ascending order, without
    /// those known to have no entry. Which day is today depends on the host
    /// clock.
    pub fn iter_till_today() -> (r: Vec<ApodDate>)
        ensures
            exists|today: ApodDate| today.calendar_date() is Some && r@ == valid_days(today.0 as int),
    {
        let today = Self::today();
        Self::days_until(today)
    }

    /// How many days there are from the first one to `last`, less those
    /// known to have no entry.
    pub fn count_until(last: ApodDate) -> (r: u32)
        ensures
            r == valid_day_count(last.0 as int),
    {
        if last.0 < KNOWN_MISSING_COUNT as i32 {
            0
        } else {
            (last.0 as u32 + 1) - KNOWN_MISSING_COUNT
        }
    }

    /// How many days there are from the first one to today, less those
    /// known to have no entry. Which day is today depends on the host clock.
    pub fn total_apod_days() -> (r: u32)
        ensures
            exists|today: ApodDate| today.calendar_date() is Some && r == valid_day_count(today.0 as int),
    {
        let today = Self::today();
        Self::count_until(today)
    }
}

/// The address of the page whose date prints as `code`.
pub fn page_address_of(code: &str) -> (r: String)
    ensures
        r@ == page_address(code@),
{
    let mut r = String::from_str(APOD_BASE_URL);
    r.append("/ap");
    r.append(code);
    r.append(".html");
    r
}

/// For every day that has a calendar date, the day index of that date is
/// the day again.
pub proof fn law_calendar_round_trip(day: ApodDate)
    requires
        day.calendar_date() is Some,
    ensures
        ({
            let (y, m, d) = day.calendar_date().unwrap();
            ApodDate::from_ymd_spec(y, m, d) == Some(day)
        }),
{
}

/// For every calendar date, the calendar date of its day index is the date
/// again.
pub proof fn law_day_index_round_trip(year: int, month: int, day: int)
    requires
        is_calendar_date(year, month, day),
    ensures
        ApodDate::from_ymd_spec(year, month, day) matches Some(date) && date.calendar_date()
            == Some((year, month, day)),
{
    lemma_calendar_date_in_range(year, month, day);
    let date = ApodDate::from_ymd_spec(year, month, day).unwrap();
    assert(is_date_of(date.0 as int, year, month, day));
    let (y2, m2, d2) = choose|y: int, m: int, d: int| is_date_of(date.0 as int, y, m, d);
    lemma_date_of_unique(date.0 as int, year, month, day, y2, m2, d2);
}

} // verus!
