//! Calendar dates: a plain year-month-day value paired with its day number
//! in the proleptic Gregorian calendar, so that ranges of dates can be
//! sampled and compared as ranges of integers.
use crate::rng::rand_below;
use crate::text::{digit, digit_char};
use vstd::prelude::*;

verus! {

/// The proleptic Gregorian leap-year rule.
pub open spec fn is_leap_year(y: int) -> bool {
    y % 4 == 0 && (y % 100 != 0 || y % 400 == 0)
}

pub open spec fn days_in_month(y: int, m: int) -> int {
    if m == 2 {
        if is_leap_year(y) {
            29
        } else {
            28
        }
    } else if m == 4 || m == 6 || m == 9 || m == 11 {
        30
    } else {
        31
    }
}

/// The year-month-day triples the library accepts: proleptic Gregorian,
/// years 1 through 9999.
pub open spec fn valid_ymd(y: int, m: int, d: int) -> bool {
    &&& 1 <= y <= 9999
    &&& 1 <= m <= 12
    &&& 1 <= d <= days_in_month(y, m)
}

/// The number of days in the years 1 through 9999 of the proleptic Gregorian
/// calendar (9999 years of 365 days plus 2499 - 99 + 24 leap days), and so
/// the day number of 9999-12-31.
pub const LAST_DAY_NUMBER: i32 = 3_652_059;

/// The position of a calendar date in the proleptic Gregorian day count that
/// starts with day 1 at 0001-01-01.  The count is a fixed function of the
/// date alone; the library never states its closed form and learns of it
/// only what the two chrono wrappers below say.
pub uninterp spec fn day_number(y: int, m: int, d: int) -> int;

/// Relies on chrono::NaiveDate::from_ymd_opt, which for years 1 through
/// 9999 returns Some exactly on the month-day pairs the Gregorian calendar
/// has, and on chrono::NaiveDate::num_days_from_ce, which counts days from
/// 0001-01-01 as day 1.  The two bracketing clauses restate that count
/// coarsely: a date of year `y` lies after the 365-day years before `y` and
/// within `y` years of at most 366 days, and no date up to 9999-12-31 lies
/// past `LAST_DAY_NUMBER`.
#[verifier::external_body]
fn days_from_ymd(y: i32, m: u32, d: u32) -> (r: Option<i32>)
    requires
        1 <= y <= 9999,
    ensures
        r is Some <==> valid_ymd(y as int, m as int, d as int),
        r matches Some(n) ==> n == day_number(y as int, m as int, d as int),
        r matches Some(n) ==> 365 * (y - 1) < n <= 366 * y,
        r matches Some(n) ==> n <= LAST_DAY_NUMBER,
{
    match chrono::NaiveDate::from_ymd_opt(y, m, d) {
        Some(date) => Some(chrono::Datelike::num_days_from_ce(&date)),
        None => None,
    }
}

/// Relies on chrono::NaiveDate::from_num_days_from_ce_opt, the inverse of
/// the day count above: every day number from 1 through `LAST_DAY_NUMBER`
/// names one date of the years 1 through 9999, read back here through the
/// chrono::Datelike accessors year, month and day.
#[verifier::external_body]
fn ymd_of_day_number(n: i32) -> (r: Option<(i32, u32, u32)>)
    requires
        1 <= n <= LAST_DAY_NUMBER,
    ensures
        r is Some,
        r matches Some(ymd) ==> valid_ymd(ymd.0 as int, ymd.1 as int, ymd.2 as int),
        r matches Some(ymd) ==> n == day_number(ymd.0 as int, ymd.1 as int, ymd.2 as int),
{
    match chrono::NaiveDate::from_num_days_from_ce_opt(n) {
        Some(date) => Some((
            chrono::Datelike::year(&date),
            chrono::Datelike::month(&date),
            chrono::Datelike::day(&date),
        )),
        None => None,
    }
}

/// A calendar date.  `days` is the date's day number; it comes first so
/// that the derived ordering is the chronological one.
#[derive(Debug, Clone, Copy, PartialEq, Eq, Structural, PartialOrd, Ord, Hash)]
pub struct Date {
    days: i32,
    year: i32,
    month: u32,
    day: u32,
}

impl Date {
    /// A date holds a valid year-month-day and the matching day number.
    pub closed spec fn wf(self) -> bool {
        &&& valid_ymd(self.year as int, self.month as int, self.day as int)
        &&& self.days == day_number(self.year as int, self.month as int, self.day as int)
        &&& 1 <= self.days <= LAST_DAY_NUMBER
    }

    pub closed spec fn day_num(self) -> int {
        self.days as int
    }

    pub closed spec fn spec_year(self) -> int {
        self.year as int
    }

    pub closed spec fn spec_month(self) -> int {
        self.month as int
    }

    pub closed spec fn spec_day(self) -> int {
        self.day as int
    }

    /// The date with the given year, month and day, or None exactly when the
    /// triple is not a calendar date of the years 1 through 9999.
    pub fn from_ymd(year: i32, month: u32, day: u32) -> (r: Option<Date>)
        ensures
            r is Some <==> valid_ymd(year as int, month as int, day as int),
            r matches Some(d) ==> {
                &&& d.wf()
                &&& d.spec_year() == year
                &&& d.spec_month() == month
                &&& d.spec_day() == day
                &&& d.day_num() == day_number(year as int, month as int, day as int)
                &&& 365 * (year - 1) < d.day_num() <= 366 * year
            },
    {
        if year < 1 || year > 9999 {
            return None;
        }
        match days_from_ymd(year, month, day) {
            Some(n) => Some(Date { days: n, year, month, day }),
            None => None,
        }
    }

    /// The date standing at the given position of the day count, or None
    /// exactly when the position lies outside the years 1 through 9999.
    pub fn from_day_number(n: i32) -> (r: Option<Date>)
        ensures
            r is Some <==> 1 <= n <= LAST_DAY_NUMBER,
            r matches Some(d) ==> d.wf() && d.day_num() == n,
    {
        if n < 1 || n > LAST_DAY_NUMBER {
            return None;
        }
        match ymd_of_day_number(n) {
            Some((y, m, d)) => Some(Date { days: n, year: y, month: m, day: d }),
            None => None,
        }
    }

    /// What well-formedness guarantees about the parts of a date.
    pub proof fn lemma_wf(self)
        requires
            self.wf(),
        ensures
            valid_ymd(self.spec_year(), self.spec_month(), self.spec_day()),
            self.day_num() == day_number(self.spec_year(), self.spec_month(), self.spec_day()),
            1 <= self.day_num() <= LAST_DAY_NUMBER as int,
    {
    }

    /// The date's position in the day count.
    pub fn days_from_ce(&self) -> (r: i32)
        ensures
            r == self.day_num(),
    {
        self.days
    }

    pub fn year(&self) -> (r: i32)
        ensures
            r == self.spec_year(),
    {
        self.year
    }

    pub fn month(&self) -> (r: u32)
        ensures
            r == self.spec_month(),
    {
        self.month
    }

    pub fn day(&self) -> (r: u32)
        ensures
            r == self.spec_day(),
    {
        self.day
    }

    /// The date in the `YYYY-MM-DD` form every serializer renders.
    pub fn iso_string(&self) -> (r: String)
        requires
            self.wf(),
        ensures
            r@ == date_str(self.spec_year(), self.spec_month(), self.spec_day()),
    {
        let y = self.year as u32;
        let mut out = String::new();
        out.push(digit(y / 1000));
        out.push(digit(y / 100 % 10));
        out.push(digit(y / 10 % 10));
        out.push(digit(y % 10));
        out.push('-');
        out.push(digit(self.month / 10));
        out.push(digit(self.month % 10));
        out.push('-');
        out.push(digit(self.day / 10));
        out.push(digit(self.day % 10));
        assert(out@ =~= date_str(self.spec_year(), self.spec_month(), self.spec_day()));
        out
    }
}

/// The `YYYY-MM-DD` rendering of a date of the years 1 through 9999.
pub open spec fn date_str(y: int, m: int, d: int) -> Seq<char> {
    seq![
        digit_char(y / 1000),
        digit_char(y / 100 % 10),
        digit_char(y / 10 % 10),
        digit_char(y % 10),
        '-',
        digit_char(m / 10),
        digit_char(m % 10),
        '-',
        digit_char(d / 10),
        digit_char(d % 10),
    ]
}

/// One uniformly sampled date with day number in `[start, end)`, for the
/// fixed range 1900-01-01 to 2100-12-12.
pub fn gen_date() -> (r: Date)
    ensures
        r.wf(),
        day_number(1900, 1, 1) <= r.day_num() < day_number(2100, 12, 12),
{
    let start = match Date::from_ymd(1900, 1, 1) {
        Some(d) => d,
        None => vstd::pervasive::unreached(),
    };
    let end = match Date::from_ymd(2100, 12, 12) {
        Some(d) => d,
        None => vstd::pervasive::unreached(),
    };
    sample_date_range(&start, &end)
}

/// One uniformly sampled date with day number in `[start, end)`.
pub fn sample_date_range(start: &Date, end: &Date) -> (r: Date)
    requires
        start.wf(),
        end.wf(),
        start.day_num() < end.day_num(),
    ensures
        r.wf(),
        start.day_num() <= r.day_num() < end.day_num(),
{
    let lo = start.days_from_ce();
    let hi = end.days_from_ce();
    let span = (hi - lo) as u64;
    let offset = rand_below(span);
    let n = lo + offset as i32;
    match Date::from_day_number(n) {
        Some(d) => d,
        None => vstd::pervasive::unreached(),
    }
}

} // verus!
