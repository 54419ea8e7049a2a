//! Proleptic Gregorian calendar arithmetic: month lengths and weekdays.

use vstd::prelude::*;
use vstd::arithmetic::div_mod::{lemma_add_mod_noop, lemma_mod_division_less_than_divisor};

verus! {

/// A calendar month: the pair of a year and a month number.
#[derive(Clone, Copy, Debug, PartialEq, Eq, Structural)]
pub struct YearMonth {
    pub year: i32,
    pub month: u32,
}

impl YearMonth {
    /// A month that can appear in a six-digit `YYYYMM` file name.
    pub open spec fn wf(self) -> bool {
        0 <= self.year <= 9999 && 1 <= self.month <= 12
    }
}

/// The Gregorian leap-year rule.
pub open spec fn is_leap_year(y: int) -> bool {
    (y % 4 == 0 && y % 100 != 0) || y % 400 == 0
}

/// Number of days of a Gregorian calendar month.
pub open spec fn days_in_month(y: int, m: int) -> int {
    if m == 2 {
        if is_leap_year(y) {
            29
        } else {
            28
        }
    } else if m == 4 || m == 6 || m == 9 || m == 11 {
        30
    } else {
        31
    }
}

/// Number of days of a year.
pub open spec fn year_days(y: int) -> int {
    if is_leap_year(y) {
        366
    } else {
        365
    }
}

/// Days in all years from year 0 (inclusive) up to year `y` (exclusive).
pub open spec fn days_before_year(y: int) -> int
    decreases y,
{
    if y <= 0 {
        0
    } else {
        days_before_year(y - 1) + year_days(y - 1)
    }
}

/// Days of year `y` that lie before month `m`.
pub open spec fn days_before_month(y: int, m: int) -> int
    decreases m,
{
    if m <= 1 {
        0
    } else {
        days_before_month(y, m - 1) + days_in_month(y, m - 1)
    }
}

/// Position of a date in the proleptic Gregorian calendar, counted in days
/// from the first of January of year 0.
pub open spec fn day_index(y: int, m: int, d: int) -> int {
    days_before_year(y) + days_before_month(y, m) + (d - 1)
}

/// Weekday of a date, numbered so that 0 falls on a Saturday (the weekday of
/// the first of January of year 0).
pub open spec fn weekday_index(y: int, m: int, d: int) -> int {
    day_index(y, m, d) % 7
}

/// The lowercase English name of a weekday number.
pub open spec fn weekday_name(w: int) -> Seq<char> {
    if w == 0 {
        "saturday"@
    } else if w == 1 {
        "sunday"@
    } else if w == 2 {
        "monday"@
    } else if w == 3 {
        "tuesday"@
    } else if w == 4 {
        "wednesday"@
    } else if w == 5 {
        "thursday"@
    } else {
        "friday"@
    }
}

/// Whether a year is a Gregorian leap year.
pub fn leap_year(y: u32) -> (r: bool)
    ensures
        r == is_leap_year(y as int),
{
    (y % 4 == 0 && y % 100 != 0) || y % 400 == 0
}

/// Number of days of the given month, by the Gregorian rule (leap-year-aware
/// for February).
pub fn ndays_in_month(year: i32, month: u32) -> (n: u32)
    requires
        0 <= year,
        1 <= month <= 12,
    ensures
        n == days_in_month(year as int, month as int),
{
    if month == 2 {
        if leap_year(year as u32) {
            29
        } else {
            28
        }
    } else if month == 4 || month == 6 || month == 9 || month == 11 {
        30
    } else {
        31
    }
}

/// Weekday number of a date: 0 is Saturday, 6 is Friday.
pub fn weekday_of(year: i32, month: u32, day: u32) -> (w: u32)
    requires
        0 <= year <= 9999,
        1 <= month <= 12,
        1 <= day <= days_in_month(year as int, month as int),
    ensures
        w == weekday_index(year as int, month as int, day as int),
        w < 7,
{
    let y = year as u32;
    let mut acc: u32 = 0;
    let mut i: u32 = 0;
    while i < y
        invariant
            i <= y <= 9999,
            acc == days_before_year(i as int),
            acc <= 366 * i,
        decreases y - i,
    {
        if leap_year(i) {
            acc = acc + 366;
        } else {
            acc = acc + 365;
        }
        i = i + 1;
    }
    let mut mo: u32 = 1;
    while mo < month
        invariant
            1 <= mo <= month <= 12,
            acc == days_before_year(y as int) + days_before_month(y as int, mo as int),
            acc <= 366 * 9999 + 31 * mo,
            0 <= year <= 9999,
            y == year as u32,
        decreases month - mo,
    {
        acc = acc + ndays_in_month(year, mo);
        mo = mo + 1;
    }
    acc = acc + (day - 1);
    proof {
        lemma_mod_division_less_than_divisor(acc as int, 7);
    }
    acc % 7
}

/// The lowercase English name of a weekday number, as text.
pub fn weekday_str(w: u32) -> (r: &'static str)
    requires
        w < 7,
    ensures
        r@ == weekday_name(w as int),
{
    if w == 0 {
        "saturday"
    } else if w == 1 {
        "sunday"
    } else if w == 2 {
        "monday"
    } else if w == 3 {
        "tuesday"
    } else if w == 4 {
        "wednesday"
    } else if w == 5 {
        "thursday"
    } else {
        "friday"
    }
}

/// Within a month, each day's weekday follows its predecessor's: the weekday
/// numbers of consecutive days step forward by one, modulo seven, so the
/// rendered day list neither skips nor repeats a weekday.
pub proof fn lemma_weekday_succ(y: int, m: int, d: int)
    requires
        1 <= m <= 12,
        1 <= d,
        d + 1 <= days_in_month(y, m),
    ensures
        weekday_index(y, m, d + 1) == (weekday_index(y, m, d) + 1) % 7,
{
    let a = day_index(y, m, d);
    assert(day_index(y, m, d + 1) == a + 1);
    lemma_add_mod_noop(a, 1int, 7);
    assert((a % 7 + 1int % 7) % 7 == (a + 1) % 7);
    assert(1int % 7 == 1);
}

} // verus!
