//! Calendar normalization: the ISO-8601 week-numbering year of a proleptic
//! Gregorian date.
//!
//! Weeks run Monday through Sunday, and a week belongs to the calendar year
//! that contains its Thursday (equivalently, week 1 of a year is the week with
//! the first Thursday of January). Dates late in December can therefore carry
//! the next year's week number, and dates early in January the previous
//! year's.

use crate::records::MigrateError;
use vstd::prelude::*;

verus! {

/// Whether a year is a leap year in the proleptic Gregorian calendar.
pub open spec fn is_leap_year(y: int) -> bool {
    (y % 4 == 0 && y % 100 != 0) || y % 400 == 0
}

/// Number of days in a month (1 = January .. 12 = December).
pub open spec fn days_in_month(y: int, m: int) -> int {
    if m == 2 {
        if is_leap_year(y) {
            29
        } else {
            28
        }
    } else if m == 4 || m == 6 || m == 9 || m == 11 {
        30
    } else {
        31
    }
}

/// The dates this library accepts: a real proleptic Gregorian calendar date
/// with a year in 1..=9999.
pub open spec fn valid_date(y: int, m: int, d: int) -> bool {
    &&& 1 <= y <= 9999
    &&& 1 <= m <= 12
    &&& 1 <= d <= days_in_month(y, m)
}

/// Days in the months of year `y` strictly before month `m`.
pub open spec fn days_before_month(y: int, m: int) -> int {
    let base: int = if m == 1 {
        0
    } else if m == 2 {
        31
    } else if m == 3 {
        59
    } else if m == 4 {
        90
    } else if m == 5 {
        120
    } else if m == 6 {
        151
    } else if m == 7 {
        181
    } else if m == 8 {
        212
    } else if m == 9 {
        243
    } else if m == 10 {
        273
    } else if m == 11 {
        304
    } else {
        334
    };
    if 3 <= m && is_leap_year(y) {
        base + 1
    } else {
        base
    }
}

/// Days in all years strictly before year `y`, for `y >= 1`: 365 per year
/// plus one per leap year.
pub open spec fn days_before_year(y: int) -> int {
    365 * (y - 1) + (y - 1) / 4 - (y - 1) / 100 + (y - 1) / 400
}

/// Zero-based day index of a date; day 0 is January 1 of year 1, a Monday in
/// the proleptic Gregorian calendar, so `day_number(..) % 7` is the weekday
/// with Monday as 0.
pub open spec fn day_number(y: int, m: int, d: int) -> int {
    days_before_year(y) + days_before_month(y, m) + (d - 1)
}

/// The ISO-8601 week-numbering year of a date: the calendar year containing
/// the Thursday of the date's Monday-based week.
pub open spec fn spec_iso_week_year(y: int, m: int, d: int) -> int {
    let n = day_number(y, m, d);
    let thursday = n - (n % 7) + 3;
    if thursday < days_before_year(y) {
        y - 1
    } else if thursday >= days_before_year(y + 1) {
        y + 1
    } else {
        y
    }
}

fn leap_year(y: u64) -> (b: bool)
    ensures
        b == is_leap_year(y as int),
{
    (y % 4 == 0 && y % 100 != 0) || y % 400 == 0
}

fn month_days(y: u64, m: u64) -> (r: u64)
    requires
        1 <= m <= 12,
    ensures
        r == days_in_month(y as int, m as int),
{
    if m == 2 {
        if leap_year(y) {
            29
        } else {
            28
        }
    } else if m == 4 || m == 6 || m == 9 || m == 11 {
        30
    } else {
        31
    }
}

/// Whether (year, month, day) is a date the migration accepts.
pub fn is_valid_date(year: i64, month: i64, day: i64) -> (b: bool)
    ensures
        b == valid_date(year as int, month as int, day as int),
{
    if year < 1 || year > 9999 || month < 1 || month > 12 || day < 1 {
        return false;
    }
    day <= month_days(year as u64, month as u64) as i64
}

fn year_start(y: u64) -> (r: u64)
    requires
        1 <= y <= 10000,
    ensures
        r == days_before_year(y as int),
{
    let yy = y - 1;
    proof {
        lemma_div_bounds(yy as int);
    }
    365 * yy + yy / 4 - yy / 100 + yy / 400
}

proof fn lemma_div_bounds(x: int)
    requires
        0 <= x,
    ensures
        0 <= x / 4 <= x,
        0 <= x / 100 <= x,
        0 <= x / 400 <= x,
{
    vstd::arithmetic::div_mod::lemma_div_pos_is_pos(x, 4);
    vstd::arithmetic::div_mod::lemma_div_pos_is_pos(x, 100);
    vstd::arithmetic::div_mod::lemma_div_pos_is_pos(x, 400);
    vstd::arithmetic::div_mod::lemma_div_nonincreasing(x, 4);
    vstd::arithmetic::div_mod::lemma_div_nonincreasing(x, 100);
    vstd::arithmetic::div_mod::lemma_div_nonincreasing(x, 400);
}

fn month_start(y: u64, m: u64) -> (r: u64)
    requires
        1 <= m <= 12,
    ensures
        r == days_before_month(y as int, m as int),
{
    let base: u64 = if m == 1 {
        0
    } else if m == 2 {
        31
    } else if m == 3 {
        59
    } else if m == 4 {
        90
    } else if m == 5 {
        120
    } else if m == 6 {
        151
    } else if m == 7 {
        181
    } else if m == 8 {
        212
    } else if m == 9 {
        243
    } else if m == 10 {
        273
    } else if m == 11 {
        304
    } else {
        334
    };
    if 3 <= m && leap_year(y) {
        base + 1
    } else {
        base
    }
}

/// Dividing by a positive constant steps up by exactly one each time the
/// dividend crosses a multiple of the divisor.
proof fn lemma_div_step(x: int, d: int)
    requires
        1 <= x,
        1 <= d,
    ensures
        x % d == 0 ==> x / d == (x - 1) / d + 1,
        x % d != 0 ==> x / d == (x - 1) / d,
{
    let q = (x - 1) / d;
    let r = (x - 1) % d;
    vstd::arithmetic::div_mod::lemma_fundamental_div_mod(x - 1, d);
    vstd::arithmetic::div_mod::lemma_mod_division_less_than_divisor(x - 1, d);
    assert(x == q * d + (r + 1));
    if r + 1 == d {
        assert(x == (q + 1) * d + 0) by {
            vstd::arithmetic::mul::lemma_mul_is_distributive_add_other_way(d, q, 1);
        }
        vstd::arithmetic::div_mod::lemma_fundamental_div_mod_converse_div(x, d, q + 1, 0);
        vstd::arithmetic::div_mod::lemma_fundamental_div_mod_converse_mod(x, d, q + 1, 0);
    } else {
        vstd::arithmetic::div_mod::lemma_fundamental_div_mod_converse_div(x, d, q, r + 1);
        vstd::arithmetic::div_mod::lemma_fundamental_div_mod_converse_mod(x, d, q, r + 1);
    }
}

/// Law: every calendar year spans 365 or 366 days; day numbering never skips
/// or repeats a day across a year boundary.
pub proof fn lemma_year_length(y: int)
    requires
        1 <= y,
    ensures
        365 <= days_before_year(y + 1) - days_before_year(y) <= 366,
        days_before_year(y + 1) - days_before_year(y) == if is_leap_year(y) {
            366int
        } else {
            365int
        },
{
    lemma_div_step(y, 4);
    lemma_div_step(y, 100);
    lemma_div_step(y, 400);
    if y % 100 == 0 {
        // a year divisible by 100 is divisible by 4
        vstd::arithmetic::div_mod::lemma_fundamental_div_mod(y, 100);
        assert(y == (25 * (y / 100)) * 4);
        vstd::arithmetic::div_mod::lemma_mod_multiples_basic(25 * (y / 100), 4);
    }
    if y % 400 == 0 {
        // a year divisible by 400 is divisible by 100
        vstd::arithmetic::div_mod::lemma_fundamental_div_mod(y, 400);
        assert(y == (4 * (y / 400)) * 100);
        vstd::arithmetic::div_mod::lemma_mod_multiples_basic(4 * (y / 400), 100);
    }
}

/// Law: the ISO week-numbering year of a valid date never strays more than
/// one from the date's own calendar year.
pub proof fn lemma_iso_week_year_range(y: int, m: int, d: int)
    requires
        valid_date(y, m, d),
    ensures
        y - 1 <= spec_iso_week_year(y, m, d) <= y + 1,
{
}

/// Law: a date at least three days after its year's first day and at least
/// four days before the next year's first day keeps its own calendar year as
/// its ISO week-numbering year: the Thursday of its week cannot leave the
/// year.
pub proof fn lemma_iso_week_year_interior(y: int, m: int, d: int)
    requires
        valid_date(y, m, d),
        days_before_year(y) + 3 <= day_number(y, m, d),
        day_number(y, m, d) + 4 <= days_before_year(y + 1),
    ensures
        spec_iso_week_year(y, m, d) == y,
{
    let n = day_number(y, m, d);
    vstd::arithmetic::div_mod::lemma_mod_division_less_than_divisor(n, 7);
}

/// Law: a date in the middle of the year — July 15 of any supported year —
/// always keeps its own calendar year as its ISO week-numbering year.
pub proof fn lemma_iso_week_year_midsummer(y: int)
    requires
        1 <= y <= 9999,
    ensures
        spec_iso_week_year(y, 7, 15) == y,
{
    lemma_year_length(y);
    lemma_iso_week_year_interior(y, 7, 15);
}

/// The ISO-8601 week-numbering year of a date, or `InvalidDateError` exactly
/// when the triple is not a valid date.
pub fn iso_week_year(year: i64, month: i64, day: i64) -> (r: Result<i64, MigrateError>)
    ensures
        r is Ok <==> valid_date(year as int, month as int, day as int),
        r matches Ok(v) ==> v == spec_iso_week_year(year as int, month as int, day as int),
        r matches Err(e) ==> e == MigrateError::InvalidDateError,
{
    if !is_valid_date(year, month, day) {
        return Err(MigrateError::InvalidDateError);
    }
    let y = year as u64;
    let m = month as u64;
    let d = day as u64;
    let n = year_start(y) + month_start(y, m) + (d - 1);
    let thursday = n - n % 7 + 3;
    if thursday < year_start(y) {
        Ok(year - 1)
    } else if thursday >= year_start(y + 1) {
        Ok(year + 1)
    } else {
        Ok(year)
    }
}

} // verus!

