//! Calendar time: the fields of a date and time of day, and the conversion
//! of a Unix timestamp to UTC calendar fields (Gregorian calendar).
use vstd::prelude::*;

use vstd::arithmetic::div_mod::{lemma_fundamental_div_mod, lemma_fundamental_div_mod_converse};

verus! {

/// A date and time of day, to the millisecond.
#[derive(Debug, Clone, Copy, PartialEq, Eq)]
pub struct LocalTime {
    pub year: u32,
    /// 1 to 12.
    pub month: u32,
    /// 1 to the length of the month.
    pub day: u32,
    /// 0 to 23.
    pub hour: u32,
    /// 0 to 59.
    pub minute: u32,
    /// 0 to 59.
    pub second: u32,
    /// 0 to 999.
    pub millisecond: u32,
}

/// Whether `y` is a Gregorian leap year.
pub open spec fn is_leap(y: int) -> bool {
    y % 4 == 0 && (y % 100 != 0 || y % 400 == 0)
}

/// The number of days in year `y`.
pub open spec fn year_days(y: int) -> int {
    if is_leap(y) {
        366
    } else {
        365
    }
}

/// The number of days in month `m` (1 to 12) of year `y`.
pub open spec fn month_days(y: int, m: int) -> int {
    if m == 2 {
        if is_leap(y) {
            29
        } else {
            28
        }
    } else if m == 4 || m == 6 || m == 9 || m == 11 {
        30
    } else {
        31
    }
}

/// The number of days from 1 January 1970 to 1 January of year `y`
/// (`y` from 1970 on).
pub open spec fn days_before_year(y: int) -> int
    decreases y - 1970,
{
    if y <= 1970 {
        0
    } else {
        days_before_year(y - 1) + year_days(y - 1)
    }
}

/// The number of days in year `y` before the first of month `m`.
pub open spec fn days_before_month(y: int, m: int) -> int
    decreases m,
{
    if m <= 1 {
        0
    } else {
        days_before_month(y, m - 1) + month_days(y, m - 1)
    }
}

/// Whether `t` is a real UTC date and time from 1970 on.
pub open spec fn is_valid_time(t: LocalTime) -> bool {
    &&& t.year >= 1970
    &&& 1 <= t.month <= 12
    &&& 1 <= t.day <= month_days(t.year as int, t.month as int)
    &&& t.hour < 24
    &&& t.minute < 60
    &&& t.second < 60
    &&& t.millisecond < 1000
}

/// The milliseconds since the Unix epoch of the UTC time `t`.
pub open spec fn unix_millis_of(t: LocalTime) -> int {
    let days = days_before_year(t.year as int) + days_before_month(t.year as int, t.month as int)
        + t.day - 1;
    ((days * 24 + t.hour) * 60 + t.minute) * 60000 + t.second * 1000 + t.millisecond
}

/// The twelve months add up to the year.
proof fn lemma_months_fill_year(y: int)
    ensures
        days_before_month(y, 12) + month_days(y, 12) == year_days(y),
{
    reveal_with_fuel(days_before_month, 12);
}

fn leap(y: u64) -> (b: bool)
    ensures
        b == is_leap(y as int),
{
    y % 4 == 0 && (y % 100 != 0 || y % 400 == 0)
}

fn year_length(y: u64) -> (d: u64)
    ensures
        d == year_days(y as int),
{
    if leap(y) {
        366
    } else {
        365
    }
}

fn days_in_month(y: u64, m: u64) -> (d: u64)
    ensures
        d == month_days(y as int, m as int),
{
    if m == 2 {
        if leap(y) {
            29
        } else {
            28
        }
    } else if m == 4 || m == 6 || m == 9 || m == 11 {
        30
    } else {
        31
    }
}

/// The UTC calendar fields of the instant `millis` milliseconds after the
/// Unix epoch (for years that fit in a `u32`).
pub fn utc_time(millis: u64) -> (t: LocalTime)
    ensures
        is_valid_time(t),
        unix_millis_of(t) == millis,
{
    let total_days = millis / 86_400_000;
    let rem = millis % 86_400_000;
    let mut days = total_days;
    let mut y: u64 = 1970;
    while days >= year_length(y)
        invariant
            1970 <= y,
            (y - 1970) * 365 <= total_days - days,
            days <= total_days,
            total_days <= u64::MAX / 86_400_000,
            days_before_year(y as int) + days == total_days,
        decreases days,
    {
        days = days - year_length(y);
        y = y + 1;
    }
    let mut m: u64 = 1;
    let mut d = days;
    proof {
        lemma_months_fill_year(y as int);
    }
    while d >= days_in_month(y, m)
        invariant
            1 <= m <= 12,
            days_before_month(y as int, m as int) + d == days,
            days < year_days(y as int),
            days_before_month(y as int, 12) + month_days(y as int, 12) == year_days(y as int),
        decreases 12 - m,
    {
        d = d - days_in_month(y, m);
        proof {
            if m == 12 {
                assert(false);
            }
        }
        m = m + 1;
    }
    let hour = rem / 3_600_000;
    let minute = rem % 3_600_000 / 60_000;
    let second = rem % 60_000 / 1000;
    let millisecond = rem % 1000;
    assert(y <= u32::MAX) by (nonlinear_arith)
        requires
            (y - 1970) * 365 <= total_days,
            1970 <= y,
            total_days <= u64::MAX / 86_400_000,
    ;
    let t = LocalTime {
        year: y as u32,
        month: m as u32,
        day: (d + 1) as u32,
        hour: hour as u32,
        minute: minute as u32,
        second: second as u32,
        millisecond: millisecond as u32,
    };
    assert(rem == ((hour * 60 + minute) * 60000 + second * 1000 + millisecond)) by (nonlinear_arith)
        requires
            rem < 86_400_000,
            hour == rem / 3_600_000,
            minute == rem % 3_600_000 / 60_000,
            second == rem % 60_000 / 1000,
            millisecond == rem % 1000,
    ;
    assert(millis == total_days * 86_400_000 + rem) by (nonlinear_arith)
        requires
            total_days == millis / 86_400_000,
            rem == millis % 86_400_000,
    ;
    assert(unix_millis_of(t) == total_days * 86_400_000 + rem) by (nonlinear_arith)
        requires
            unix_millis_of(t) == ((total_days * 24 + hour) * 60 + minute) * 60000 + second * 1000
                + millisecond,
            rem == ((hour * 60 + minute) * 60000 + second * 1000 + millisecond),
    ;
    t
}


/// Days before a later month include the whole of an earlier month.
proof fn lemma_month_order(y: int, m1: int, m2: int)
    requires
        1 <= m1 < m2,
    ensures
        days_before_month(y, m1) + month_days(y, m1) <= days_before_month(y, m2),
    decreases m2,
{
    if m2 > m1 + 1 {
        lemma_month_order(y, m1, m2 - 1);
    }
}

/// Days before a later year include the whole of an earlier year.
proof fn lemma_year_order(y1: int, y2: int)
    requires
        1970 <= y1 < y2,
    ensures
        days_before_year(y1) + year_days(y1) <= days_before_year(y2),
    decreases y2,
{
    if y2 > y1 + 1 {
        lemma_year_order(y1, y2 - 1);
    }
}

/// The day of the year of a valid time lies within its year.
proof fn lemma_day_in_year(t: LocalTime)
    requires
        is_valid_time(t),
    ensures
        0 <= days_before_month(t.year as int, t.month as int) + t.day - 1 < year_days(
            t.year as int,
        ),
{
    let y = t.year as int;
    let m = t.month as int;
    lemma_months_fill_year(y);
    if m < 12 {
        lemma_month_order(y, m, 12);
    }
    assert(days_before_month(y, m) >= 0) by {
        lemma_month_nonneg(y, m);
    }
}

proof fn lemma_month_nonneg(y: int, m: int)
    ensures
        days_before_month(y, m) >= 0,
    decreases m,
{
    if m > 1 {
        lemma_month_nonneg(y, m - 1);
    }
}

/// Different valid times are different instants: a valid time is the only
/// one at its number of milliseconds since the epoch, so `utc_time` has a
/// single possible result.
pub proof fn law_valid_times_are_distinct_instants(a: LocalTime, b: LocalTime)
    requires
        is_valid_time(a),
        is_valid_time(b),
        unix_millis_of(a) == unix_millis_of(b),
    ensures
        a == b,
{
    let ya = a.year as int;
    let yb = b.year as int;
    let doy_a = days_before_month(ya, a.month as int) + a.day - 1;
    let doy_b = days_before_month(yb, b.month as int) + b.day - 1;
    let da = days_before_year(ya) + doy_a;
    let db = days_before_year(yb) + doy_b;
    let ta = (a.hour * 60 + a.minute) * 60000 + a.second * 1000 + a.millisecond;
    let tb = (b.hour * 60 + b.minute) * 60000 + b.second * 1000 + b.millisecond;
    assert(unix_millis_of(a) == da * 86_400_000 + ta) by (nonlinear_arith)
        requires
            unix_millis_of(a) == ((da * 24 + a.hour) * 60 + a.minute) * 60000 + a.second * 1000
                + a.millisecond,
            ta == (a.hour * 60 + a.minute) * 60000 + a.second * 1000 + a.millisecond,
    ;
    assert(unix_millis_of(b) == db * 86_400_000 + tb) by (nonlinear_arith)
        requires
            unix_millis_of(b) == ((db * 24 + b.hour) * 60 + b.minute) * 60000 + b.second * 1000
                + b.millisecond,
            tb == (b.hour * 60 + b.minute) * 60000 + b.second * 1000 + b.millisecond,
    ;
    assert(0 <= ta < 86_400_000);
    assert(0 <= tb < 86_400_000);
    assert(da == db && ta == tb) by (nonlinear_arith)
        requires
            da * 86_400_000 + ta == db * 86_400_000 + tb,
            0 <= ta < 86_400_000,
            0 <= tb < 86_400_000,
    ;
    assert(a.hour == b.hour && a.minute == b.minute && a.second == b.second && a.millisecond
        == b.millisecond) by (nonlinear_arith)
        requires
            (a.hour * 60 + a.minute) * 60000 + a.second * 1000 + a.millisecond == (b.hour * 60
                + b.minute) * 60000 + b.second * 1000 + b.millisecond,
            a.minute < 60,
            b.minute < 60,
            a.second < 60,
            b.second < 60,
            a.millisecond < 1000,
            b.millisecond < 1000,
    ;
    lemma_day_in_year(a);
    lemma_day_in_year(b);
    if ya < yb {
        lemma_year_order(ya, yb);
    } else if yb < ya {
        lemma_year_order(yb, ya);
    }
    assert(ya == yb);
    let ma = a.month as int;
    let mb = b.month as int;
    if ma < mb {
        lemma_month_order(ya, ma, mb);
    } else if mb < ma {
        lemma_month_order(ya, mb, ma);
    }
    assert(ma == mb);
}


/// The Gregorian calendar's month starts: in a common year the months begin
/// on days 0, 31, 59, 90, 120, 151, 181, 212, 243, 273, 304 and 334 of the
/// year, and from March on one day later in a leap year; the twelve months
/// make up the year.
pub proof fn law_gregorian_month_starts(y: int)
    ensures
        ({
            let l: int = if is_leap(y) {
                1
            } else {
                0
            };
            &&& days_before_month(y, 1) == 0
            &&& days_before_month(y, 2) == 31
            &&& days_before_month(y, 3) == 59 + l
            &&& days_before_month(y, 4) == 90 + l
            &&& days_before_month(y, 5) == 120 + l
            &&& days_before_month(y, 6) == 151 + l
            &&& days_before_month(y, 7) == 181 + l
            &&& days_before_month(y, 8) == 212 + l
            &&& days_before_month(y, 9) == 243 + l
            &&& days_before_month(y, 10) == 273 + l
            &&& days_before_month(y, 11) == 304 + l
            &&& days_before_month(y, 12) == 334 + l
            &&& days_before_month(y, 13) == 365 + l
            &&& year_days(y) == 365 + l
        }),
{
    reveal_with_fuel(days_before_month, 13);
}

/// The number of Gregorian leap years before year `y` (from year 1 on):
/// every fourth year, except centuries not divisible by 400.
pub open spec fn leap_years_before(y: int) -> int {
    (y - 1) / 4 - (y - 1) / 100 + (y - 1) / 400
}

proof fn lemma_div_step(y: int, d: int)
    requires
        y >= 1,
        d > 0,
    ensures
        y / d - (y - 1) / d == (if y % d == 0 {
            1int
        } else {
            0int
        }),
{
    lemma_fundamental_div_mod(y - 1, d);
    let q = (y - 1) / d;
    let r = (y - 1) % d;
    assert((q + 1) * d == d * q + d) by (nonlinear_arith);
    assert(q * d == d * q) by (nonlinear_arith);
    if r == d - 1 {
        lemma_fundamental_div_mod_converse(y, d, q + 1, 0);
    } else {
        lemma_fundamental_div_mod_converse(y, d, q, r + 1);
    }
}

/// Each year from 1970 on adds 365 days and one more for each leap year:
/// the days before year `y` are `365 * (y - 1970)` plus the leap years
/// between 1970 and `y`.
pub proof fn law_days_before_year(y: int)
    requires
        y >= 1970,
    ensures
        days_before_year(y) == 365 * (y - 1970) + leap_years_before(y) - leap_years_before(1970),
    decreases y - 1970,
{
    if y > 1970 {
        law_days_before_year(y - 1);
        lemma_div_step(y - 1, 4);
        lemma_div_step(y - 1, 100);
        lemma_div_step(y - 1, 400);
        assert(is_leap(y - 1) <==> ((y - 1) % 4 == 0 && ((y - 1) % 100 != 0 || (y - 1) % 400
            == 0)));
        if (y - 1) % 100 == 0 {
            assert((y - 1) % 4 == 0) by {
                lemma_fundamental_div_mod(y - 1, 100);
                lemma_fundamental_div_mod_converse(y - 1, 4, ((y - 1) / 100) * 25, 0);
            }
        }
        if (y - 1) % 400 == 0 {
            assert((y - 1) % 100 == 0) by {
                lemma_fundamental_div_mod(y - 1, 400);
                lemma_fundamental_div_mod_converse(y - 1, 100, ((y - 1) / 400) * 4, 0);
            }
        }
    }
}

/// Midnight UTC on 1 October 2026 is 1790812800000 milliseconds after the
/// epoch: the month and year lengths above, anchored to the clock.
pub proof fn law_calendar_anchor()
    ensures
        unix_millis_of(
            LocalTime {
                year: 2026,
                month: 10,
                day: 1,
                hour: 0,
                minute: 0,
                second: 0,
                millisecond: 0,
            },
        ) == 1790812800000,
{
    law_days_before_year(2026);
    law_gregorian_month_starts(2026);
    assert(!is_leap(2026));
    assert(leap_years_before(2026) - leap_years_before(1970) == 14);
}

} // verus!
