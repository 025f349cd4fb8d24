//! The epoch-relative date-and-time value.
//!
//! A wire date counts days since 1899-12-30T00:00:00 in a double.  The
//! platform boundary converts that serial number to and from whole
//! milliseconds, rounding half away from zero; this module holds the
//! millisecond count and the verified calendar arithmetic over it.

use vstd::prelude::*;

verus! {

/// The number of days between 0001-01-01 and the epoch 1899-12-30 in the
/// proleptic Gregorian calendar.
pub const EPOCH_DAYS: i64 = 693593;

/// The number of milliseconds in one day.
pub const MILLIS_PER_DAY: i64 = 86_400_000;

/// A date and time of day, held as whole milliseconds relative to the epoch
/// 1899-12-30T00:00:00 (negative values lie before the epoch).
#[derive(Clone, Copy, Debug, PartialEq, Eq, Structural)]
pub struct DateTime {
    pub millis: i64,
}

/// A date and time of day spelled out in civil components, as read back
/// out of a [`DateTime`].
#[derive(Clone, Copy, Debug, PartialEq, Eq, Structural)]
pub struct CivilDateTime {
    pub year: i32,
    pub month: u8,
    pub day: u8,
    pub hour: u8,
    pub minute: u8,
    pub second: u8,
    pub millisecond: u16,
}

/// Whether `y` is a leap year of the proleptic Gregorian calendar.
pub open spec fn is_leap_year(y: int) -> bool {
    (y % 4 == 0 && y % 100 != 0) || y % 400 == 0
}

/// The number of days of month `m` of year `y`.
pub open spec fn days_in_month(y: int, m: int) -> int {
    if m == 2 {
        if is_leap_year(y) {
            29
        } else {
            28
        }
    } else if m == 4 || m == 6 || m == 9 || m == 11 {
        30
    } else {
        31
    }
}

/// The number of days of year `y` that precede month `m`.
pub open spec fn days_before_month(y: int, m: int) -> int {
    let base: int = if m == 1 {
        0
    } else if m == 2 {
        31
    } else if m == 3 {
        59
    } else if m == 4 {
        90
    } else if m == 5 {
        120
    } else if m == 6 {
        151
    } else if m == 7 {
        181
    } else if m == 8 {
        212
    } else if m == 9 {
        243
    } else if m == 10 {
        273
    } else if m == 11 {
        304
    } else {
        334
    };
    if m > 2 && is_leap_year(y) {
        base + 1
    } else {
        base
    }
}

/// The number of days that precede year `y`: 365 per year plus one per leap
/// year among the years before `y`.
pub open spec fn days_before_year(y: int) -> int {
    365 * (y - 1) + (y - 1) / 4 - (y - 1) / 100 + (y - 1) / 400
}

/// The day number of the civil date `y-m-d`, counted from 0001-01-01 as
/// day zero.
pub open spec fn days_from_civil(y: int, m: int, d: int) -> int {
    days_before_year(y) + days_before_month(y, m) + (d - 1)
}

/// The civil dates this module accepts: years 1 to 9999 of the proleptic
/// Gregorian calendar.
pub open spec fn valid_civil(y: int, m: int, d: int) -> bool {
    &&& 1 <= y <= 9999
    &&& 1 <= m <= 12
    &&& 1 <= d <= days_in_month(y, m)
}

/// A valid time of day, to millisecond precision.
pub open spec fn valid_time(h: int, mi: int, s: int, ms: int) -> bool {
    &&& 0 <= h < 24
    &&& 0 <= mi < 60
    &&& 0 <= s < 60
    &&& 0 <= ms < 1000
}

/// The epoch-relative millisecond count of the given civil date and time.
pub open spec fn millis_of_civil(y: int, m: int, d: int, h: int, mi: int, s: int, ms: int) -> int {
    (days_from_civil(y, m, d) - EPOCH_DAYS) * (MILLIS_PER_DAY as int) + h * 3_600_000 + mi * 60_000
        + s * 1000 + ms
}

/// The number of days of month `m` of year `y`.
pub fn days_in_month_of(y: i32, m: u8) -> (n: u8)
    requires
        1 <= m <= 12,
    ensures
        n == days_in_month(y as int, m as int),
{
    if m == 2 {
        if (y % 4 == 0 && y % 100 != 0) || y % 400 == 0 {
            29
        } else {
            28
        }
    } else if m == 4 || m == 6 || m == 9 || m == 11 {
        30
    } else {
        31
    }
}

impl DateTime {
    /// The date and time holding the given epoch-relative milliseconds.
    pub fn from_millis(millis: i64) -> (dt: DateTime)
        ensures
            dt.millis == millis,
    {
        DateTime { millis }
    }

    /// The epoch-relative millisecond count.
    pub fn millis(&self) -> (m: i64)
        ensures
            m == self.millis,
    {
        self.millis
    }

    /// The date and time of the given civil date and time of day, or `None`
    /// exactly when a component is out of range.
    pub fn from_ymd_hms_milli(y: i32, m: u8, d: u8, h: u8, mi: u8, s: u8, ms: u16) -> (r: Option<
        DateTime,
    >)
        ensures
            r is Some <==> valid_civil(y as int, m as int, d as int) && valid_time(
                h as int,
                mi as int,
                s as int,
                ms as int,
            ),
            r matches Some(dt) ==> dt.millis == millis_of_civil(
                y as int,
                m as int,
                d as int,
                h as int,
                mi as int,
                s as int,
                ms as int,
            ),
    {
        if y < 1 || y > 9999 || m < 1 || m > 12 {
            return None;
        }
        if d < 1 || d > days_in_month_of(y, m) {
            return None;
        }
        if h >= 24 || mi >= 60 || s >= 60 || ms >= 1000 {
            return None;
        }
        let yy: i64 = (y - 1) as i64;
        let before_year: i64 = 365 * yy + yy / 4 - yy / 100 + yy / 400;
        let before_month: i64 = Self::days_before_month_of(y, m);
        let days: i64 = before_year + before_month + (d - 1) as i64;
        let millis: i64 = (days - EPOCH_DAYS) * MILLIS_PER_DAY + (h as i64) * 3_600_000 + (
        mi as i64) * 60_000 + (s as i64) * 1000 + (ms as i64);
        Some(DateTime { millis })
    }

    /// The civil components this date and time spells out, or `None`
    /// exactly when it lies outside years 1 to 9999.  The contract pins
    /// every component: the result is valid and denotes this very
    /// millisecond count, and by [`lemma_civil_millis_injective`] no
    /// other valid components do.
    pub fn to_civil(&self) -> (r: Option<CivilDateTime>)
        ensures
            r is Some <==> millis_of_civil(1, 1, 1, 0, 0, 0, 0) <= self.millis <= millis_of_civil(
                9999,
                12,
                31,
                23,
                59,
                59,
                999,
            ),
            r matches Some(c) ==> valid_civil(c.year as int, c.month as int, c.day as int)
                && valid_time(
                c.hour as int,
                c.minute as int,
                c.second as int,
                c.millisecond as int,
            ) && millis_of_civil(
                c.year as int,
                c.month as int,
                c.day as int,
                c.hour as int,
                c.minute as int,
                c.second as int,
                c.millisecond as int,
            ) == self.millis,
    {
        let epoch_ms: i64 = EPOCH_DAYS * MILLIS_PER_DAY;
        let max_millis: i64 = (3_652_059 - EPOCH_DAYS) * MILLIS_PER_DAY - 1;
        proof {
            assert(days_from_civil(1, 1, 1) == 0);
            assert(days_from_civil(9999, 12, 31) == 3_652_058);
        }
        if self.millis < -epoch_ms || self.millis > max_millis {
            return None;
        }
        let total: i64 = self.millis + epoch_ms;
        let day: i64 = total / MILLIS_PER_DAY;
        let rem: i64 = total % MILLIS_PER_DAY;
        proof {
            vstd::arithmetic::div_mod::lemma_fundamental_div_mod(total as int, 86_400_000);
            vstd::arithmetic::div_mod::lemma_div_pos_is_pos(total as int, 86_400_000);
            vstd::arithmetic::div_mod::lemma_multiply_divide_lt(total as int, 86_400_000, 3_652_059);
        }
        let mut y: i64 = 1 + day / 366;
        proof {
            lemma_estimate_is_lower_bound(day as int);
            vstd::arithmetic::div_mod::lemma_div_pos_is_pos(day as int, 366);
            lemma_year_lower((y + 1) as int);
            if y > 10000 {
                lemma_days_before_year_mono(10001, y as int);
            }
        }
        while Self::days_before_year_of(y + 1) <= day
            invariant
                0 <= day <= 3_652_058,
                1 <= y <= 10000,
                days_before_year(y as int) <= day,
            decreases day + 1 - y,
        {
            y = y + 1;
            proof {
                lemma_year_lower((y + 1) as int);
                if y > 10000 {
                    lemma_days_before_year_mono(10001, y as int);
                }
            }
        }
        proof {
            if y == 10000 {
                assert(days_before_year(10000) == 3_652_059);
                assert(false);
            }
            lemma_year_step(y as int);
        }
        let doy: i64 = day - Self::days_before_year_of(y);
        let leap: bool = (y % 4 == 0 && y % 100 != 0) || y % 400 == 0;
        let leap_add: i64 = if leap {
            1
        } else {
            0
        };
        let (mo, dd): (u8, i64) = if doy < 31 {
            (1, doy + 1)
        } else if doy < 59 + leap_add {
            (2, doy - 31 + 1)
        } else if doy < 90 + leap_add {
            (3, doy - (59 + leap_add) + 1)
        } else if doy < 120 + leap_add {
            (4, doy - (90 + leap_add) + 1)
        } else if doy < 151 + leap_add {
            (5, doy - (120 + leap_add) + 1)
        } else if doy < 181 + leap_add {
            (6, doy - (151 + leap_add) + 1)
        } else if doy < 212 + leap_add {
            (7, doy - (181 + leap_add) + 1)
        } else if doy < 243 + leap_add {
            (8, doy - (212 + leap_add) + 1)
        } else if doy < 273 + leap_add {
            (9, doy - (243 + leap_add) + 1)
        } else if doy < 304 + leap_add {
            (10, doy - (273 + leap_add) + 1)
        } else if doy < 334 + leap_add {
            (11, doy - (304 + leap_add) + 1)
        } else {
            (12, doy - (334 + leap_add) + 1)
        };
        let h: i64 = rem / 3_600_000;
        let rem2: i64 = rem % 3_600_000;
        let mi: i64 = rem2 / 60_000;
        let rem3: i64 = rem2 % 60_000;
        let s: i64 = rem3 / 1000;
        let ms: i64 = rem3 % 1000;
        proof {
            vstd::arithmetic::div_mod::lemma_fundamental_div_mod(rem as int, 3_600_000);
            vstd::arithmetic::div_mod::lemma_div_pos_is_pos(rem as int, 3_600_000);
            vstd::arithmetic::div_mod::lemma_multiply_divide_lt(rem as int, 3_600_000, 24);
            vstd::arithmetic::div_mod::lemma_fundamental_div_mod(rem2 as int, 60_000);
            vstd::arithmetic::div_mod::lemma_div_pos_is_pos(rem2 as int, 60_000);
            vstd::arithmetic::div_mod::lemma_multiply_divide_lt(rem2 as int, 60_000, 60);
            vstd::arithmetic::div_mod::lemma_fundamental_div_mod(rem3 as int, 1000);
            vstd::arithmetic::div_mod::lemma_div_pos_is_pos(rem3 as int, 1000);
            vstd::arithmetic::div_mod::lemma_multiply_divide_lt(rem3 as int, 1000, 60);
        }
        Some(
            CivilDateTime {
                year: y as i32,
                month: mo,
                day: dd as u8,
                hour: h as u8,
                minute: mi as u8,
                second: s as u8,
                millisecond: ms as u16,
            },
        )
    }

    /// The number of days that precede year `y`.
    fn days_before_year_of(y: i64) -> (n: i64)
        requires
            1 <= y <= 10001,
        ensures
            n == days_before_year(y as int),
    {
        let k: i64 = y - 1;
        365 * k + k / 4 - k / 100 + k / 400
    }

    /// The number of days of year `y` that precede month `m`.
    fn days_before_month_of(y: i32, m: u8) -> (n: i64)
        requires
            1 <= m <= 12,
        ensures
            n == days_before_month(y as int, m as int),
    {
        let base: i64 = if m == 1 {
            0
        } else if m == 2 {
            31
        } else if m == 3 {
            59
        } else if m == 4 {
            90
        } else if m == 5 {
            120
        } else if m == 6 {
            151
        } else if m == 7 {
            181
        } else if m == 8 {
            212
        } else if m == 9 {
            243
        } else if m == 10 {
            273
        } else if m == 11 {
            304
        } else {
            334
        };
        if m > 2 && ((y % 4 == 0 && y % 100 != 0) || y % 400 == 0) {
            base + 1
        } else {
            base
        }
    }
}

/// The epoch is its own day zero: the formula places 1899-12-30 exactly
/// `EPOCH_DAYS` days after 0001-01-01, so its millisecond count is zero.
pub proof fn lemma_epoch_is_zero()
    ensures
        days_from_civil(1899, 12, 30) == EPOCH_DAYS,
        millis_of_civil(1899, 12, 30, 0, 0, 0, 0) == 0,
{
}

/// The number of days of year `y`.
pub open spec fn days_in_year(y: int) -> int {
    if is_leap_year(y) {
        366
    } else {
        365
    }
}

/// How a quotient grows when its dividend grows by one: by one exactly
/// when the new dividend is a multiple of the divisor.
proof fn lemma_div_step(k: int, d: int)
    requires
        d > 0,
    ensures
        (k + 1) / d == k / d + if (k + 1) % d == 0 {
            1int
        } else {
            0int
        },
{
    let q: int = k / d;
    let r: int = k % d;
    vstd::arithmetic::div_mod::lemma_fundamental_div_mod(k, d);
    if r + 1 == d {
        assert(k + 1 == (q + 1) * d + 0) by (nonlinear_arith)
            requires
                k == d * q + r,
                r + 1 == d,
        ;
        vstd::arithmetic::div_mod::lemma_fundamental_div_mod_converse(k + 1, d, q + 1, 0);
    } else {
        assert(k + 1 == q * d + (r + 1)) by (nonlinear_arith)
            requires
                k == d * q + r,
        ;
        vstd::arithmetic::div_mod::lemma_fundamental_div_mod_converse(k + 1, d, q, r + 1);
    }
}

/// A multiple of 400 is a multiple of 100 and of 4, and a multiple of
/// 100 is a multiple of 4.
proof fn lemma_leap_divisors(y: int)
    ensures
        y % 400 == 0 ==> y % 100 == 0 && y % 4 == 0,
        y % 100 == 0 ==> y % 4 == 0,
{
    if y % 400 == 0 {
        let q: int = y / 400;
        vstd::arithmetic::div_mod::lemma_fundamental_div_mod(y, 400);
        assert(y == (4 * q) * 100 + 0) by (nonlinear_arith)
            requires
                y == 400 * q,
        ;
        vstd::arithmetic::div_mod::lemma_fundamental_div_mod_converse(y, 100, 4 * q, 0);
    }
    if y % 100 == 0 {
        let q: int = y / 100;
        vstd::arithmetic::div_mod::lemma_fundamental_div_mod(y, 100);
        assert(y == (25 * q) * 4 + 0) by (nonlinear_arith)
            requires
                y == 100 * q,
        ;
        vstd::arithmetic::div_mod::lemma_fundamental_div_mod_converse(y, 4, 25 * q, 0);
    }
}

/// The day count before a year grows by exactly that year's length.
proof fn lemma_year_step(y: int)
    ensures
        days_before_year(y + 1) == days_before_year(y) + days_in_year(y),
{
    lemma_div_step(y - 1, 4);
    lemma_div_step(y - 1, 100);
    lemma_div_step(y - 1, 400);
    lemma_leap_divisors(y);
}

/// The day count before a year never shrinks as years advance, and a
/// strictly later year lies at least a full year further on.
proof fn lemma_days_before_year_mono(y1: int, y2: int)
    requires
        y1 <= y2,
    ensures
        days_before_year(y1) <= days_before_year(y2),
        y1 < y2 ==> days_before_year(y1) + days_in_year(y1) <= days_before_year(y2),
    decreases y2 - y1,
{
    if y1 < y2 {
        lemma_year_step(y1);
        lemma_days_before_year_mono(y1 + 1, y2);
    }
}

/// Starting the year search at one year per 366 days never overshoots.
proof fn lemma_estimate_is_lower_bound(day: int)
    requires
        day >= 0,
    ensures
        days_before_year(1 + day / 366) <= day,
{
    let k: int = day / 366;
    vstd::arithmetic::div_mod::lemma_div_pos_is_pos(day, 366);
    vstd::arithmetic::div_mod::lemma_div_pos_is_pos(k, 100);
    vstd::arithmetic::div_mod::lemma_fundamental_div_mod(k, 4);
    vstd::arithmetic::div_mod::lemma_fundamental_div_mod(k, 400);
    vstd::arithmetic::div_mod::lemma_div_pos_is_pos(k, 4);
    vstd::arithmetic::div_mod::lemma_div_pos_is_pos(k, 400);
    vstd::arithmetic::div_mod::lemma_fundamental_div_mod(day, 366);
    vstd::arithmetic::div_mod::lemma_mod_division_less_than_divisor(day, 366);
}

/// The day count before a month grows by exactly that month's length.
proof fn lemma_month_step(y: int, m: int)
    requires
        1 <= m <= 11,
    ensures
        days_before_month(y, m + 1) == days_before_month(y, m) + days_in_month(y, m),
{
}

/// The day count before a month never shrinks as months advance, and a
/// strictly later month lies at least a full month further on.
proof fn lemma_month_mono(y: int, m1: int, m2: int)
    requires
        1 <= m1 <= m2 <= 12,
    ensures
        days_before_month(y, m1) <= days_before_month(y, m2),
        m1 < m2 ==> days_before_month(y, m1) + days_in_month(y, m1) <= days_before_month(y, m2),
    decreases m2 - m1,
{
    if m1 < m2 {
        lemma_month_step(y, m1);
        lemma_month_mono(y, m1 + 1, m2);
    }
}

/// A valid month and day stay inside their year.
proof fn lemma_doy_in_year(y: int, m: int, d: int)
    requires
        1 <= m <= 12,
        1 <= d <= days_in_month(y, m),
    ensures
        0 <= days_before_month(y, m) + (d - 1) < days_in_year(y),
{
    lemma_month_mono(y, 1, m);
    lemma_month_mono(y, m, 12);
}

/// No two valid civil date-and-time tuples denote the same millisecond
/// count: the reading [`DateTime::to_civil`] returns is the only one its
/// contract admits.
pub proof fn lemma_civil_millis_injective(
    y1: int,
    m1: int,
    d1: int,
    h1: int,
    mi1: int,
    s1: int,
    ms1: int,
    y2: int,
    m2: int,
    d2: int,
    h2: int,
    mi2: int,
    s2: int,
    ms2: int,
)
    requires
        valid_civil(y1, m1, d1),
        valid_time(h1, mi1, s1, ms1),
        valid_civil(y2, m2, d2),
        valid_time(h2, mi2, s2, ms2),
        millis_of_civil(y1, m1, d1, h1, mi1, s1, ms1) == millis_of_civil(
            y2,
            m2,
            d2,
            h2,
            mi2,
            s2,
            ms2,
        ),
    ensures
        y1 == y2 && m1 == m2 && d1 == d2 && h1 == h2 && mi1 == mi2 && s1 == s2 && ms1 == ms2,
{
    let n1 = days_from_civil(y1, m1, d1);
    let n2 = days_from_civil(y2, m2, d2);
    let tod1 = h1 * 3_600_000 + mi1 * 60_000 + s1 * 1000 + ms1;
    let tod2 = h2 * 3_600_000 + mi2 * 60_000 + s2 * 1000 + ms2;
    assert(0 <= tod1 < 86_400_000);
    assert(0 <= tod2 < 86_400_000);
    lemma_same_multiple(n1, tod1, n2, tod2, 86_400_000);
    lemma_same_multiple(h1, mi1 * 60_000 + s1 * 1000 + ms1, h2, mi2 * 60_000 + s2 * 1000 + ms2, 3_600_000);
    lemma_same_multiple(mi1, s1 * 1000 + ms1, mi2, s2 * 1000 + ms2, 60_000);
    lemma_same_multiple(s1, ms1, s2, ms2, 1000);
    lemma_doy_in_year(y1, m1, d1);
    lemma_doy_in_year(y2, m2, d2);
    if y1 < y2 {
        lemma_days_before_year_mono(y1, y2);
        assert(false);
    }
    if y2 < y1 {
        lemma_days_before_year_mono(y2, y1);
        assert(false);
    }
    if m1 < m2 {
        lemma_month_mono(y1, m1, m2);
        assert(false);
    }
    if m2 < m1 {
        lemma_month_mono(y1, m2, m1);
        assert(false);
    }
}

/// Two quotient-remainder sums over the same unit agree part by part.
proof fn lemma_same_multiple(q1: int, r1: int, q2: int, r2: int, unit: int)
    requires
        unit > 0,
        0 <= r1 < unit,
        0 <= r2 < unit,
        q1 * unit + r1 == q2 * unit + r2,
    ensures
        q1 == q2 && r1 == r2,
{
    assert((q1 - q2) * unit == r2 - r1) by (nonlinear_arith)
        requires
            q1 * unit + r1 == q2 * unit + r2,
    ;
    if q1 > q2 {
        assert((q1 - q2) * unit >= unit) by (nonlinear_arith)
            requires
                q1 - q2 >= 1,
                unit > 0,
        ;
        assert(false);
    }
    if q2 > q1 {
        assert((q1 - q2) * unit <= -unit) by (nonlinear_arith)
            requires
                q2 - q1 >= 1,
                unit > 0,
        ;
        assert(false);
    }
}

/// Every year takes at least one day: the day count before year `y`
/// reaches at least `y - 1`.
proof fn lemma_year_lower(y: int)
    requires
        y >= 1,
    ensures
        days_before_year(y) >= y - 1,
{
    let k: int = y - 1;
    vstd::arithmetic::div_mod::lemma_div_pos_is_pos(k, 4);
    vstd::arithmetic::div_mod::lemma_div_pos_is_pos(k, 400);
    vstd::arithmetic::div_mod::lemma_div_nonincreasing(k, 100);
}

} // verus!
