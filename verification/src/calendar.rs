//! The proleptic Gregorian calendar: day numbers relative to 1970-01-01,
//! and the day-number-to-date conversion used to render timestamps.
use vstd::prelude::*;

use crate::text::{decimal, digits_value, lemma_zero_pad_value, pow10, zero_pad};

verus! {

/// Gregorian leap-year rule.
pub open spec fn is_leap_year(y: int) -> bool {
    y % 4 == 0 && (y % 100 != 0 || y % 400 == 0)
}

/// Number of days in month `m` (1..=12) of year `y`.
pub open spec fn days_in_month(y: int, m: int) -> int {
    if m == 2 {
        if is_leap_year(y) {
            29
        } else {
            28
        }
    } else if m == 4 || m == 6 || m == 9 || m == 11 {
        30
    } else {
        31
    }
}

/// Days before the first of month `m` (1..=12) in a common year.
pub open spec fn common_days_before_month(m: int) -> int {
    if m <= 1 {
        0
    } else if m == 2 {
        31
    } else if m == 3 {
        59
    } else if m == 4 {
        90
    } else if m == 5 {
        120
    } else if m == 6 {
        151
    } else if m == 7 {
        181
    } else if m == 8 {
        212
    } else if m == 9 {
        243
    } else if m == 10 {
        273
    } else if m == 11 {
        304
    } else {
        334
    }
}

/// Days of year `y` that come before the first of month `m` (1..=12).
pub open spec fn days_before_month(y: int, m: int) -> int {
    common_days_before_month(m) + if m > 2 && is_leap_year(y) {
        1int
    } else {
        0int
    }
}

/// Count of leap years among the years `1 ..= y - 1`, extended to all `y`
/// so that each step from `y` to `y + 1` adds one exactly when `y` is leap.
pub open spec fn leap_years_before(y: int) -> int {
    (y - 1) / 4 - (y - 1) / 100 + (y - 1) / 400
}

/// The number of days from 1970-01-01 to the date `y`-`m`-`d`
/// (negative for earlier dates).
pub open spec fn days_from_civil(y: int, m: int, d: int) -> int {
    365 * (y - 1970) + leap_years_before(y) - leap_years_before(1970) + days_before_month(y, m)
        + d - 1
}

/// `m`/`d` name an existing day of year `y`.
pub open spec fn is_valid_date(y: int, m: int, d: int) -> bool {
    1 <= m <= 12 && 1 <= d <= days_in_month(y, m)
}

/// The calendar date (year, month, day) whose day number is `days`.
pub open spec fn civil_date(days: int) -> (int, int, int) {
    choose|t: (int, int, int)| is_valid_date(t.0, t.1, t.2) && days_from_civil(t.0, t.1, t.2) == days
}

/// Days before the start of March-based year `k` (0..=400) of a 400-year era.
pub open spec fn era_year_start(k: int) -> int {
    365 * k + k / 4 - k / 100
}

/// The March-based year `k` of an era ends with a February 29.
pub open spec fn era_year_is_long(k: int) -> bool {
    (k + 1) % 4 == 0 && ((k + 1) % 100 != 0 || k == 399)
}

/// Within an era, the year index computed from the day of the era brackets it.
proof fn lemma_year_of_era(doe: int)
    requires
        0 <= doe <= 146096,
    ensures
        ({
            let yoe = (doe - doe / 1460 + doe / 36524 - doe / 146096) / 365;
            &&& 0 <= yoe <= 399
            &&& era_year_start(yoe) <= doe
            &&& doe < era_year_start(yoe) + 365 + if era_year_is_long(yoe) {
                1int
            } else {
                0int
            }
        }),
{
}

/// Within a March-based year, the month index and day computed from the day
/// of the year lie inside that month.
proof fn lemma_month_of_year(doy: int, long_year: bool)
    requires
        0 <= doy < 365 + if long_year {
            1int
        } else {
            0int
        },
    ensures
        ({
            let mp = (5 * doy + 2) / 153;
            let d = doy - (153 * mp + 2) / 5 + 1;
            &&& 0 <= mp <= 11
            &&& 1 <= d
            &&& mp < 10 ==> (153 * mp + 2) / 5 == common_days_before_month(mp + 3) - 59
                && d <= days_in_month(2001, mp + 3)
            &&& mp == 10 ==> (153 * mp + 2) / 5 == 306 && d <= 31
            &&& mp == 11 ==> (153 * mp + 2) / 5 == 337 && d <= 28 + if long_year {
                1int
            } else {
                0int
            }
        }),
{
    let mp = (5 * doy + 2) / 153;
    assert(0 <= mp <= 11);
    assert(153 * mp <= 5 * doy + 2 < 153 * mp + 153);
}

/// Splitting a year into 400-year eras: the leap-year count before the
/// March-based year `era * 400 + yoe` ends.
proof fn lemma_leap_years_in_era(era: int, yoe: int)
    requires
        0 <= yoe <= 399,
    ensures
        leap_years_before(era * 400 + yoe + 1) == 97 * era + yoe / 4 - yoe / 100,
{
    let y = era * 400 + yoe;
    assert(y / 4 == 100 * era + yoe / 4);
    assert(y / 100 == 4 * era + yoe / 100);
    assert(y / 400 == era);
}

/// One step of `leap_years_before` adds one exactly in a leap year.
pub proof fn lemma_leap_years_step(y: int)
    ensures
        leap_years_before(y + 1) == leap_years_before(y) + if is_leap_year(y) {
            1int
        } else {
            0int
        },
{
    lemma_floor_step(y, 4);
    lemma_floor_step(y, 100);
    lemma_floor_step(y, 400);
    lemma_divides_chain(y);
}

/// Stepping from `y - 1` to `y` raises `y / k` by one exactly when `k`
/// divides `y`.
proof fn lemma_floor_step(y: int, k: int)
    requires
        k > 0,
    ensures
        y / k - (y - 1) / k == if y % k == 0 {
            1int
        } else {
            0int
        },
{
    vstd::arithmetic::div_mod::lemma_fundamental_div_mod(y, k);
    vstd::arithmetic::div_mod::lemma_fundamental_div_mod(y - 1, k);
    let q = y / k;
    let r = y % k;
    if r == 0 {
        assert((q - 1) * k + (k - 1) == y - 1) by (nonlinear_arith)
            requires
                y == k * q + r,
                r == 0,
        ;
        vstd::arithmetic::div_mod::lemma_fundamental_div_mod_converse(y - 1, k, q - 1, k - 1);
    } else {
        assert(q * k + (r - 1) == y - 1) by (nonlinear_arith)
            requires
                y == k * q + r,
        ;
        vstd::arithmetic::div_mod::lemma_fundamental_div_mod_converse(y - 1, k, q, r - 1);
    }
}

/// Multiples of 400 are multiples of 100, and those of 100 are multiples of 4.
proof fn lemma_divides_chain(y: int)
    ensures
        y % 400 == 0 ==> y % 100 == 0,
        y % 100 == 0 ==> y % 4 == 0,
{
    if y % 400 == 0 {
        vstd::arithmetic::div_mod::lemma_fundamental_div_mod(y, 400);
        vstd::arithmetic::div_mod::lemma_mod_multiples_vanish(4 * (y / 400), 0, 100);
        assert(100 * (4 * (y / 400)) + 0 == y);
    }
    if y % 100 == 0 {
        vstd::arithmetic::div_mod::lemma_fundamental_div_mod(y, 100);
        vstd::arithmetic::div_mod::lemma_mod_multiples_vanish(25 * (y / 100), 0, 4);
        assert(4 * (25 * (y / 100)) + 0 == y);
    }
}

/// The March-based year `yoe` of an era is long exactly when the calendar
/// year in which it ends is a leap year.
proof fn lemma_era_leap(era: int, yoe: int)
    requires
        0 <= yoe <= 399,
    ensures
        is_leap_year(era * 400 + yoe + 1) == era_year_is_long(yoe),
{
    let y1 = era * 400 + yoe + 1;
    vstd::arithmetic::div_mod::lemma_mod_multiples_vanish(era * 100, yoe + 1, 4);
    vstd::arithmetic::div_mod::lemma_mod_multiples_vanish(era * 4, yoe + 1, 100);
    vstd::arithmetic::div_mod::lemma_mod_multiples_vanish(era, yoe + 1, 400);
    assert(4 * (era * 100) + (yoe + 1) == y1);
    assert(100 * (era * 4) + (yoe + 1) == y1);
    assert(400 * era + (yoe + 1) == y1);
}

/// Day number of the date reached `doy` days after March 1 of year `y`,
/// written with the month and day that `hinnant_civil` derives.
proof fn lemma_day_number(era: int, yoe: int, doy: int, mp: int, d: int)
    requires
        0 <= yoe <= 399,
        0 <= mp <= 11,
        d == doy - (153 * mp + 2) / 5 + 1,
        mp < 10 ==> (153 * mp + 2) / 5 == common_days_before_month(mp + 3) - 59,
        mp == 10 ==> (153 * mp + 2) / 5 == 306,
        mp == 11 ==> (153 * mp + 2) / 5 == 337,
    ensures
        ({
            let y = yoe + era * 400;
            let m = mp + if mp < 10 {
                3int
            } else {
                -9int
            };
            let year = y + if m <= 2 {
                1int
            } else {
                0int
            };
            days_from_civil(year, m, d) == era * 146097 + 365 * yoe + yoe / 4 - yoe / 100 + doy
                - 719468
        }),
{
    let y = yoe + era * 400;
    lemma_leap_years_in_era(era, yoe);
    lemma_leap_years_step(y);
    assert(leap_years_before(1970) == 477);
    if mp >= 10 {
        lemma_leap_years_step(y + 1);
    }
}

/// Howard Hinnant's `civil_from_days` arithmetic in mathematical integers,
/// its era being the floor of `z / 146097` (which his truncating division of
/// `z - 146096` for negative `z` computes).
spec fn hinnant_civil(days: int) -> (int, int, int) {
    let z = days + 719468;
    let era = z / 146097;
    let doe = z - era * 146097;
    let yoe = (doe - doe / 1460 + doe / 36524 - doe / 146096) / 365;
    let y = yoe + era * 400;
    let doy = doe - (365 * yoe + yoe / 4 - yoe / 100);
    let mp = (5 * doy + 2) / 153;
    let d = doy - (153 * mp + 2) / 5 + 1;
    let m = mp + if mp < 10 {
        3int
    } else {
        -9int
    };
    let year = y + if m <= 2 {
        1int
    } else {
        0int
    };
    (year, m, d)
}

/// Hinnant's arithmetic gives a valid date whose day number is the input.
proof fn lemma_hinnant_civil(days: int)
    ensures
        ({
            let (y, m, d) = hinnant_civil(days);
            is_valid_date(y, m, d) && days_from_civil(y, m, d) == days
        }),
{
    let z = days + 719468;
    let era = z / 146097;
    let doe = z - era * 146097;
    lemma_year_of_era(doe);
    let yoe = (doe - doe / 1460 + doe / 36524 - doe / 146096) / 365;
    let doy = doe - (365 * yoe + yoe / 4 - yoe / 100);
    let long = era_year_is_long(yoe);
    lemma_month_of_year(doy, long);
    let mp = (5 * doy + 2) / 153;
    let d = doy - (153 * mp + 2) / 5 + 1;
    lemma_day_number(era, yoe, doy, mp, d);
    lemma_era_leap(era, yoe);
}

/// The first of January of year `y` is `365` or `366` days before that of
/// year `y + 1`, depending on whether `y` is leap.
proof fn lemma_year_length(y: int)
    ensures
        days_from_civil(y + 1, 1, 1) == days_from_civil(y, 1, 1) + 365 + if is_leap_year(y) {
            1int
        } else {
            0int
        },
{
    lemma_leap_years_step(y);
}

/// The first of January moves forward with the year.
proof fn lemma_year_start_monotone(a: int, b: int)
    requires
        a <= b,
    ensures
        days_from_civil(a, 1, 1) <= days_from_civil(b, 1, 1),
    decreases b - a,
{
    if a < b {
        lemma_year_start_monotone(a, b - 1);
        lemma_year_length(b - 1);
    }
}

/// A valid date of year `y` lies between the first of January of `y` and
/// that of `y + 1`.
proof fn lemma_date_within_year(y: int, m: int, d: int)
    requires
        is_valid_date(y, m, d),
    ensures
        days_from_civil(y, 1, 1) <= days_from_civil(y, m, d) < days_from_civil(y + 1, 1, 1),
{
    lemma_year_length(y);
}

/// Distinct valid dates have distinct day numbers.
pub proof fn lemma_days_from_civil_injective(y1: int, m1: int, d1: int, y2: int, m2: int, d2: int)
    requires
        is_valid_date(y1, m1, d1),
        is_valid_date(y2, m2, d2),
        days_from_civil(y1, m1, d1) == days_from_civil(y2, m2, d2),
    ensures
        y1 == y2 && m1 == m2 && d1 == d2,
{
    lemma_date_within_year(y1, m1, d1);
    lemma_date_within_year(y2, m2, d2);
    if y1 < y2 {
        lemma_year_start_monotone(y1 + 1, y2);
    } else if y2 < y1 {
        lemma_year_start_monotone(y2 + 1, y1);
    }
    assert(y1 == y2);
}

/// Every day number names exactly one valid date, and `civil_date` is it.
pub proof fn lemma_civil_date(days: int)
    ensures
        ({
            let (y, m, d) = civil_date(days);
            is_valid_date(y, m, d) && days_from_civil(y, m, d) == days
        }),
        forall|y: int, m: int, d: int|
            is_valid_date(y, m, d) && days_from_civil(y, m, d) == days ==> civil_date(days) == (
            y,
            m,
            d,
        ),
{
    lemma_hinnant_civil(days);
    let w = hinnant_civil(days);
    assert(is_valid_date(w.0, w.1, w.2) && days_from_civil(w.0, w.1, w.2) == days);
    let c = civil_date(days);
    assert forall|y: int, m: int, d: int|
        is_valid_date(y, m, d) && days_from_civil(y, m, d) == days implies civil_date(days) == (
        y,
        m,
        d,
    ) by {
        lemma_days_from_civil_injective(c.0, c.1, c.2, y, m, d);
    }
}

/// The day numbers on which the `i64` arithmetic of `civil_from_days` stays
/// in range (outside them the arithmetic overflows).
pub open spec fn civil_from_days_fits(days: int) -> bool {
    let z = days + 719468;
    &&& z <= i64::MAX
    &&& z < 0 ==> z - 146096 >= i64::MIN
}

/// Division truncating toward zero (Rust's `/` on `i64`), for a positive
/// divisor.
pub open spec fn trunc_div(a: int, b: int) -> int {
    if a >= 0 {
        a / b
    } else {
        -((-a) / b)
    }
}

/// `i64` division, truncating toward zero, for a positive divisor.
fn div_trunc(a: i64, b: i64) -> (q: i64)
    requires
        b > 0,
    ensures
        q == trunc_div(a as int, b as int),
{
    if a < 0 {
        assert(0 <= (-(a as int)) / (b as int) <= -(a as int)) by (nonlinear_arith)
            requires
                b > 0,
                a < 0,
        ;
    } else {
        assert(0 <= (a as int) / (b as int) <= a) by (nonlinear_arith)
            requires
                b > 0,
                a >= 0,
        ;
    }
    match a.checked_div(b) {
        Some(q) => q,
        None => 0,
    }
}

/// Hinnant's era: truncating division of `z`, or of `z - 146096` when `z`
/// is negative, by 146097 is the floor of `z / 146097`.
proof fn lemma_era_is_floor(z: int)
    ensures
        trunc_div(
            if z >= 0 {
                z
            } else {
                z - 146096
            },
            146097,
        ) == z / 146097,
{
    if z < 0 {
        let w = -z;
        let q = (w + 146096) / 146097;
        vstd::arithmetic::div_mod::lemma_fundamental_div_mod(w + 146096, 146097);
        let r = (w + 146096) % 146097;
        assert(z == 146097 * (-q) + (146096 - r));
        vstd::arithmetic::div_mod::lemma_fundamental_div_mod_converse(z, 146097, -q, 146096 - r);
    }
}

/// `i64::div_euclid` for a positive divisor.
pub(crate) fn div_euclid(a: i64, b: i64) -> (q: i64)
    requires
        b > 0,
    ensures
        q == a / b,
{
    assert(i64::MIN <= a / b <= i64::MAX) by (nonlinear_arith)
        requires
            b > 0,
            i64::MIN <= a <= i64::MAX,
    ;
    match a.checked_div_euclid(b) {
        Some(q) => q,
        None => 0,
    }
}

/// Converts a count of days since 1970-01-01 into the proleptic Gregorian
/// (year, month, day), with Howard Hinnant's `civil_from_days`.
pub fn civil_from_days(days_since_epoch: i64) -> (r: (i64, i64, i64))
    requires
        civil_from_days_fits(days_since_epoch as int),
    ensures
        (r.0 as int, r.1 as int, r.2 as int) == civil_date(days_since_epoch as int),
{
    let z: i64 = days_since_epoch + 719_468;
    let era: i64 = div_trunc(
        if z >= 0 {
            z
        } else {
            z - 146_096
        },
        146_097,
    );
    proof {
        lemma_era_is_floor(z as int);
    }
    assert(era * 146097 <= z < era * 146097 + 146097) by (nonlinear_arith)
        requires
            era == (z as int) / 146097,
    ;
    let doe: i64 = z - era * 146_097;
    assert(0 <= doe < 146097);
    let yoe: i64 = div_euclid(doe - doe / 1460 + doe / 36_524 - doe / 146_096, 365);
    let y: i64 = yoe + era * 400;
    let doy: i64 = doe - (365 * yoe + yoe / 4 - yoe / 100);
    let mp: i64 = div_euclid(5 * doy + 2, 153);
    let d: i64 = doy - div_euclid(153 * mp + 2, 5) + 1;
    let m: i64 = mp + if mp < 10 {
        3
    } else {
        -9
    };
    let year: i64 = y + if m <= 2 {
        1
    } else {
        0
    };
    proof {
        lemma_civil_date(days_since_epoch as int);
        lemma_hinnant_civil(days_since_epoch as int);
        let w = hinnant_civil(days_since_epoch as int);
        assert((year as int, m as int, d as int) == w);
    }
    (year, m, d)
}

/// The date of a day number lies in year `lo ..= hi` when the day number lies
/// between the first of January of `lo` and that of `hi + 1`.
pub proof fn lemma_civil_date_year_range(days: int, lo: int, hi: int)
    requires
        days_from_civil(lo, 1, 1) <= days < days_from_civil(hi + 1, 1, 1),
    ensures
        lo <= civil_date(days).0 <= hi,
{
    lemma_civil_date(days);
    let (y, m, d) = civil_date(days);
    lemma_date_within_year(y, m, d);
    if y < lo {
        lemma_year_start_monotone(y + 1, lo);
    }
    if y > hi {
        lemma_year_start_monotone(hi + 1, y);
    }
}

/// `YYYY-MM-DDTHH:MM:SS` of a time given in seconds since the epoch: the
/// calendar date of its day and the time of day, each field zero-padded
/// (the year to four digits, the others to two).
pub open spec fn datetime_text(seconds: int) -> Seq<char> {
    let date = civil_date(seconds / 86400);
    let secs_of_day = seconds % 86400;
    zero_pad(decimal(date.0 as nat), 4) + seq!['-'] + zero_pad(decimal(date.1 as nat), 2) + seq![
        '-',
    ] + zero_pad(decimal(date.2 as nat), 2) + seq!['T'] + zero_pad(
        decimal((secs_of_day / 3600) as nat),
        2,
    ) + seq![':'] + zero_pad(decimal(((secs_of_day % 3600) / 60) as nat), 2) + seq![':']
        + zero_pad(decimal((secs_of_day % 60) as nat), 2)
}

/// The seconds since the epoch that a text beginning `YYYY-MM-DDTHH:MM:SS`
/// names, reading each field at its fixed position.
pub open spec fn datetime_seconds(text: Seq<char>) -> int {
    let year = digits_value(text.subrange(0, 4));
    let month = digits_value(text.subrange(5, 7));
    let day = digits_value(text.subrange(8, 10));
    let hour = digits_value(text.subrange(11, 13));
    let minute = digits_value(text.subrange(14, 16));
    let second = digits_value(text.subrange(17, 19));
    days_from_civil(year, month, day) * 86400 + hour * 3600 + minute * 60 + second
}

/// For a time in the years `0 ..= 9999`, `datetime_text` is 19 characters
/// long and, whatever follows it, reads back as that time.
pub proof fn lemma_datetime_text(seconds: int, rest: Seq<char>)
    requires
        0 <= civil_date(seconds / 86400).0 <= 9999,
    ensures
        datetime_text(seconds).len() == 19,
        (datetime_text(seconds) + rest).subrange(0, 19) == datetime_text(seconds),
        datetime_seconds(datetime_text(seconds) + rest) == seconds,
{
    let days = seconds / 86400;
    let (y, m, d) = civil_date(days);
    lemma_civil_date(days);
    let sod = seconds % 86400;
    let h = sod / 3600;
    let mi = (sod % 3600) / 60;
    let se = sod % 60;
    assert(pow10(4) == 10000 && pow10(2) == 100) by {
        reveal_with_fuel(pow10, 5);
    }
    lemma_zero_pad_value(y as nat, 4);
    lemma_zero_pad_value(m as nat, 2);
    lemma_zero_pad_value(d as nat, 2);
    lemma_zero_pad_value(h as nat, 2);
    lemma_zero_pad_value(mi as nat, 2);
    lemma_zero_pad_value(se as nat, 2);
    let ys = zero_pad(decimal(y as nat), 4);
    let ms = zero_pad(decimal(m as nat), 2);
    let ds = zero_pad(decimal(d as nat), 2);
    let hs = zero_pad(decimal(h as nat), 2);
    let mis = zero_pad(decimal(mi as nat), 2);
    let ses = zero_pad(decimal(se as nat), 2);
    let text = datetime_text(seconds);
    assert(text == ys + seq!['-'] + ms + seq!['-'] + ds + seq!['T'] + hs + seq![':'] + mis + seq![
        ':',
    ] + ses);
    let full = text + rest;
    assert(full.subrange(0, 19) =~= text);
    assert(full.subrange(0, 4) =~= ys);
    assert(full.subrange(5, 7) =~= ms);
    assert(full.subrange(8, 10) =~= ds);
    assert(full.subrange(11, 13) =~= hs);
    assert(full.subrange(14, 16) =~= mis);
    assert(full.subrange(17, 19) =~= ses);
    assert(h * 3600 + mi * 60 + se == sod);
    assert(days * 86400 + sod == seconds);
}

} // verus!
