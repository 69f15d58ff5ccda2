use vstd::prelude::*;

use vstd::arithmetic::div_mod::{
    lemma_add_mod_noop_right,
    lemma_fundamental_div_mod,
    lemma_mod_multiples_basic,
};

use crate::date::Date;
use crate::easter::{
    day_after, gregorian, gregorian_shift, julian, julian_shift, month_after, supported,
};

verus! {

/// Days by which the Julian calendar trails the Gregorian one from March of `year` on.
pub open spec fn calendar_gap(year: int) -> int {
    year / 100 - year / 400 - 2
}

/// The Gregorian paschal full moon (`h`) comes at most `calendar_gap` days after the
/// Julian one (`d`): the solar and lunar corrections together never exceed the gap.
proof fn lemma_moon_lag(a: int, b: int)
    requires
        0 <= a < 19,
        15 <= b <= 99,
    ensures
        (19 * a + b - b / 4 - (b - (b + 8) / 25 + 1) / 3 + 15) % 30
            <= (19 * a + 15) % 30 + b - b / 4 - 2,
{
    let s = b - b / 4 - (b - (b + 8) / 25 + 1) / 3;
    assert(0 <= s <= b - b / 4 - 2);
    lemma_add_mod_noop_right(s, 19 * a + 15, 30);
    assert((s + (19 * a + 15) % 30) % 30 <= s + (19 * a + 15) % 30);
    assert(s + 19 * a + 15 == 19 * a + b - b / 4 - (b - (b + 8) / 25 + 1) / 3 + 15);
}

/// The linear core of `lemma_same_weekday`, with every quotient named.
proof fn lemma_weekday_algebra(
    year: int,
    b: int,
    i: int,
    k: int,
    h: int,
    l: int,
    m: int,
    d: int,
    e: int,
    qx: int,
    qy: int,
    qw: int,
    qb: int,
)
    requires
        year == 100 * b + 4 * i + k,
        32 + 2 * (b - 4 * qb) + 2 * i - h - k == 7 * qx + l,
        2 * k + 4 * (year - 7 * qw) - d + 34 == 7 * qy + e,
    ensures
        (h + l - 7 * m) - (d + e) - (b - qb - 2)
            == 7 * (qy - qx - m + 4 * qw - qb - 57 * b - 2 * i - k),
{
}

/// Gregorian and Julian Easter, the latter moved by `calendar_gap`, fall on the same
/// day of the week.
#[verifier::rlimit(40)]
proof fn lemma_same_weekday(year: int)
    requires
        supported(year),
    ensures
        (gregorian_shift(year) - julian_shift(year) - calendar_gap(year)) % 7 == 0,
{
    let a = year % 19;
    let b = year / 100;
    let c = year % 100;
    let f = (b + 8) / 25;
    let g = (b - f + 1) / 3;
    let h = (19 * a + b - b / 4 - g + 15) % 30;
    let i = c / 4;
    let k = c % 4;
    let x = 32 + 2 * (b % 4) + 2 * i - h - k;
    let l = x % 7;
    let m = (a + 11 * h + 22 * l) / 451;
    let d = (19 * a + 15) % 30;
    let y = 2 * (year % 4) + 4 * (year % 7) - d + 34;
    let e = y % 7;
    let (qx, qy, qw, qb) = (x / 7, y / 7, year / 7, b / 4);
    assert(year == 100 * b + 4 * i + k);
    assert(year % 4 == k);
    assert(b % 4 == b - 4 * qb) by {
        lemma_fundamental_div_mod(b, 4);
    }
    assert(year % 7 == year - 7 * qw) by {
        lemma_fundamental_div_mod(year, 7);
    }
    assert(x == 7 * qx + l) by {
        lemma_fundamental_div_mod(x, 7);
    }
    assert(y == 7 * qy + e) by {
        lemma_fundamental_div_mod(y, 7);
    }
    lemma_weekday_algebra(year, b, i, k, h, l, m, d, e, qx, qy, qw, qb);
    reveal(gregorian_shift);
    reveal(julian_shift);
    let q = qy - qx - m + 4 * qw - qb - 57 * b - 2 * i - k;
    assert(gregorian_shift(year) == h + l - 7 * m);
    assert(julian_shift(year) == d + e);
    assert(calendar_gap(year) == b - qb - 2) by {
        assert(year / 400 == b / 4);
    }
    lemma_mod_multiples_basic(q, 7);
    assert(q * 7 == 7 * q);
}

/// Gregorian Easter comes at most six days after Julian Easter moved by `calendar_gap`.
proof fn lemma_within_a_week(year: int)
    requires
        supported(year),
    ensures
        gregorian_shift(year) - julian_shift(year) - calendar_gap(year) <= 6,
{
    let a = year % 19;
    let b = year / 100;
    lemma_moon_lag(a, b);
    assert(year / 400 == b / 4);
    reveal(gregorian_shift);
    reveal(julian_shift);
}

/// Orthodox Easter, carried into the Gregorian calendar, never comes before Western
/// Easter, and both fall on a Sunday: the two dates are a whole number of weeks apart.
pub proof fn julian_easter_not_before_gregorian(year: int)
    requires
        supported(year),
    ensures
        julian_shift(year) + calendar_gap(year) >= gregorian_shift(year),
        (julian_shift(year) + calendar_gap(year) - gregorian_shift(year)) % 7 == 0,
{
    lemma_within_a_week(year);
    lemma_same_weekday(year);
    let diff = gregorian_shift(year) - julian_shift(year) - calendar_gap(year);
    lemma_fundamental_div_mod(diff, 7);
}

/// The number of days from the last day of February to the given day of March or April.
pub open spec fn spring_ordinal(month: int, day: int) -> int {
    if month == 3 {
        day
    } else {
        31 + day
    }
}

/// Easter comes at most 34 days after March 22 in either reckoning.
pub proof fn easter_shift_bounds(year: int)
    ensures
        0 <= gregorian_shift(year) <= 34,
        0 <= julian_shift(year) <= 34,
{
    reveal(gregorian_shift);
    reveal(julian_shift);
}

/// `shift` days after March 22 is the day with ordinal `22 + shift` in spring.
proof fn lemma_spring_ordinal(shift: int)
    requires
        0 <= shift <= 34,
    ensures
        spring_ordinal(month_after(shift), day_after(shift)) == 22 + shift,
{
}

/// With the thirteen days by which the Julian calendar trailed the Gregorian one from
/// 1900 to 2099 added, the Julian Easter date falls on or after the Gregorian one (a
/// bound that no longer holds for every year from 2100 on, once the gap has grown to
/// fourteen days: 2102 is the first year that breaks it).
pub proof fn julian_easter_plus_thirteen_days_not_before_gregorian(year: int)
    requires
        supported(year),
        year <= 2099,
    ensures
        spring_ordinal(month_after(julian_shift(year)), day_after(julian_shift(year))) + 13
            >= spring_ordinal(month_after(gregorian_shift(year)), day_after(gregorian_shift(year))),
{
    julian_easter_not_before_gregorian(year);
    easter_shift_bounds(year);
    lemma_spring_ordinal(julian_shift(year));
    lemma_spring_ordinal(gregorian_shift(year));
}

/// Each reckoning is a function of the year alone: two calls with one year agree.
pub proof fn easter_is_deterministic(
    year: i32,
    g1: Result<Date, &'static str>,
    g2: Result<Date, &'static str>,
    j1: Result<Date, &'static str>,
    j2: Result<Date, &'static str>,
)
    requires
        call_ensures(gregorian, (year,), g1),
        call_ensures(gregorian, (year,), g2),
        call_ensures(julian, (year,), j1),
        call_ensures(julian, (year,), j2),
    ensures
        g1 == g2,
        j1 == j2,
{
}

} // verus!
