use vstd::prelude::*;

use crate::date::Date;

verus! {

/// The error of both reckonings for a year outside the supported range.
pub const OUT_OF_RANGE_ERR: &'static str = "Computus is only valid from 1583 to 9999";

/// The years for which both reckonings are offered: from the first year after the
/// Gregorian reform up to the last four-digit year. The Julian reckoning needs no such
/// bound; it shares this one so that the two functions accept the same years.
pub open spec fn supported(year: int) -> bool {
    1583 <= year <= 9999
}

/// Days from March 22 to Easter Sunday in the Gregorian calendar (Gauss's congruences).
#[verifier::opaque]
pub open spec fn gregorian_shift(year: int) -> int {
    let a = year % 19;
    let b = year / 100;
    let c = year % 100;
    let d = b / 4;
    let e = b % 4;
    let f = (b + 8) / 25;
    let g = (b - f + 1) / 3;
    let h = (19 * a + b - d - g + 15) % 30;
    let i = c / 4;
    let k = c % 4;
    let l = (32 + 2 * e + 2 * i - h - k) % 7;
    let m = (a + 11 * h + 22 * l) / 451;
    h + l - 7 * m
}

/// Days from March 22 to Easter Sunday in the Julian calendar (the Julian congruences).
#[verifier::opaque]
pub open spec fn julian_shift(year: int) -> int {
    let a = year % 4;
    let b = year % 7;
    let c = year % 19;
    let d = (19 * c + 15) % 30;
    let e = (2 * a + 4 * b - d + 34) % 7;
    d + e
}

/// The month of the day `shift` days after March 22.
pub open spec fn month_after(shift: int) -> int {
    (shift + 114) / 31
}

/// The day of the month of the day `shift` days after March 22.
pub open spec fn day_after(shift: int) -> int {
    (shift + 114) % 31 + 1
}

/// The window in which Easter Sunday falls: March 22 to April 25.
pub open spec fn in_easter_window(month: int, day: int) -> bool {
    ||| month == 3 && 22 <= day <= 31
    ||| month == 4 && 1 <= day <= 25
}

/// Easter in the Gregorian calendar: its date in `year`, or `OUT_OF_RANGE_ERR` for a
/// year outside the supported range, checked before any arithmetic.
pub fn gregorian(year: i32) -> (r: Result<Date, &'static str>)
    ensures
        r is Ok <==> supported(year as int),
        r matches Ok(date) ==> {
            &&& date.year == year
            &&& date.month == month_after(gregorian_shift(year as int))
            &&& date.day == day_after(gregorian_shift(year as int))
        },
        r matches Ok(date) ==> in_easter_window(date.month as int, date.day as int),
        r matches Err(e) ==> e == OUT_OF_RANGE_ERR,
{
    if year < 1583 || year > 9999 {
        return Err(OUT_OF_RANGE_ERR);
    }
    proof {
        reveal(gregorian_shift);
    }
    let aa: i32 = year % 19;
    let bb: i32 = year / 100;
    let cc: i32 = year % 100;
    let dd: i32 = bb / 4;
    let ee: i32 = bb % 4;
    let ff: i32 = (bb + 8) / 25;
    let gg: i32 = (bb - ff + 1) / 3;
    let hh: i32 = (19 * aa + bb - dd - gg + 15) % 30;
    let ii: i32 = cc / 4;
    let kk: i32 = cc % 4;
    let ll: i32 = (32 + 2 * ee + 2 * ii - hh - kk) % 7;
    let mm: i32 = (aa + 11 * hh + 22 * ll) / 451;
    let month: i32 = (hh + ll - 7 * mm + 114) / 31;
    let day: i32 = (hh + ll - 7 * mm + 114) % 31 + 1;
    Ok(Date::ymd(year, month as u32, day as u32))
}

/// Easter in the Julian calendar, as a Julian date: its date in `year`, or
/// `OUT_OF_RANGE_ERR` for a year outside the supported range.
pub fn julian(year: i32) -> (r: Result<Date, &'static str>)
    ensures
        r is Ok <==> supported(year as int),
        r matches Ok(date) ==> {
            &&& date.year == year
            &&& date.month == month_after(julian_shift(year as int))
            &&& date.day == day_after(julian_shift(year as int))
        },
        r matches Ok(date) ==> in_easter_window(date.month as int, date.day as int),
        r matches Err(e) ==> e == OUT_OF_RANGE_ERR,
{
    if year < 1583 || year > 9999 {
        return Err(OUT_OF_RANGE_ERR);
    }
    proof {
        reveal(julian_shift);
    }
    let aa: i32 = year % 4;
    let bb: i32 = year % 7;
    let cc: i32 = year % 19;
    let dd: i32 = (19 * cc + 15) % 30;
    let ee: i32 = (2 * aa + 4 * bb - dd + 34) % 7;
    let ff: i32 = dd + ee + 114;
    let month: i32 = ff / 31;
    let day: i32 = ff % 31 + 1;
    Ok(Date::ymd(year, month as u32, day as u32))
}

} // verus!
