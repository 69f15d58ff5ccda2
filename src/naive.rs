use vstd::prelude::*;

use chrono::NaiveDate;

use crate::easter::{day_after, gregorian, gregorian_shift, month_after, supported};

verus! {

#[verifier::external_type_specification]
#[verifier::external_body]
pub struct ExNaiveDate(chrono::NaiveDate);

/// Leap years of the proleptic Gregorian calendar.
pub open spec fn is_leap_year(year: int) -> bool {
    year % 4 == 0 && (year % 100 != 0 || year % 400 == 0)
}

/// The number of days of `month` (1 to 12) in `year`.
pub open spec fn days_in_month(year: int, month: int) -> int {
    if month == 2 {
        if is_leap_year(year) {
            29
        } else {
            28
        }
    } else if month == 4 || month == 6 || month == 9 || month == 11 {
        30
    } else {
        31
    }
}

/// A day that exists in the proleptic Gregorian calendar, in the years that a
/// `chrono::NaiveDate` can hold.
pub open spec fn naive_date_exists(year: int, month: int, day: int) -> bool {
    &&& -262143 <= year <= 262142
    &&& 1 <= month <= 12
    &&& 1 <= day <= days_in_month(year, month)
}

/// The `chrono::NaiveDate` of the given year, month and day.
pub uninterp spec fn naive_date_of(year: int, month: int, day: int) -> NaiveDate;

/// Relies on `chrono::NaiveDate::from_ymd_opt`: `None` exactly where the day does not
/// exist or the year lies outside the type's range, else the date of those numbers.
#[verifier::external_body]
fn naive_date_from_ymd(year: i32, month: u32, day: u32) -> (r: Option<NaiveDate>)
    ensures
        r is Some <==> naive_date_exists(year as int, month as int, day as int),
        r matches Some(n) ==> n == naive_date_of(year as int, month as int, day as int),
{
    NaiveDate::from_ymd_opt(year, month, day)
}

/// Easter in the Gregorian calendar, as a `chrono::NaiveDate`.
pub fn gregorian_naive(year: i32) -> (r: Result<NaiveDate, &'static str>)
    ensures
        r is Ok <==> supported(year as int),
        r matches Ok(n) ==> n == naive_date_of(
            year as int,
            month_after(gregorian_shift(year as int)),
            day_after(gregorian_shift(year as int)),
        ),
        r matches Err(e) ==> e == crate::easter::OUT_OF_RANGE_ERR,
{
    let date = match gregorian(year) {
        Ok(date) => date,
        Err(e) => return Err(e),
    };
    match naive_date_from_ymd(date.year, date.month, date.day) {
        Some(n) => Ok(n),
        None => Err("invalid date"),
    }
}

} // verus!
