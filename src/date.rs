use vstd::prelude::*;

verus! {

/// A calendar date: year, month (1 to 12) and day of the month.
#[derive(Debug, PartialEq, Eq, Structural)]
pub struct Date {
    pub year: i32,
    pub month: u32,
    pub day: u32,
}

impl Date {
    /// The date with the given year, month and day, as they are.
    pub fn ymd(y: i32, m: u32, d: u32) -> (r: Self)
        ensures
            r.year == y,
            r.month == m,
            r.day == d,
    {
        Date { year: y, month: m, day: d }
    }
}

} // verus!
