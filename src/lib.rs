//! Computus: the date of Easter Sunday in the Gregorian and Julian calendars.
//!
//! Both reckonings are closed-form congruences on the year; their contracts give
//! the exact month and day, the window that Easter always falls in, and the years
//! on which they fail. `laws` relates the two reckonings.
use vstd::prelude::*;

pub mod date;
pub mod easter;
pub mod laws;
pub mod naive;

pub use date::Date;
pub use easter::{gregorian, julian, OUT_OF_RANGE_ERR};
pub use naive::gregorian_naive;
