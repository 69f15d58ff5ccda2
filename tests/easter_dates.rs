use computus::{gregorian, gregorian_naive, julian, Date, OUT_OF_RANGE_ERR};

const GREGORIAN_DATES: [(i32, u32, u32); 30] = [
    (1961, 4, 2),
    (1996, 4, 7),
    (1997, 3, 30),
    (1998, 4, 12),
    (2000, 4, 23),
    (2001, 4, 15),
    (2002, 3, 31),
    (2003, 4, 20),
    (2004, 4, 11),
    (2005, 3, 27),
    (2006, 4, 16),
    (2007, 4, 8),
    (2008, 3, 23),
    (2009, 4, 12),
    (2010, 4, 4),
    (2011, 4, 24),
    (2012, 4, 8),
    (2013, 3, 31),
    (2014, 4, 20),
    (2015, 4, 5),
    (2016, 3, 27),
    (2017, 4, 16),
    (2018, 4, 1),
    (2019, 4, 21),
    (2020, 4, 12),
    (2021, 4, 4),
    (2022, 4, 17),
    (3035, 4, 19),
    (4000, 4, 9),
    (9999, 3, 28),
];

const JULIAN_DATES: [(i32, u32, u32); 26] = [
    (1961, 3, 27),
    (1996, 4, 1),
    (1997, 4, 14),
    (1998, 4, 6),
    (1999, 3, 29),
    (2000, 4, 17),
    (2001, 4, 2),
    (2002, 4, 22),
    (2003, 4, 14),
    (2004, 3, 29),
    (2005, 4, 18),
    (2006, 4, 10),
    (2007, 3, 26),
    (2008, 4, 14),
    (2009, 4, 6),
    (2010, 3, 22),
    (2011, 4, 11),
    (2012, 4, 2),
    (2013, 4, 22),
    (2014, 4, 7),
    (2015, 3, 30),
    (2016, 4, 18),
    (2017, 4, 3),
    (2018, 3, 26),
    (2019, 4, 15),
    (2020, 4, 6),
];

fn in_window(d: &Date) -> bool {
    (d.month == 3 && 22 <= d.day && d.day <= 31) || (d.month == 4 && 1 <= d.day && d.day <= 25)
}

fn spring_ordinal(d: &Date) -> i32 {
    if d.month == 3 {
        d.day as i32
    } else {
        31 + d.day as i32
    }
}

#[test]
fn gregorian_month_day() {
    for &(y, m, d) in GREGORIAN_DATES.iter() {
        assert_eq!(gregorian(y), Ok(Date::ymd(y, m, d)));
    }
}

#[test]
fn julian_month_day() {
    for &(y, m, d) in JULIAN_DATES.iter() {
        assert_eq!(julian(y), Ok(Date::ymd(y, m, d)));
    }
}

#[test]
fn gregorian_naive_dates() {
    for &(y, m, d) in GREGORIAN_DATES.iter() {
        assert_eq!(gregorian_naive(y), Ok(chrono::NaiveDate::from_ymd_opt(y, m, d).unwrap()));
    }
}

#[test]
fn gregorian_fixed_points() {
    assert_eq!(gregorian(1961), Ok(Date::ymd(1961, 4, 2)));
    assert_eq!(gregorian(2000), Ok(Date::ymd(2000, 4, 23)));
    assert_eq!(gregorian(2018), Ok(Date::ymd(2018, 4, 1)));
    assert_eq!(gregorian(2020), Ok(Date::ymd(2020, 4, 12)));
    assert_eq!(gregorian(9999), Ok(Date::ymd(9999, 3, 28)));
}

#[test]
fn julian_fixed_points() {
    assert_eq!(julian(1961), Ok(Date::ymd(1961, 3, 27)));
    assert_eq!(julian(2000), Ok(Date::ymd(2000, 4, 17)));
    assert_eq!(julian(2018), Ok(Date::ymd(2018, 3, 26)));
    assert_eq!(julian(2020), Ok(Date::ymd(2020, 4, 6)));
}

#[test]
fn range_bounds_are_inclusive() {
    assert!(gregorian(1583).is_ok());
    assert!(gregorian(9999).is_ok());
    assert!(julian(1583).is_ok());
    assert!(julian(9999).is_ok());
}

#[test]
fn gregorian_out_of_range() {
    assert_eq!(gregorian(1582), Err(OUT_OF_RANGE_ERR));
    assert_eq!(gregorian(10000), Err(OUT_OF_RANGE_ERR));
    assert_eq!(gregorian(0), Err(OUT_OF_RANGE_ERR));
    assert_eq!(gregorian(-2000), Err(OUT_OF_RANGE_ERR));
    assert_eq!(gregorian(i32::MIN), Err(OUT_OF_RANGE_ERR));
    assert_eq!(gregorian(i32::MAX), Err(OUT_OF_RANGE_ERR));
}

#[test]
fn julian_out_of_range() {
    assert_eq!(julian(1582), Err(OUT_OF_RANGE_ERR));
    assert_eq!(julian(10000), Err(OUT_OF_RANGE_ERR));
    assert_eq!(julian(i32::MIN), Err(OUT_OF_RANGE_ERR));
    assert_eq!(julian(i32::MAX), Err(OUT_OF_RANGE_ERR));
}

#[test]
fn naive_out_of_range() {
    assert_eq!(gregorian_naive(1582), Err(OUT_OF_RANGE_ERR));
    assert_eq!(gregorian_naive(10000), Err(OUT_OF_RANGE_ERR));
}

#[test]
fn out_of_range_message() {
    assert_eq!(OUT_OF_RANGE_ERR, "Computus is only valid from 1583 to 9999");
}

#[test]
fn every_year_falls_in_the_easter_window() {
    for y in 1583..=9999 {
        let g = gregorian(y).unwrap();
        let j = julian(y).unwrap();
        assert_eq!(g.year, y);
        assert_eq!(j.year, y);
        assert!(in_window(&g), "gregorian {}: {:?}", y, g);
        assert!(in_window(&j), "julian {}: {:?}", y, j);
    }
}

#[test]
fn repeated_calls_agree() {
    for &y in [1583, 1961, 2000, 2024, 9999, 1582, 10000].iter() {
        assert_eq!(gregorian(y), gregorian(y));
        assert_eq!(julian(y), julian(y));
    }
}

#[test]
fn julian_plus_thirteen_days_not_before_gregorian() {
    for y in 1583..=2099 {
        let g = gregorian(y).unwrap();
        let j = julian(y).unwrap();
        assert!(spring_ordinal(&j) + 13 >= spring_ordinal(&g), "{}", y);
    }
    // 2000: April 17 (Julian) is April 30 (Gregorian), after April 23.
    let g = gregorian(2000).unwrap();
    let j = julian(2000).unwrap();
    assert_eq!(spring_ordinal(&j) + 13, 61);
    assert_eq!(spring_ordinal(&g), 54);
}

#[test]
fn thirteen_day_bound_fails_after_the_gap_grows() {
    let g = gregorian(2102).unwrap();
    let j = julian(2102).unwrap();
    assert!(spring_ordinal(&j) + 13 < spring_ordinal(&g));
}

#[test]
fn julian_with_calendar_gap_is_a_sunday_on_or_after_gregorian() {
    for y in 1583..=9999 {
        let gap = y / 100 - y / 400 - 2;
        let g = spring_ordinal(&gregorian(y).unwrap());
        let j = spring_ordinal(&julian(y).unwrap()) + gap;
        assert!(j >= g, "{}", y);
        assert_eq!((j - g) % 7, 0, "{}", y);
    }
}

#[test]
fn ymd_keeps_its_fields() {
    let d = Date::ymd(2024, 3, 31);
    assert_eq!(d.year, 2024);
    assert_eq!(d.month, 3);
    assert_eq!(d.day, 31);
    assert_eq!(d, Date { year: 2024, month: 3, day: 31 });
}
