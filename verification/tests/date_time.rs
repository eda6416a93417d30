use chrono::{Datelike, NaiveDate, Timelike};
use native_api_1c::ffi::date_time::{DateTime, MAX_YEAR, MIN_YEAR};
use native_api_1c::ffi::provided_types::Tm;

fn tm(year: i32, mon: i32, mday: i32, hour: i32, min: i32, sec: i32) -> Tm {
    Tm { sec, min, hour, mday, mon, year, wday: 0, yday: 0, isdst: 0, gmtoff: 0, zone: 0 }
}

fn parts(d: &DateTime) -> (i32, u32, u32, u32, u32, u32) {
    (d.year(), d.month(), d.day(), d.hour(), d.minute(), d.second())
}

const EPOCH: (i32, u32, u32, u32, u32, u32) = (1970, 1, 1, 0, 0, 0);

#[test]
fn date_time_exists_where_the_calendar_has_the_day() {
    assert!(DateTime::new(2015, 3, 14, 0, 0, 0).is_some());
    assert!(DateTime::new(2015, 0, 14, 0, 0, 0).is_none());
    assert!(DateTime::new(2015, 13, 14, 0, 0, 0).is_none());
    assert!(DateTime::new(2015, 2, 29, 0, 0, 0).is_none());
    assert!(DateTime::new(2016, 2, 29, 0, 0, 0).is_some());
    assert!(DateTime::new(1900, 2, 29, 0, 0, 0).is_none());
    assert!(DateTime::new(2000, 2, 29, 0, 0, 0).is_some());
    assert!(DateTime::new(-4, 2, 29, 0, 0, 0).is_some());
    assert!(DateTime::new(0, 2, 29, 0, 0, 0).is_some());
    assert!(DateTime::new(-100, 2, 29, 0, 0, 0).is_none());
    assert!(DateTime::new(2023, 4, 31, 0, 0, 0).is_none());
    assert!(DateTime::new(2023, 4, 30, 0, 0, 0).is_some());
    assert!(DateTime::new(2023, 4, 0, 0, 0, 0).is_none());
    assert!(DateTime::new(400000, 1, 1, 0, 0, 0).is_none());
    assert!(DateTime::new(-400000, 1, 1, 0, 0, 0).is_none());
}

#[test]
fn date_time_years_have_bounds() {
    assert_eq!((MIN_YEAR, MAX_YEAR), (-262143, 262142));
    assert!(DateTime::new(MAX_YEAR, 12, 31, 23, 59, 59).is_some());
    assert!(DateTime::new(MAX_YEAR + 1, 1, 1, 0, 0, 0).is_none());
    assert!(DateTime::new(MIN_YEAR, 1, 1, 0, 0, 0).is_some());
    assert!(DateTime::new(MIN_YEAR - 1, 12, 31, 0, 0, 0).is_none());
}

#[test]
fn date_time_has_times_of_day_only() {
    assert!(DateTime::new(2015, 6, 3, 12, 34, 56).is_some());
    assert!(DateTime::new(2015, 6, 3, 23, 59, 59).is_some());
    assert!(DateTime::new(2015, 6, 3, 12, 34, 60).is_none());
    assert!(DateTime::new(2015, 6, 3, 12, 60, 56).is_none());
    assert!(DateTime::new(2015, 6, 3, 24, 34, 56).is_none());
}

#[test]
fn date_time_agrees_with_chrono_on_every_day_of_some_years() {
    for year in [-401, -400, -100, -4, -1, 0, 1, 4, 100, 1900, 1970, 1999, 2000, 2023, 2024, 2100] {
        for month in 0..=13u32 {
            for day in 0..=32u32 {
                let expected = NaiveDate::from_ymd_opt(year, month, day).is_some();
                assert_eq!(DateTime::new(year, month, day, 0, 0, 0).is_some(), expected, "{year}-{month}-{day}");
            }
        }
    }
}

#[test]
fn date_time_keeps_its_fields() {
    let d = DateTime::new(2021, 12, 31, 23, 58, 57).unwrap();
    assert_eq!(parts(&d), (2021, 12, 31, 23, 58, 57));
    assert_eq!(parts(&DateTime::epoch()), EPOCH);
}

#[test]
fn tm_names_the_day_by_year_since_1900_and_month_from_0() {
    assert_eq!(parts(&DateTime::from(&tm(121, 0, 2, 3, 4, 5))), (2021, 1, 2, 3, 4, 5));
    assert_eq!(parts(&DateTime::from(&tm(-1900, 11, 31, 23, 59, 59))), (0, 12, 31, 23, 59, 59));
    assert_eq!(parts(&DateTime::from(&tm(70, 0, 1, 0, 0, 0))), EPOCH);
}

#[test]
fn tm_that_names_no_day_or_time_becomes_the_epoch() {
    let unfit = [
        tm(121, 12, 1, 0, 0, 0),
        tm(121, -1, 1, 0, 0, 0),
        tm(121, 1, 29, 0, 0, 0),
        tm(121, 0, 0, 0, 0, 0),
        tm(121, 0, -1, 0, 0, 0),
        tm(121, 0, 1, 24, 0, 0),
        tm(121, 0, 1, -1, 0, 0),
        tm(121, 0, 1, 0, 60, 0),
        tm(121, 0, 1, 0, -1, 0),
        tm(121, 0, 1, 0, 0, 60),
        tm(121, 0, 1, 0, 0, -1),
        tm(i32::MAX, 0, 1, 0, 0, 0),
        tm(i32::MIN, 0, 1, 0, 0, 0),
        tm(121, i32::MAX, 1, 0, 0, 0),
        tm(MAX_YEAR - 1899, 0, 1, 0, 0, 0),
        Tm::default(),
    ];
    for t in unfit {
        assert_eq!(parts(&DateTime::from(&t)), EPOCH, "{:?}", t);
    }
}

#[test]
fn tm_conversion_does_as_chrono_does() {
    for t in [tm(121, 0, 2, 3, 4, 5), tm(100, 1, 29, 0, 0, 0), tm(101, 1, 29, 0, 0, 0), tm(0, 0, 1, 0, 0, 61)] {
        let expected = NaiveDate::from_ymd_opt(1900 + t.year, (1 + t.mon) as u32, t.mday as u32)
            .and_then(|d| d.and_hms_opt(t.hour as u32, t.min as u32, t.sec as u32))
            .unwrap_or(NaiveDate::from_ymd_opt(1970, 1, 1).unwrap().and_hms_opt(0, 0, 0).unwrap());
        let d = DateTime::from(&t);
        assert_eq!(parts(&d), (expected.year(), expected.month(), expected.day(), expected.hour(), expected.minute(), expected.second()));
    }
}

#[test]
fn tm_is_made_with_weekday_and_day_of_year() {
    // January 2, 2021 was a Saturday
    let t = Tm::from(&DateTime::new(2021, 1, 2, 3, 4, 5).unwrap());
    assert_eq!(t, Tm { sec: 5, min: 4, hour: 3, mday: 2, mon: 0, year: 121, wday: 6, yday: 1, isdst: 0, gmtoff: 0, zone: 0 });
    // December 31, 2000 was a Sunday, the 366th day of a leap year
    let t = Tm::from(&DateTime::new(2000, 12, 31, 23, 59, 59).unwrap());
    assert_eq!(t, Tm { sec: 59, min: 59, hour: 23, mday: 31, mon: 11, year: 100, wday: 0, yday: 365, isdst: 0, gmtoff: 0, zone: 0 });
    // March 1, 1900 was a Thursday, the 60th day of a common year
    let t = Tm::from(&DateTime::new(1900, 3, 1, 0, 0, 0).unwrap());
    assert_eq!((t.wday, t.yday, t.year, t.mon), (4, 59, 0, 2));
    // January 1, 1970 was a Thursday
    let t = Tm::from(&DateTime::epoch());
    assert_eq!((t.wday, t.yday, t.year, t.mon, t.mday), (4, 0, 70, 0, 1));
}

#[test]
fn tm_is_made_as_chrono_counts() {
    for (y, m, d) in [(2024, 2, 29), (2023, 12, 31), (1, 1, 1), (0, 3, 1), (-4, 12, 31), (1999, 7, 4), (262142, 12, 31), (-262143, 1, 1)] {
        let date = NaiveDate::from_ymd_opt(y, m, d).unwrap();
        let t = Tm::from(&DateTime::new(y, m, d, 1, 2, 3).unwrap());
        assert_eq!(t.wday as u32, date.weekday().num_days_from_sunday());
        assert_eq!(t.yday as u32, date.ordinal0());
        assert_eq!(t.mon as u32, date.month0());
        assert_eq!(t.year, date.year() - 1900);
        assert_eq!(t.mday as u32, date.day());
    }
}

#[test]
fn tm_from_parts_takes_weekday_and_day_of_year_as_given() {
    let d = DateTime::new(2021, 1, 2, 3, 4, 5).unwrap();
    let t = Tm::from_parts(&d, 2, 300);
    assert_eq!(t, Tm { sec: 5, min: 4, hour: 3, mday: 2, mon: 0, year: 121, wday: 2, yday: 300, isdst: 0, gmtoff: 0, zone: 0 });
}

#[test]
fn date_time_goes_through_tm_and_back() {
    for (y, m, d, h, mi, s) in [(2021, 1, 2, 3, 4, 5), (1970, 1, 1, 0, 0, 0), (2000, 2, 29, 23, 59, 59), (-5, 6, 7, 8, 9, 10)] {
        let date_time = DateTime::new(y, m, d, h, mi, s).unwrap();
        assert_eq!(DateTime::from(&Tm::from(&date_time)), date_time);
    }
}

/// The day of the week by count: the days since the first day of year 1, a
/// Monday, taken by sevens.
fn weekday_by_count(year: i64, ordinal0: i64) -> i64 {
    let y = year - 1;
    let days = 365 * y + y.div_euclid(4) - y.div_euclid(100) + y.div_euclid(400);
    (1 + days + ordinal0).rem_euclid(7)
}

fn month_lengths(year: i32) -> [u32; 12] {
    let leap = year.rem_euclid(4) == 0 && (year.rem_euclid(100) != 0 || year.rem_euclid(400) == 0);
    [31, if leap { 29 } else { 28 }, 31, 30, 31, 30, 31, 31, 30, 31, 30, 31]
}

fn check_year(year: i32) {
    let mut ordinal0 = 0i64;
    for (index, length) in month_lengths(year).iter().enumerate() {
        let month = index as u32 + 1;
        for day in 1..=*length {
            let date_time = DateTime::new(year, month, day, 0, 0, 0).unwrap();
            let t = Tm::from(&date_time);
            assert_eq!(i64::from(t.yday), ordinal0, "{year}-{month}-{day}");
            assert_eq!(i64::from(t.wday), weekday_by_count(i64::from(year), ordinal0), "{year}-{month}-{day}");
            ordinal0 += 1;
        }
        assert!(DateTime::new(year, month, length + 1, 0, 0, 0).is_none());
    }
}

#[test]
fn weekday_is_the_count_of_days_from_a_monday_by_sevens_around_today() {
    for year in 1583..=2420 {
        check_year(year);
    }
}

#[test]
fn weekday_is_the_count_of_days_by_sevens_before_year_one() {
    for year in -820..=20 {
        check_year(year);
    }
}

#[test]
fn weekday_is_the_count_of_days_by_sevens_in_the_first_and_last_years() {
    for year in MIN_YEAR..MIN_YEAR + 401 {
        check_year(year);
    }
    for year in MAX_YEAR - 400..=MAX_YEAR {
        check_year(year);
    }
}

#[test]
fn weekday_of_known_days() {
    // the first day of year 1 is a Monday
    assert_eq!(Tm::from(&DateTime::new(1, 1, 1, 0, 0, 0).unwrap()).wday, 1);
    // the day before it, the last of year 0, is a Sunday
    assert_eq!(Tm::from(&DateTime::new(0, 12, 31, 0, 0, 0).unwrap()).wday, 0);
    // July 20, 1969 was a Sunday
    assert_eq!(Tm::from(&DateTime::new(1969, 7, 20, 0, 0, 0).unwrap()).wday, 0);
    // February 29, 2024 was a Thursday
    assert_eq!(Tm::from(&DateTime::new(2024, 2, 29, 0, 0, 0).unwrap()).wday, 4);
}
