//! Calendar dates and times of day, and their conversion to and from the
//! host's date record.

use crate::ffi::provided_types::Tm;
use vstd::prelude::*;

verus! {

/// The first year that a date can lie in.
pub const MIN_YEAR: i32 = -262143;

/// The last year that a date can lie in.
pub const MAX_YEAR: i32 = 262142;

/// Whether `year` is a leap year of the Gregorian calendar, which is taken
/// to hold for all years; year 0 is the year before year 1.
pub open spec fn is_leap_year(year: int) -> bool {
    year % 4 == 0 && (year % 100 != 0 || year % 400 == 0)
}

/// The number of days of month `month` (1 to 12) of `year`.
pub open spec fn days_in_month(year: int, month: int) -> int {
    if month == 2 {
        if is_leap_year(year) {
            29
        } else {
            28
        }
    } else if month == 4 || month == 6 || month == 9 || month == 11 {
        30
    } else {
        31
    }
}

/// Whether the calendar has the day `day` of month `month` of `year`, in a
/// year that a date can lie in.
pub open spec fn spec_date_exists(year: int, month: int, day: int) -> bool {
    &&& MIN_YEAR <= year <= MAX_YEAR
    &&& 1 <= month <= 12
    &&& 1 <= day <= days_in_month(year, month)
}

/// The number of days of `year` that lie before month `month`.
pub open spec fn days_before_month(year: int, month: int) -> int
    decreases month,
{
    if month <= 1 {
        0
    } else {
        days_before_month(year, month - 1) + days_in_month(year, month - 1)
    }
}

/// The number of days between January 1 of `year` and the given day.
pub open spec fn spec_ordinal0(year: int, month: int, day: int) -> int {
    days_before_month(year, month) + day - 1
}

/// The number of days between the first day of year 1 and January 1 of
/// `year`; negative before year 1.
pub open spec fn days_before_year(year: int) -> int {
    365 * (year - 1) + (year - 1) / 4 - (year - 1) / 100 + (year - 1) / 400
}

/// The number of days between the Sunday before the given day, or that day
/// if it is a Sunday, and the day: 0 for a Sunday to 6 for a Saturday. The
/// first day of year 1 is a Monday.
pub open spec fn weekday_from_sunday(year: int, month: int, day: int) -> int {
    (1 + days_before_year(year) + spec_ordinal0(year, month, day)) % 7
}

/// `NaiveDate::from_ymd_opt` of chrono, asked whether it gives a date: it
/// does for the days that the calendar has, in the years from `MIN_YEAR` to
/// `MAX_YEAR`.
#[verifier::external_body]
fn date_exists(year: i32, month: u32, day: u32) -> (known: bool)
    ensures
        known == spec_date_exists(year as int, month as int, day as int),
{
    chrono::NaiveDate::from_ymd_opt(year, month, day).is_some()
}

/// `Datelike::weekday` of chrono for the given day, as
/// `Weekday::num_days_from_sunday` numbers it: 0 for Sunday to 6 for
/// Saturday. chrono takes the Gregorian calendar to hold for all years, in
/// which the first day of year 1 is a Monday; so the day of the week is
/// what the count of days since then leaves when taken by sevens.
#[verifier::external_body]
fn days_from_sunday(year: i32, month: u32, day: u32) -> (days: u32)
    requires
        spec_date_exists(year as int, month as int, day as int),
    ensures
        days == weekday_from_sunday(year as int, month as int, day as int),
{
    match chrono::NaiveDate::from_ymd_opt(year, month, day) {
        Some(date) => chrono::Datelike::weekday(&date).num_days_from_sunday(),
        None => 0,
    }
}

/// `Datelike::ordinal0` of chrono for the given day: the number of days
/// since January 1 of its year.
#[verifier::external_body]
fn day_of_year0(year: i32, month: u32, day: u32) -> (days: u32)
    requires
        spec_date_exists(year as int, month as int, day as int),
    ensures
        days == spec_ordinal0(year as int, month as int, day as int),
{
    match chrono::NaiveDate::from_ymd_opt(year, month, day) {
        Some(date) => chrono::Datelike::ordinal0(&date),
        None => 0,
    }
}

/// A day of the calendar and a time of that day, without a time zone.
#[derive(Clone, Copy, Debug, PartialEq, Eq, Structural)]
pub struct DateTime {
    year: i32,
    month: u32,
    day: u32,
    hour: u32,
    minute: u32,
    second: u32,
}

/// Whether the numbers name a day that the calendar has and a time of day.
pub open spec fn spec_date_time_exists(
    year: int,
    month: int,
    day: int,
    hour: int,
    minute: int,
    second: int,
) -> bool {
    &&& spec_date_exists(year, month, day)
    &&& 0 <= hour < 24
    &&& 0 <= minute < 60
    &&& 0 <= second < 60
}

impl DateTime {
    #[verifier::type_invariant]
    spec fn on_calendar(self) -> bool {
        spec_date_time_exists(
            self.year as int,
            self.month as int,
            self.day as int,
            self.hour as int,
            self.minute as int,
            self.second as int,
        )
    }

    pub closed spec fn spec_year(self) -> i32 {
        self.year
    }

    pub closed spec fn spec_month(self) -> u32 {
        self.month
    }

    pub closed spec fn spec_day(self) -> u32 {
        self.day
    }

    pub closed spec fn spec_hour(self) -> u32 {
        self.hour
    }

    pub closed spec fn spec_minute(self) -> u32 {
        self.minute
    }

    pub closed spec fn spec_second(self) -> u32 {
        self.second
    }

    /// Whether this is the given day and time.
    pub open spec fn is(self, year: int, month: int, day: int, hour: int, minute: int, second: int) -> bool {
        &&& self.spec_year() == year
        &&& self.spec_month() == month
        &&& self.spec_day() == day
        &&& self.spec_hour() == hour
        &&& self.spec_minute() == minute
        &&& self.spec_second() == second
    }

    /// The given day and time, if the calendar has the day and the time is
    /// a time of day: no leap second.
    pub fn new(year: i32, month: u32, day: u32, hour: u32, minute: u32, second: u32) -> (date_time:
        Option<DateTime>)
        ensures
            date_time is Some <==> spec_date_time_exists(
                year as int,
                month as int,
                day as int,
                hour as int,
                minute as int,
                second as int,
            ),
            date_time matches Some(d) ==> d.is(
                year as int,
                month as int,
                day as int,
                hour as int,
                minute as int,
                second as int,
            ),
    {
        if date_exists(year, month, day) && hour < 24 && minute < 60 && second < 60 {
            Some(DateTime { year, month, day, hour, minute, second })
        } else {
            None
        }
    }

    /// The start of 1970.
    pub fn epoch() -> (date_time: DateTime)
        ensures
            date_time.is(1970, 1, 1, 0, 0, 0),
    {
        DateTime { year: 1970, month: 1, day: 1, hour: 0, minute: 0, second: 0 }
    }

    pub fn year(&self) -> (year: i32)
        ensures
            year == self.spec_year(),
            MIN_YEAR <= year <= MAX_YEAR,
    {
        proof {
            use_type_invariant(self);
        }
        self.year
    }

    /// The month, from 1.
    pub fn month(&self) -> (month: u32)
        ensures
            month == self.spec_month(),
            1 <= month <= 12,
    {
        proof {
            use_type_invariant(self);
        }
        self.month
    }

    /// The day of the month, from 1.
    pub fn day(&self) -> (day: u32)
        ensures
            day == self.spec_day(),
            1 <= day <= days_in_month(self.spec_year() as int, self.spec_month() as int),
    {
        proof {
            use_type_invariant(self);
        }
        self.day
    }

    pub fn hour(&self) -> (hour: u32)
        ensures
            hour == self.spec_hour(),
            hour < 24,
    {
        proof {
            use_type_invariant(self);
        }
        self.hour
    }

    pub fn minute(&self) -> (minute: u32)
        ensures
            minute == self.spec_minute(),
            minute < 60,
    {
        proof {
            use_type_invariant(self);
        }
        self.minute
    }

    pub fn second(&self) -> (second: u32)
        ensures
            second == self.spec_second(),
            second < 60,
    {
        proof {
            use_type_invariant(self);
        }
        self.second
    }
}

/// A number of `i32` as the unsigned number that a field of a date takes,
/// if it is not negative.
fn field_from(value: i32) -> (field: Option<u32>)
    ensures
        field is Some <==> value >= 0,
        field matches Some(f) ==> f == value,
{
    if value < 0 {
        None
    } else {
        Some(value as u32)
    }
}

impl Tm {
    /// Whether the record names a day that the calendar has and a time of
    /// day: by its year since 1900, its month from 0, its day of the month,
    /// hour, minute and second. The other fields do not count.
    pub open spec fn spec_names_date_time(self) -> bool {
        spec_date_time_exists(
            1900 + self.year,
            1 + self.mon,
            self.mday as int,
            self.hour as int,
            self.min as int,
            self.sec as int,
        )
    }

    /// The record for `date_time`, given the day of the week `wday` (from
    /// Sunday) and the day of the year `yday` (from 0) of its day: seconds
    /// to year as the host counts them, no daylight saving time, no offset,
    /// no zone.
    pub fn from_parts(date_time: &DateTime, wday: u32, yday: u32) -> (tm: Tm)
        requires
            wday < 7,
            yday < 366,
        ensures
            tm == (Tm {
                sec: date_time.spec_second() as i32,
                min: date_time.spec_minute() as i32,
                hour: date_time.spec_hour() as i32,
                mday: date_time.spec_day() as i32,
                mon: (date_time.spec_month() - 1) as i32,
                year: (date_time.spec_year() - 1900) as i32,
                wday: wday as i32,
                yday: yday as i32,
                isdst: 0,
                gmtoff: 0,
                zone: 0,
            }),
    {
        Tm {
            sec: date_time.second() as i32,
            min: date_time.minute() as i32,
            hour: date_time.hour() as i32,
            mday: date_time.day() as i32,
            mon: (date_time.month() - 1) as i32,
            year: date_time.year() - 1900,
            wday: wday as i32,
            yday: yday as i32,
            isdst: 0,
            gmtoff: 0,
            zone: 0,
        }
    }

    /// The record for `date_time`: its fields as the host counts them, with
    /// the day of the week and the day of the year of its day, no daylight
    /// saving time, no offset and no zone.
    pub fn from(date_time: &DateTime) -> (tm: Tm)
        ensures
            tm == (Tm {
                sec: date_time.spec_second() as i32,
                min: date_time.spec_minute() as i32,
                hour: date_time.spec_hour() as i32,
                mday: date_time.spec_day() as i32,
                mon: (date_time.spec_month() - 1) as i32,
                year: (date_time.spec_year() - 1900) as i32,
                wday: weekday_from_sunday(
                    date_time.spec_year() as int,
                    date_time.spec_month() as int,
                    date_time.spec_day() as int,
                ) as i32,
                yday: spec_ordinal0(
                    date_time.spec_year() as int,
                    date_time.spec_month() as int,
                    date_time.spec_day() as int,
                ) as i32,
                isdst: 0,
                gmtoff: 0,
                zone: 0,
            }),
            tm.spec_names_date_time(),
    {
        let year: i32 = date_time.year();
        let month: u32 = date_time.month();
        let day: u32 = date_time.day();
        let wday: u32 = days_from_sunday(year, month, day);
        let yday: u32 = day_of_year0(year, month, day);
        proof {
            lemma_ordinal0_bound(year as int, month as int, day as int);
        }
        let hour = date_time.hour();
        let minute = date_time.minute();
        let second = date_time.second();
        Tm::from_parts(date_time, wday, yday)
    }
}

impl DateTime {
    /// The day and time that the record `tm` names; the start of 1970 where
    /// it names none.
    pub fn from(tm: &Tm) -> (date_time: DateTime)
        ensures
            tm.spec_names_date_time() ==> date_time.is(
                1900 + tm.year,
                1 + tm.mon,
                tm.mday as int,
                tm.hour as int,
                tm.min as int,
                tm.sec as int,
            ),
            !tm.spec_names_date_time() ==> date_time.is(1970, 1, 1, 0, 0, 0),
    {
        let year: i32 = match tm.year.checked_add(1900) {
            Some(y) => y,
            None => {
                return DateTime::epoch();
            },
        };
        let month: i32 = match tm.mon.checked_add(1) {
            Some(m) => m,
            None => {
                return DateTime::epoch();
            },
        };
        match (
            field_from(month),
            field_from(tm.mday),
            field_from(tm.hour),
            field_from(tm.min),
            field_from(tm.sec),
        ) {
            (Some(month), Some(day), Some(hour), Some(minute), Some(second)) => {
                match DateTime::new(year, month, day, hour, minute, second) {
                    Some(d) => d,
                    None => DateTime::epoch(),
                }
            },
            _ => DateTime::epoch(),
        }
    }
}

/// A day of the calendar is at most the 366th of its year.
pub proof fn lemma_ordinal0_bound(year: int, month: int, day: int)
    requires
        1 <= month <= 12,
        1 <= day <= days_in_month(year, month),
    ensures
        0 <= spec_ordinal0(year, month, day) < 366,
{
    reveal_with_fuel(days_before_month, 13);
}

/// The record made for a day and time names that day and time again.
pub proof fn lemma_date_time_round_trip(date_time: DateTime, tm: Tm)
    requires
        spec_date_time_exists(
            date_time.spec_year() as int,
            date_time.spec_month() as int,
            date_time.spec_day() as int,
            date_time.spec_hour() as int,
            date_time.spec_minute() as int,
            date_time.spec_second() as int,
        ),
        tm.sec == date_time.spec_second(),
        tm.min == date_time.spec_minute(),
        tm.hour == date_time.spec_hour(),
        tm.mday == date_time.spec_day(),
        tm.mon == date_time.spec_month() - 1,
        tm.year == date_time.spec_year() - 1900,
    ensures
        tm.spec_names_date_time(),
        date_time.is(
            1900 + tm.year,
            1 + tm.mon,
            tm.mday as int,
            tm.hour as int,
            tm.min as int,
            tm.sec as int,
        ),
{
}

} // verus!
