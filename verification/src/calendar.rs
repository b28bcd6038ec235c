//! Calendar conversions.
//!
//! The driver delivers dates and times as plain integer structs ([`crate::sys`]).
//! These conversions turn them into the `time` crate's validated values,
//! rejecting exactly the values that library rejects: a month outside 1–12, a
//! day that does not exist in its month and year, a year outside the
//! library's ±9999 range, or an out-of-range time-of-day field. Errors name
//! the offending field and carry its value; nothing is clamped or corrected.

use crate::sys::{OdbcDate, OdbcTime, OdbcTimestamp};
use vstd::math::abs;
use vstd::prelude::*;

verus! {

/// An out-of-range calendar or time-of-day component: the first offending
/// field, with the value the driver delivered.
#[derive(Clone, Copy, Debug, PartialEq, Eq, Structural)]
pub enum CalendarError {
    YearOutOfRange { value: i16 },
    MonthOutOfRange { value: u16 },
    DayOutOfRange { value: u16 },
    HourOutOfRange { value: u16 },
    MinuteOutOfRange { value: u16 },
    SecondOutOfRange { value: u16 },
    NanosecondOutOfRange { value: u32 },
}

/// A leap year in the proleptic Gregorian calendar: divisible by 4, and not
/// by 100 unless also by 400.
pub open spec fn is_leap_year(year: int) -> bool {
    abs(year) % 4 == 0 && (abs(year) % 100 != 0 || abs(year) % 400 == 0)
}

/// The number of days in the given month of the given year.
pub open spec fn days_in_month(year: int, month: int) -> int {
    if month == 2 {
        if is_leap_year(year) {
            29
        } else {
            28
        }
    } else if month == 4 || month == 6 || month == 9 || month == 11 {
        30
    } else {
        31
    }
}

/// A real calendar date within the calendar library's representable range:
/// the year within ±9999, the month within 1–12, and the day within the
/// month's length for that year.
pub open spec fn valid_date(year: int, month: int, day: int) -> bool {
    &&& -9999 <= year <= 9999
    &&& 1 <= month <= 12
    &&& 1 <= day <= days_in_month(year, month)
}

/// A valid time of day: hour 0–23, minute and second 0–59, nanosecond below
/// one billion.
pub open spec fn valid_time(hour: int, minute: int, second: int, nanosecond: int) -> bool {
    &&& 0 <= hour <= 23
    &&& 0 <= minute <= 59
    &&& 0 <= second <= 59
    &&& 0 <= nanosecond <= 999_999_999
}

/// The error an invalid date reports: the first offending field in the order
/// year, month, day.
pub open spec fn date_error_of(d: OdbcDate) -> CalendarError {
    if !(-9999 <= d.year <= 9999) {
        CalendarError::YearOutOfRange { value: d.year }
    } else if !(1 <= d.month <= 12) {
        CalendarError::MonthOutOfRange { value: d.month }
    } else {
        CalendarError::DayOutOfRange { value: d.day }
    }
}

/// The error an invalid time of day reports: the first offending field in
/// the order hour, minute, second, nanosecond.
pub open spec fn time_error_of(t: OdbcTime, nanosecond: u32) -> CalendarError {
    if t.hour > 23 {
        CalendarError::HourOutOfRange { value: t.hour }
    } else if t.minute > 59 {
        CalendarError::MinuteOutOfRange { value: t.minute }
    } else if t.second > 59 {
        CalendarError::SecondOutOfRange { value: t.second }
    } else {
        CalendarError::NanosecondOutOfRange { value: nanosecond }
    }
}

/// The error an invalid timestamp reports: its date part's error if the date
/// is invalid, else its time part's.
pub open spec fn timestamp_error_of(ts: OdbcTimestamp) -> CalendarError {
    if !valid_date(ts.year as int, ts.month as int, ts.day as int) {
        date_error_of(OdbcDate { year: ts.year, month: ts.month, day: ts.day })
    } else {
        time_error_of(OdbcTime { hour: ts.hour, minute: ts.minute, second: ts.second }, ts.fraction)
    }
}

#[verifier::external_type_specification]
#[verifier::external_body]
pub struct ExTimeDate(time::Date);

#[verifier::external_type_specification]
#[verifier::external_body]
pub struct ExTimeTime(time::Time);

#[verifier::external_type_specification]
#[verifier::external_body]
pub struct ExTimePrimitiveDateTime(time::PrimitiveDateTime);

/// The validated date the calendar library builds from the given fields.
pub uninterp spec fn date_of(year: int, month: int, day: int) -> time::Date;

/// The validated time of day the calendar library builds from the given
/// fields.
pub uninterp spec fn time_of(hour: int, minute: int, second: int, nanosecond: int) -> time::Time;

/// The combined value the calendar library builds from a date and a time of
/// day.
pub uninterp spec fn datetime_of(date: time::Date, tod: time::Time) -> time::PrimitiveDateTime;

/// Relies on `time::Month::try_from` (`Ok` exactly for the numbers 1 through
/// 12) and `time::Date::from_calendar_date` (`Ok` exactly when the year lies
/// within ±9999 and the day lies within the month's length for that year,
/// counting leap years): builds the library's validated date from plain
/// fields. The result depends on the fields alone.
#[verifier::external_body]
fn date_from_ymd(year: i32, month: u8, day: u8) -> (r: Option<time::Date>)
    ensures
        r is Some <==> valid_date(year as int, month as int, day as int),
        r matches Some(d) ==> d == date_of(year as int, month as int, day as int),
{
    match time::Month::try_from(month) {
        Ok(m) => time::Date::from_calendar_date(year, m, day).ok(),
        Err(_) => None,
    }
}

/// Relies on `time::Time::from_hms_nano`: `Ok` exactly when the hour is at
/// most 23, minute and second at most 59 and the nanosecond below one
/// billion. The result depends on the fields alone.
#[verifier::external_body]
fn time_from_hms_nano(hour: u8, minute: u8, second: u8, nanosecond: u32) -> (r: Option<
    time::Time,
>)
    ensures
        r is Some <==> valid_time(hour as int, minute as int, second as int, nanosecond as int),
        r matches Some(t) ==> t == time_of(
            hour as int,
            minute as int,
            second as int,
            nanosecond as int,
        ),
{
    time::Time::from_hms_nano(hour, minute, second, nanosecond).ok()
}

/// Relies on `time::PrimitiveDateTime::new`: it pairs the date with the time
/// of day, a function of its arguments alone, and cannot fail.
#[verifier::external_body]
fn datetime_new(date: time::Date, tod: time::Time) -> (r: time::PrimitiveDateTime)
    ensures
        r == datetime_of(date, tod),
{
    time::PrimitiveDateTime::new(date, tod)
}

/// Whether the year is a leap year, for years the calendar library can
/// represent.
fn leap_year(year: i32) -> (r: bool)
    requires
        -9999 <= year <= 9999,
    ensures
        r == is_leap_year(year as int),
{
    let a: i32 = if year < 0 {
        -year
    } else {
        year
    };
    a % 4 == 0 && (a % 100 != 0 || a % 400 == 0)
}

/// The number of days in the given month of the given year.
fn month_length(year: i32, month: u16) -> (r: u16)
    requires
        -9999 <= year <= 9999,
        1 <= month <= 12,
    ensures
        r == days_in_month(year as int, month as int),
{
    if month == 2 {
        if leap_year(year) {
            29
        } else {
            28
        }
    } else if month == 4 || month == 6 || month == 9 || month == 11 {
        30
    } else {
        31
    }
}

impl OdbcDate {
    /// Converts the driver's date into the calendar library's validated
    /// date. Succeeds exactly on real calendar dates within the library's
    /// ±9999 year range; an invalid date reports its first offending field,
    /// checked in the order year, month, day.
    pub fn try_convert(&self) -> (r: Result<time::Date, CalendarError>)
        ensures
            r is Ok <==> valid_date(self.year as int, self.month as int, self.day as int),
            r matches Ok(d) ==> d == date_of(self.year as int, self.month as int, self.day as int),
            r matches Err(e) ==> e == date_error_of(*self),
    {
        if self.year < -9999 || self.year > 9999 {
            return Err(CalendarError::YearOutOfRange { value: self.year });
        }
        if self.month < 1 || self.month > 12 {
            return Err(CalendarError::MonthOutOfRange { value: self.month });
        }
        let len = month_length(self.year as i32, self.month);
        if self.day < 1 || self.day > len {
            return Err(CalendarError::DayOutOfRange { value: self.day });
        }
        Ok(date_from_ymd(self.year as i32, self.month as u8, self.day as u8).unwrap())
    }
}

impl OdbcTime {
    /// Converts the driver's time of day (whole seconds) into the calendar
    /// library's validated time. Succeeds exactly when every field is in
    /// range; an invalid time reports its first offending field.
    pub fn try_convert(&self) -> (r: Result<time::Time, CalendarError>)
        ensures
            r is Ok <==> valid_time(self.hour as int, self.minute as int, self.second as int, 0),
            r matches Ok(t) ==> t == time_of(
                self.hour as int,
                self.minute as int,
                self.second as int,
                0,
            ),
            r matches Err(e) ==> e == time_error_of(*self, 0),
    {
        self.try_convert_nano(0)
    }

    /// Converts the driver's time of day together with a fractional second,
    /// given in nanoseconds. Succeeds exactly when every field is in range;
    /// an invalid time reports its first offending field, checked in the
    /// order hour, minute, second, nanosecond.
    pub fn try_convert_nano(&self, nanosecond: u32) -> (r: Result<time::Time, CalendarError>)
        ensures
            r is Ok <==> valid_time(
                self.hour as int,
                self.minute as int,
                self.second as int,
                nanosecond as int,
            ),
            r matches Ok(t) ==> t == time_of(
                self.hour as int,
                self.minute as int,
                self.second as int,
                nanosecond as int,
            ),
            r matches Err(e) ==> e == time_error_of(*self, nanosecond),
    {
        if self.hour > 23 {
            return Err(CalendarError::HourOutOfRange { value: self.hour });
        }
        if self.minute > 59 {
            return Err(CalendarError::MinuteOutOfRange { value: self.minute });
        }
        if self.second > 59 {
            return Err(CalendarError::SecondOutOfRange { value: self.second });
        }
        if nanosecond > 999_999_999 {
            return Err(CalendarError::NanosecondOutOfRange { value: nanosecond });
        }
        Ok(
            time_from_hms_nano(
                self.hour as u8,
                self.minute as u8,
                self.second as u8,
                nanosecond,
            ).unwrap(),
        )
    }
}

impl OdbcTimestamp {
    /// Converts the driver's timestamp into the calendar library's validated
    /// date and time of day; the `fraction` field becomes the nanosecond
    /// component. Succeeds exactly when both parts are valid; an invalid
    /// timestamp reports its date part's error first, then its time part's.
    pub fn try_convert(&self) -> (r: Result<(time::Date, time::Time), CalendarError>)
        ensures
            r is Ok <==> (valid_date(self.year as int, self.month as int, self.day as int)
                && valid_time(
                self.hour as int,
                self.minute as int,
                self.second as int,
                self.fraction as int,
            )),
            r matches Ok(p) ==> p.0 == date_of(self.year as int, self.month as int, self.day as int)
                && p.1 == time_of(
                self.hour as int,
                self.minute as int,
                self.second as int,
                self.fraction as int,
            ),
            r matches Err(e) ==> e == timestamp_error_of(*self),
    {
        let date = match self.date_part().try_convert() {
            Ok(d) => d,
            Err(e) => {
                return Err(e);
            },
        };
        let tod = match self.time_part().try_convert_nano(self.fraction) {
            Ok(t) => t,
            Err(e) => {
                return Err(e);
            },
        };
        Ok((date, tod))
    }

    /// Converts the driver's timestamp into the calendar library's combined
    /// date-time value, with the same validity and error behaviour as
    /// [`OdbcTimestamp::try_convert`].
    pub fn try_convert_datetime(&self) -> (r: Result<time::PrimitiveDateTime, CalendarError>)
        ensures
            r is Ok <==> (valid_date(self.year as int, self.month as int, self.day as int)
                && valid_time(
                self.hour as int,
                self.minute as int,
                self.second as int,
                self.fraction as int,
            )),
            r matches Ok(dt) ==> dt == datetime_of(
                date_of(self.year as int, self.month as int, self.day as int),
                time_of(
                    self.hour as int,
                    self.minute as int,
                    self.second as int,
                    self.fraction as int,
                ),
            ),
            r matches Err(e) ==> e == timestamp_error_of(*self),
    {
        match self.try_convert() {
            Ok((date, tod)) => Ok(datetime_new(date, tod)),
            Err(e) => Err(e),
        }
    }
}

} // verus!
