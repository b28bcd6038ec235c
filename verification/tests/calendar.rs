use odbc_api_helper::calendar::CalendarError;
use odbc_api_helper::sys::{OdbcDate, OdbcTime, OdbcTimestamp};

#[test]
fn leap_day_in_leap_year_succeeds() {
    let d = OdbcDate { year: 2020, month: 2, day: 29 };
    let expected = time::Date::from_calendar_date(2020, time::Month::February, 29).unwrap();
    assert_eq!(d.try_convert().unwrap(), expected);
}

#[test]
fn leap_day_in_common_year_fails() {
    let d = OdbcDate { year: 2021, month: 2, day: 29 };
    assert_eq!(d.try_convert(), Err(CalendarError::DayOutOfRange { value: 29 }));
}

#[test]
fn december_31_succeeds_exactly() {
    let d = OdbcDate { year: 2022, month: 12, day: 31 };
    let got = d.try_convert().unwrap();
    let expected = time::Date::from_calendar_date(2022, time::Month::December, 31).unwrap();
    assert_eq!(got, expected);
    assert_eq!(got.year(), 2022);
    assert_eq!(got.month(), time::Month::December);
    assert_eq!(got.day(), 31);
}

#[test]
fn first_of_january_succeeds() {
    let d = OdbcDate { year: 2020, month: 1, day: 1 };
    let expected = time::Date::from_calendar_date(2020, time::Month::January, 1).unwrap();
    assert_eq!(d.try_convert().unwrap(), expected);
}

#[test]
fn century_year_is_not_leap() {
    let d = OdbcDate { year: 1900, month: 2, day: 29 };
    assert_eq!(d.try_convert(), Err(CalendarError::DayOutOfRange { value: 29 }));
    let d400 = OdbcDate { year: 2000, month: 2, day: 29 };
    assert!(d400.try_convert().is_ok());
}

#[test]
fn month_out_of_range_fails() {
    let d = OdbcDate { year: 2022, month: 13, day: 1 };
    assert_eq!(d.try_convert(), Err(CalendarError::MonthOutOfRange { value: 13 }));
    let d0 = OdbcDate { year: 2022, month: 0, day: 1 };
    assert_eq!(d0.try_convert(), Err(CalendarError::MonthOutOfRange { value: 0 }));
}

#[test]
fn year_out_of_range_fails() {
    let d = OdbcDate { year: 10000, month: 1, day: 1 };
    assert_eq!(d.try_convert(), Err(CalendarError::YearOutOfRange { value: 10000 }));
    let d_neg = OdbcDate { year: -10000, month: 1, day: 1 };
    assert_eq!(d_neg.try_convert(), Err(CalendarError::YearOutOfRange { value: -10000 }));
}

#[test]
fn day_zero_fails() {
    let d = OdbcDate { year: 2022, month: 4, day: 0 };
    assert_eq!(d.try_convert(), Err(CalendarError::DayOutOfRange { value: 0 }));
    let d31 = OdbcDate { year: 2022, month: 4, day: 31 };
    assert_eq!(d31.try_convert(), Err(CalendarError::DayOutOfRange { value: 31 }));
}

#[test]
fn last_second_of_day_succeeds() {
    let t = OdbcTime { hour: 23, minute: 59, second: 59 };
    let expected = time::Time::from_hms(23, 59, 59).unwrap();
    assert_eq!(t.try_convert().unwrap(), expected);
}

#[test]
fn hour_24_fails() {
    let t = OdbcTime { hour: 24, minute: 0, second: 0 };
    assert_eq!(t.try_convert(), Err(CalendarError::HourOutOfRange { value: 24 }));
}

#[test]
fn minute_and_second_out_of_range_fail() {
    let t = OdbcTime { hour: 3, minute: 60, second: 0 };
    assert_eq!(t.try_convert(), Err(CalendarError::MinuteOutOfRange { value: 60 }));
    let t2 = OdbcTime { hour: 3, minute: 1, second: 60 };
    assert_eq!(t2.try_convert(), Err(CalendarError::SecondOutOfRange { value: 60 }));
}

#[test]
fn ordinary_time_succeeds() {
    let t = OdbcTime { hour: 3, minute: 1, second: 1 };
    let expected = time::Time::from_hms(3, 1, 1).unwrap();
    assert_eq!(t.try_convert().unwrap(), expected);
    let t2 = OdbcTime { hour: 19, minute: 31, second: 59 };
    let expected2 = time::Time::from_hms(19, 31, 59).unwrap();
    assert_eq!(t2.try_convert().unwrap(), expected2);
}

#[test]
fn fractional_second_converts_to_nanoseconds() {
    let t = OdbcTime { hour: 12, minute: 30, second: 15 };
    let expected = time::Time::from_hms_nano(12, 30, 15, 123_456_789).unwrap();
    assert_eq!(t.try_convert_nano(123_456_789).unwrap(), expected);
}

#[test]
fn nanosecond_boundary() {
    let t = OdbcTime { hour: 0, minute: 0, second: 0 };
    assert!(t.try_convert_nano(999_999_999).is_ok());
    assert_eq!(
        t.try_convert_nano(1_000_000_000),
        Err(CalendarError::NanosecondOutOfRange { value: 1_000_000_000 })
    );
}

#[test]
fn timestamp_splits_into_date_and_time() {
    let ts = OdbcTimestamp {
        year: 2022,
        month: 12,
        day: 31,
        hour: 6,
        minute: 10,
        second: 20,
        fraction: 4_000_000,
    };
    let (date, tod) = ts.try_convert().unwrap();
    let expected_date = time::Date::from_calendar_date(2022, time::Month::December, 31).unwrap();
    let expected_time = time::Time::from_hms_nano(6, 10, 20, 4_000_000).unwrap();
    assert_eq!(date, expected_date);
    assert_eq!(tod, expected_time);
}

#[test]
fn timestamp_reports_date_error_first() {
    let ts = OdbcTimestamp {
        year: 2021,
        month: 2,
        day: 29,
        hour: 99,
        minute: 0,
        second: 0,
        fraction: 0,
    };
    assert_eq!(ts.try_convert(), Err(CalendarError::DayOutOfRange { value: 29 }));
}

#[test]
fn timestamp_reports_time_error_when_date_valid() {
    let ts = OdbcTimestamp {
        year: 2021,
        month: 2,
        day: 28,
        hour: 99,
        minute: 0,
        second: 0,
        fraction: 0,
    };
    assert_eq!(ts.try_convert(), Err(CalendarError::HourOutOfRange { value: 99 }));
}

#[test]
fn timestamp_combines_into_datetime() {
    let ts = OdbcTimestamp {
        year: 2020,
        month: 1,
        day: 1,
        hour: 0,
        minute: 0,
        second: 0,
        fraction: 0,
    };
    let dt = ts.try_convert_datetime().unwrap();
    let expected = time::PrimitiveDateTime::new(
        time::Date::from_calendar_date(2020, time::Month::January, 1).unwrap(),
        time::Time::from_hms(0, 0, 0).unwrap(),
    );
    assert_eq!(dt, expected);
}

#[test]
fn timestamp_datetime_propagates_errors() {
    let ts = OdbcTimestamp {
        year: 2020,
        month: 13,
        day: 1,
        hour: 0,
        minute: 0,
        second: 0,
        fraction: 0,
    };
    assert_eq!(
        ts.try_convert_datetime(),
        Err(CalendarError::MonthOutOfRange { value: 13 })
    );
}
