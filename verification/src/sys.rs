//! Plain value structs mirroring the ODBC driver's calendar types.
//!
//! The driver delivers dates, times and timestamps as C structs of plain
//! integer fields (`SQL_DATE_STRUCT`, `SQL_TIME_STRUCT`,
//! `SQL_TIMESTAMP_STRUCT`). These mirrors hold exactly those fields, with the
//! driver's field widths, so that every value the driver can deliver can be
//! represented; validity is checked only by the calendar converters.

use vstd::prelude::*;

verus! {

/// A calendar date as the driver reports it: year, month and day, unvalidated.
#[derive(Clone, Copy, Debug, Default, PartialEq, Eq, Structural, Hash)]
pub struct OdbcDate {
    pub year: i16,
    pub month: u16,
    pub day: u16,
}

/// A time of day as the driver reports it: whole seconds only, unvalidated.
#[derive(Clone, Copy, Debug, Default, PartialEq, Eq, Structural, Hash)]
pub struct OdbcTime {
    pub hour: u16,
    pub minute: u16,
    pub second: u16,
}

/// A combined date and time as the driver reports it. The `fraction` field
/// counts nanoseconds past the whole second.
#[derive(Clone, Copy, Debug, Default, PartialEq, Eq, Structural, Hash)]
pub struct OdbcTimestamp {
    pub year: i16,
    pub month: u16,
    pub day: u16,
    pub hour: u16,
    pub minute: u16,
    pub second: u16,
    pub fraction: u32,
}

impl OdbcTimestamp {
    /// The date part of the timestamp.
    pub fn date_part(&self) -> (r: OdbcDate)
        ensures
            r == (OdbcDate { year: self.year, month: self.month, day: self.day }),
    {
        OdbcDate { year: self.year, month: self.month, day: self.day }
    }

    /// The time-of-day part of the timestamp, without the fractional second.
    pub fn time_part(&self) -> (r: OdbcTime)
        ensures
            r == (OdbcTime { hour: self.hour, minute: self.minute, second: self.second }),
    {
        OdbcTime { hour: self.hour, minute: self.minute, second: self.second }
    }
}

} // verus!
