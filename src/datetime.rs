//! Calendar points and environment measurements, as plain values.
use vstd::prelude::*;

verus! {

/// Lowest year the clock can hold.
pub const YEAR_MIN: u16 = 1970;

/// Highest year the clock can hold.
pub const YEAR_MAX: u16 = 2105;

#[derive(Clone, Copy, Debug, PartialEq, Eq, Structural)]
pub enum DayOfWeek {
    Monday,
    Tuesday,
    Wednesday,
    Thursday,
    Friday,
    Saturday,
    Sunday,
}

/// A point of the calendar, down to the second.
#[derive(Clone, Copy, Debug, PartialEq, Eq, Structural)]
pub struct DateTime {
    pub year: u16,
    pub month: u8,
    pub day: u8,
    pub hour: u8,
    pub min: u8,
    pub sec: u8,
    pub day_of_week: DayOfWeek,
}

impl DateTime {
    /// Every field lies in its domain.
    pub open spec fn wf(self) -> bool {
        &&& YEAR_MIN <= self.year <= YEAR_MAX
        &&& 1 <= self.month <= 12
        &&& 1 <= self.day <= 31
        &&& self.hour < 24
        &&& self.min < 60
        &&& self.sec < 60
    }

    /// Whether every field lies in its domain.
    pub fn is_valid(&self) -> (r: bool)
        ensures
            r == self.wf(),
    {
        YEAR_MIN <= self.year && self.year <= YEAR_MAX && 1 <= self.month && self.month <= 12
            && 1 <= self.day && self.day <= 31 && self.hour < 24 && self.min < 60 && self.sec < 60
    }

    /// The start of the counter: 1970-01-01 00:00:00, a Thursday.
    pub open spec fn epoch_spec() -> DateTime {
        DateTime {
            year: 1970,
            month: 1,
            day: 1,
            hour: 0,
            min: 0,
            sec: 0,
            day_of_week: DayOfWeek::Thursday,
        }
    }

    /// The start of the counter.
    pub fn epoch() -> (r: DateTime)
        ensures
            r.wf(),
            r == Self::epoch_spec(),
    {
        DateTime { year: 1970, month: 1, day: 1, hour: 0, min: 0, sec: 0, day_of_week: DayOfWeek::Thursday }
    }
}

/// One reading of the environment sensor.
#[derive(Clone, Copy, Debug, PartialEq, Eq, Structural)]
pub struct Measurement {
    /// Pascals.
    pub pressure: u32,
    /// Hundredths of a degree Celsius.
    pub temperature: i16,
    /// Percent; 0 when the sensor has no humidity channel.
    pub humidity: u8,
}

} // verus!
