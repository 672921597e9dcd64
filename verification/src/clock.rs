//! The time source: clock readings, and the date and time that a network
//! time stamp sets the real-time clock to.

use crate::scan::{digit_of, MAX_CLOCK_VALUE};
use vstd::prelude::*;

verus! {

/// The offset of the clock's time zone from UTC, in seconds: nine hours.
pub const UTC_OFFSET_SECS: i64 = 32_400;

/// The earliest second, counted from the Unix epoch, that can be converted
/// to a date.
pub const SECONDS_MIN: i64 = -46_387_741_132_800;

/// The latest second, counted from the Unix epoch, that can be converted
/// to a date.
pub const SECONDS_MAX: i64 = 46_381_619_174_399;

/// The largest year that the real-time clock holds.
pub const YEAR_MAX: u16 = 4095;

/// The reading that stands for `hour` and `minute`: the hour in the upper
/// two decimal digits, the minute in the lower two.
pub open spec fn time_value(hour: u8, minute: u8) -> int {
    hour * 100 + minute
}

/// The clock reading for `hour` and `minute`.
pub fn encode_time(hour: u8, minute: u8) -> (value: u16)
    ensures
        value == time_value(hour, minute),
{
    hour as u16 * 100 + minute as u16
}

/// The reading of a time of day is at most 2359, and its four digits are
/// the two digits of the hour followed by the two digits of the minute.
pub proof fn time_value_digits(hour: u8, minute: u8)
    requires
        hour < 24,
        minute < 60,
    ensures
        0 <= time_value(hour, minute) <= MAX_CLOCK_VALUE,
        digit_of(time_value(hour, minute) as u16, 4) == hour / 10,
        digit_of(time_value(hour, minute) as u16, 3) == hour % 10,
        digit_of(time_value(hour, minute) as u16, 2) == minute / 10,
        digit_of(time_value(hour, minute) as u16, 1) == minute % 10,
{
}

/// A day of the week.
#[derive(Clone, Copy, Debug, PartialEq, Eq, Structural)]
pub enum DayOfWeek {
    Sunday,
    Monday,
    Tuesday,
    Wednesday,
    Thursday,
    Friday,
    Saturday,
}

/// A date and time as the real-time clock holds it.
#[derive(Clone, Copy, Debug, PartialEq, Eq, Structural)]
pub struct DateTime {
    /// 0 to 4095.
    pub year: u16,
    /// 1 to 12; 1 is January.
    pub month: u8,
    /// 1 to 31.
    pub day: u8,
    pub day_of_week: DayOfWeek,
    /// 0 to 23.
    pub hour: u8,
    /// 0 to 59.
    pub minute: u8,
    /// 0 to 59.
    pub second: u8,
}

/// Why the real-time clock does not take a date and time.
#[derive(Clone, Copy, Debug, PartialEq, Eq, Structural)]
pub enum DateTimeError {
    InvalidYear,
    InvalidMonth,
    InvalidDay,
    InvalidHour,
    InvalidMinute,
    InvalidSecond,
}

impl DateTime {
    /// The first field, in the order year, month, day, hour, minute,
    /// second, that is out of its range; `None` where every field is in
    /// range.
    pub open spec fn fault(self) -> Option<DateTimeError> {
        if self.year > YEAR_MAX {
            Some(DateTimeError::InvalidYear)
        } else if self.month < 1 || self.month > 12 {
            Some(DateTimeError::InvalidMonth)
        } else if self.day < 1 || self.day > 31 {
            Some(DateTimeError::InvalidDay)
        } else if self.hour > 23 {
            Some(DateTimeError::InvalidHour)
        } else if self.minute > 59 {
            Some(DateTimeError::InvalidMinute)
        } else if self.second > 59 {
            Some(DateTimeError::InvalidSecond)
        } else {
            None
        }
    }

    /// Whether the real-time clock takes this date and time.
    pub open spec fn is_valid(self) -> bool {
        &&& self.year <= YEAR_MAX
        &&& 1 <= self.month <= 12
        &&& 1 <= self.day <= 31
        &&& self.hour <= 23
        &&& self.minute <= 59
        &&& self.second <= 59
    }

    /// Checks every field against its range.
    pub fn validate(&self) -> (checked: Result<(), DateTimeError>)
        ensures
            checked is Ok <==> self.is_valid(),
            checked == match self.fault() {
                Some(error) => Err::<(), DateTimeError>(error),
                None => Ok(()),
            },
    {
        if self.year > YEAR_MAX {
            Err(DateTimeError::InvalidYear)
        } else if self.month < 1 || self.month > 12 {
            Err(DateTimeError::InvalidMonth)
        } else if self.day < 1 || self.day > 31 {
            Err(DateTimeError::InvalidDay)
        } else if self.hour > 23 {
            Err(DateTimeError::InvalidHour)
        } else if self.minute > 59 {
            Err(DateTimeError::InvalidMinute)
        } else if self.second > 59 {
            Err(DateTimeError::InvalidSecond)
        } else {
            Ok(())
        }
    }

    /// The clock reading of this date and time: its hour and minute.
    pub fn reading(&self) -> (value: u16)
        ensures
            value == time_value(self.hour, self.minute),
            self.is_valid() ==> value <= MAX_CLOCK_VALUE,
    {
        encode_time(self.hour, self.minute)
    }
}

/// The date and time that a real-time clock that is not running is set to
/// at startup: 16 April 2007, seven o'clock.
pub open spec fn startup_date() -> DateTime {
    DateTime {
        year: 2007,
        month: 4,
        day: 16,
        day_of_week: DayOfWeek::Monday,
        hour: 7,
        minute: 0,
        second: 0,
    }
}

/// The date and time that a real-time clock that is not running is set to
/// at startup.
pub fn startup_datetime() -> (date: DateTime)
    ensures
        date == startup_date(),
        date.is_valid(),
{
    DateTime {
        year: 2007,
        month: 4,
        day: 16,
        day_of_week: DayOfWeek::Monday,
        hour: 7,
        minute: 0,
        second: 0,
    }
}

/// The date and time that the fields `(year, month, day, hour, minute,
/// second)` stand for. The year keeps its low sixteen bits. The day of the
/// week is not computed: it is always Monday.
pub open spec fn datetime_of(civil: (i32, u8, u8, u8, u8, u8)) -> DateTime {
    DateTime {
        year: civil.0 as u16,
        month: civil.1,
        day: civil.2,
        day_of_week: DayOfWeek::Monday,
        hour: civil.3,
        minute: civil.4,
        second: civil.5,
    }
}

/// What the real-time clock is set to for the fields `(year, month, day,
/// hour, minute, second)`: their date and time where it is valid, and else
/// the first fault.
pub open spec fn checked_datetime_of(civil: (i32, u8, u8, u8, u8, u8)) -> Result<
    DateTime,
    DateTimeError,
> {
    match datetime_of(civil).fault() {
        Some(error) => Err(error),
        None => Ok(datetime_of(civil)),
    }
}

/// Builds the date and time for the fields `(year, month, day, hour,
/// minute, second)` and checks it.
pub fn datetime_from_civil(civil: (i32, u8, u8, u8, u8, u8)) -> (made: Result<
    DateTime,
    DateTimeError,
>)
    ensures
        made == checked_datetime_of(civil),
        made is Ok ==> made->Ok_0.is_valid(),
{
    let date = DateTime {
        year: #[verifier::truncate]
        (civil.0 as u16),
        month: civil.1,
        day: civil.2,
        day_of_week: DayOfWeek::Monday,
        hour: civil.3,
        minute: civil.4,
        second: civil.5,
    };
    match date.validate() {
        Ok(()) => Ok(date),
        Err(error) => Err(error),
    }
}

/// The fields `(year, month, day, hour, minute, second)` of the second
/// `secs`, counted from the Unix epoch, in the proleptic Gregorian
/// calendar.
pub uninterp spec fn civil_of(secs: i64) -> (i32, u8, u8, u8, u8, u8);

/// Trusted: `datealgo::secs_to_datetime`. The contract names the fields
/// that come back and claims of them that hour, minute and second are
/// those of the second within its day, where days are counted in whole
/// multiples of 86400 seconds from the epoch. The bounds are those that
/// the function documents; outside them it fails a debug assertion.
#[verifier::external_body]
fn civil_from_secs(secs: i64) -> (civil: (i32, u8, u8, u8, u8, u8))
    requires
        SECONDS_MIN <= secs <= SECONDS_MAX,
    ensures
        civil == civil_of(secs),
        civil.3 == (secs as int % 86400) / 3600,
        civil.4 == (secs as int % 3600) / 60,
        civil.5 == secs as int % 60,
{
    datealgo::secs_to_datetime(secs)
}

/// Why a network time stamp does not set the clock.
#[derive(Clone, Copy, Debug, PartialEq, Eq, Structural)]
pub enum ClockError {
    /// The time stamp, moved to the clock's time zone, lies outside
    /// [`SECONDS_MIN`] to [`SECONDS_MAX`].
    OutOfRange,
    /// The date and time of the time stamp is one that the real-time clock
    /// does not take.
    Invalid(DateTimeError),
}

/// Whether the time stamp `epoch_secs`, moved to the clock's time zone,
/// can be converted to a date.
pub open spec fn convertible(epoch_secs: i64) -> bool {
    SECONDS_MIN <= epoch_secs + UTC_OFFSET_SECS <= SECONDS_MAX
}

/// The time stamp `epoch_secs` moved to the clock's time zone.
pub open spec fn local_secs(epoch_secs: i64) -> i64 {
    (epoch_secs + UTC_OFFSET_SECS) as i64
}

/// What the time stamp `epoch_secs` sets the clock to.
pub open spec fn clock_setting_of(epoch_secs: i64) -> Result<DateTime, ClockError> {
    if !convertible(epoch_secs) {
        Err(ClockError::OutOfRange)
    } else {
        match checked_datetime_of(civil_of(local_secs(epoch_secs))) {
            Ok(date) => Ok(date),
            Err(error) => Err(ClockError::Invalid(error)),
        }
    }
}

/// The date and time to set the real-time clock to for the time stamp
/// `epoch_secs`, in whole seconds from the Unix epoch in UTC: the time
/// stamp is moved nine hours ahead and split into calendar fields.
///
/// Where the clock is set, its hour and minute are those of the moved
/// second within its day, so the reading that the display then shows is the
/// time of day at UTC+9.
pub fn clock_setting(epoch_secs: i64) -> (setting: Result<DateTime, ClockError>)
    ensures
        setting == clock_setting_of(epoch_secs),
        setting is Ok ==> {
            let date = setting->Ok_0;
            let local = epoch_secs + UTC_OFFSET_SECS;
            &&& date.is_valid()
            &&& date.hour == (local % 86400) / 3600
            &&& date.minute == (local % 3600) / 60
            &&& date.second == local % 60
            &&& time_value(date.hour, date.minute) == (local % 86400) / 3600 * 100 + (local % 3600)
                / 60
        },
{
    if epoch_secs < SECONDS_MIN - UTC_OFFSET_SECS || epoch_secs > SECONDS_MAX - UTC_OFFSET_SECS {
        return Err(ClockError::OutOfRange);
    }
    let civil = civil_from_secs(epoch_secs + UTC_OFFSET_SECS);
    match datetime_from_civil(civil) {
        Ok(date) => Ok(date),
        Err(error) => Err(ClockError::Invalid(error)),
    }
}

/// The time source of the simple clock: each press of the button hands out
/// one of two fixed readings, in turn.
pub struct Toggle {
    next: u16,
}

/// The reading that the simple clock starts with.
pub const FIRST_READING: u16 = 1234;

/// The reading that the simple clock alternates with.
pub const SECOND_READING: u16 = 4321;

impl Toggle {
    /// The reading that the next press hands out.
    pub closed spec fn view(&self) -> u16 {
        self.next
    }

    /// A toggle whose first press hands out [`FIRST_READING`].
    pub fn new() -> (toggle: Self)
        ensures
            toggle@ == FIRST_READING,
    {
        Toggle { next: FIRST_READING }
    }

    /// Hands out the reading to store for one press of the button, and
    /// switches to the other reading for the next press.
    pub fn press(&mut self) -> (reading: u16)
        ensures
            reading == old(self)@,
            final(self)@ == if old(self)@ == FIRST_READING {
                SECOND_READING
            } else {
                FIRST_READING
            },
    {
        let reading = self.next;
        if self.next == FIRST_READING {
            self.next = SECOND_READING;
        } else {
            self.next = FIRST_READING;
        }
        reading
    }
}

} // verus!
