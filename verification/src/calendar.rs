//! The calendar validator: turns six raw components into a validated
//! Gregorian timestamp, or rejects them.
//!
//! This is the only place calendar semantics (days per month, leap years)
//! are enforced. Construction is all-or-nothing: one bad component fails the
//! whole timestamp; nothing is clamped.

use vstd::prelude::*;

use crate::errors::StampError;
use crate::field::RawTimestampComponents;

verus! {

/// A validated Gregorian date and time of day.
///
/// Invariant: `wf()` holds for every value built by `validate`, so a
/// `CalendarTimestamp` always names a real, unambiguous calendar point.
#[derive(Debug, Clone, Copy, PartialEq, Eq, Structural)]
pub struct CalendarTimestamp {
    pub year: u16,
    pub month: u8,
    pub day: u8,
    pub hour: u8,
    pub minute: u8,
    pub second: u8,
}

/// A proleptic-Gregorian leap year: divisible by four, except century years
/// not divisible by four hundred.
pub open spec fn is_leap_year(year: int) -> bool {
    year % 4 == 0 && (year % 100 != 0 || year % 400 == 0)
}

/// Number of days in the given month of the given year.
pub open spec fn days_in_month(year: int, month: int) -> int {
    if month == 2 {
        if is_leap_year(year) {
            29
        } else {
            28
        }
    } else if month == 4 || month == 6 || month == 9 || month == 11 {
        30
    } else {
        31
    }
}

/// The components name a real calendar date and a real time of day.
pub open spec fn components_valid(c: RawTimestampComponents) -> bool {
    &&& 1 <= c.month <= 12
    &&& 1 <= c.day <= days_in_month(c.year as int, c.month as int)
    &&& c.hour <= 23
    &&& c.minute <= 59
    &&& c.second <= 59
}

impl CalendarTimestamp {
    /// The six components this timestamp was validated from.
    pub open spec fn to_components(self) -> RawTimestampComponents {
        RawTimestampComponents {
            year: self.year,
            month: self.month,
            day: self.day,
            hour: self.hour,
            minute: self.minute,
            second: self.second,
        }
    }

    /// Well-formedness: the fields name a real calendar date and time.
    pub open spec fn wf(self) -> bool {
        components_valid(self.to_components())
    }
}

/// The timestamp built from valid components.
pub open spec fn timestamp_from(c: RawTimestampComponents) -> CalendarTimestamp {
    CalendarTimestamp {
        year: c.year,
        month: c.month,
        day: c.day,
        hour: c.hour,
        minute: c.minute,
        second: c.second,
    }
}

/// True iff `year` is a leap year.
pub fn leap_year(year: u16) -> (r: bool)
    ensures
        r == is_leap_year(year as int),
{
    year % 4 == 0 && (year % 100 != 0 || year % 400 == 0)
}

/// Number of days in `month` of `year`.
///
/// Months outside 1..=12 are handled like their `days_in_month` image; the
/// validator rejects them on the month bound before the day bound matters.
pub fn month_length(year: u16, month: u8) -> (r: u8)
    ensures
        r == days_in_month(year as int, month as int),
{
    if month == 2 {
        if leap_year(year) {
            29
        } else {
            28
        }
    } else if month == 4 || month == 6 || month == 9 || month == 11 {
        30
    } else {
        31
    }
}

/// Validates six raw components into a calendar timestamp.
///
/// Succeeds exactly when the month is in 1..=12, the day fits the month and
/// year (leap years included), the hour is below 24 and minute and second are
/// below 60. Any single invalid component fails the whole timestamp.
pub fn validate(c: &RawTimestampComponents) -> (r: Result<CalendarTimestamp, StampError>)
    ensures
        r is Ok <==> components_valid(*c),
        r matches Ok(t) ==> t == timestamp_from(*c) && t.to_components() == *c && t.wf(),
        r matches Err(e) ==> e == StampError::InvalidCalendarDate,
{
    if c.month < 1 || c.month > 12 {
        return Err(StampError::InvalidCalendarDate);
    }
    if c.day < 1 || c.day > month_length(c.year, c.month) {
        return Err(StampError::InvalidCalendarDate);
    }
    if c.hour > 23 || c.minute > 59 || c.second > 59 {
        return Err(StampError::InvalidCalendarDate);
    }
    Ok(
        CalendarTimestamp {
            year: c.year,
            month: c.month,
            day: c.day,
            hour: c.hour,
            minute: c.minute,
            second: c.second,
        },
    )
}

} // verus!
