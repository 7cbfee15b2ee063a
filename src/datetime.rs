//! Calendar values as the real-time clock reports them.
use vstd::prelude::*;

verus! {

/// A calendar date and time of day. `weekday` counts days from Sunday
/// (Sunday is 0).
#[derive(Clone, Copy, Debug, PartialEq, Eq, Structural)]
pub struct Timestamp {
    pub year: u32,
    pub month: u32,
    pub day: u32,
    pub weekday: u32,
    pub hour: u32,
    pub minute: u32,
    pub second: u32,
}

/// Gregorian leap years: divisible by 4 and not by 100, or divisible by 400.
pub open spec fn is_leap_year(year: int) -> bool {
    (year % 4 == 0 && year % 100 != 0) || year % 400 == 0
}

/// The number of days of `month` in `year`; a month number outside 1..=12
/// counts as a month of 31 days.
pub open spec fn month_length(month: int, year: int) -> int {
    if month == 4 || month == 6 || month == 9 || month == 11 {
        30
    } else if month == 2 {
        if is_leap_year(year) {
            29
        } else {
            28
        }
    } else {
        31
    }
}

impl Timestamp {
    /// Every field lies in its calendar range, and the year has at most
    /// four digits.
    pub open spec fn wf(&self) -> bool {
        &&& self.year <= 9999
        &&& 1 <= self.month <= 12
        &&& 1 <= self.day <= month_length(self.month as int, self.year as int)
        &&& self.weekday < 7
        &&& self.hour < 24
        &&& self.minute < 60
        &&& self.second < 60
    }

    /// The same moment with the hour replaced.
    pub open spec fn with_hour(&self, hour: u32) -> Timestamp {
        Timestamp { hour, ..*self }
    }
}

impl Timestamp {
    /// Whether every field lies in its calendar range.
    pub fn is_valid(&self) -> (r: bool)
        ensures
            r == self.wf(),
    {
        self.year <= 9999 && 1 <= self.month && self.month <= 12 && 1 <= self.day && self.day
            <= days_in_month(self.month, self.year) && self.weekday < 7 && self.hour < 24
            && self.minute < 60 && self.second < 60
    }

    /// Midnight at the start of 1 January of year 0 (a Saturday), moved to
    /// `hour`:`minute`: a carrier for a bare time of day.
    pub fn time_of_day(hour: u32, minute: u32) -> (r: Timestamp)
        requires
            hour < 24,
            minute < 60,
        ensures
            r.wf(),
            r.hour == hour,
            r.minute == minute,
    {
        Timestamp { year: 0, month: 1, day: 1, weekday: 6, hour, minute, second: 0 }
    }
}

/// The number of days of `month` in `year`.
pub fn days_in_month(month: u32, year: u32) -> (r: u32)
    ensures
        r == month_length(month as int, year as int),
{
    if month == 4 || month == 6 || month == 9 || month == 11 {
        30
    } else if month == 2 {
        if (year % 4 == 0 && year % 100 != 0) || year % 400 == 0 {
            29
        } else {
            28
        }
    } else {
        31
    }
}

} // verus!
