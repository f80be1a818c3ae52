//! Calendar values as plain integers, and the numeric codes the columns store.
//!
//! A date is a year, a month and a day of the proleptic Gregorian calendar, with
//! a year zero. A time of day is an hour, a minute, a second and a nanosecond;
//! a nanosecond of a thousand million or more marks a leap second, and then the
//! second is 59. The codes are counted from 1970-01-01T00:00:00.

use vstd::arithmetic::div_mod::lemma_hoist_over_denominator;
use vstd::arithmetic::div_mod::lemma_mod_multiples_vanish;
use vstd::prelude::*;

verus! {

/// The earliest year a date can name.
pub const MIN_YEAR: i32 = -262143;

/// The latest year a date can name.
pub const MAX_YEAR: i32 = 262142;

/// The resolution at which a date-time is counted from the epoch.
#[derive(Clone, Copy, Debug, PartialEq, Eq, Structural)]
pub enum TimeUnit {
    Nanoseconds,
    Microseconds,
    Milliseconds,
}

/// A day of the calendar.
#[derive(Clone, Copy, Debug, PartialEq, Eq, Structural)]
pub struct CalendarDate {
    pub year: i32,
    pub month: u32,
    pub day: u32,
}

/// A time of day.
#[derive(Clone, Copy, Debug, PartialEq, Eq, Structural)]
pub struct ClockTime {
    pub hour: u32,
    pub minute: u32,
    pub second: u32,
    pub nanosecond: u32,
}

/// A day of the calendar and a time of that day, with no zone attached.
#[derive(Clone, Copy, Debug, PartialEq, Eq, Structural)]
pub struct CalendarDateTime {
    pub date: CalendarDate,
    pub time: ClockTime,
}

/// What a parser hands back: a date, a time of day, or both.
#[derive(Clone, Copy, Debug, PartialEq, Eq, Structural)]
pub enum CalendarValue {
    Date(CalendarDate),
    Time(ClockTime),
    DateTime(CalendarDateTime),
}

/// Whether a year has a 29th of February.
pub open spec fn is_leap_year(year: int) -> bool {
    year % 4 == 0 && (year % 100 != 0 || year % 400 == 0)
}

/// The number of days of a month.
pub open spec fn days_in_month(year: int, month: int) -> int {
    if month == 2 {
        if is_leap_year(year) {
            29
        } else {
            28
        }
    } else if month == 4 || month == 6 || month == 9 || month == 11 {
        30
    } else {
        31
    }
}

/// The number of leap years among the years before `year`, counted from year 1;
/// negative for the years before it.
pub open spec fn leap_years_before(year: int) -> int {
    (year - 1) / 4 - (year - 1) / 100 + (year - 1) / 400
}

/// The number of days from 1970-01-01 to the first of January of `year`.
pub open spec fn days_before_year(year: int) -> int {
    365 * (year - 1970) + leap_years_before(year) - leap_years_before(1970)
}

/// The number of days of `year` that lie before the first of `month`.
pub open spec fn days_before_month(year: int, month: int) -> int
    decreases month,
{
    if month <= 1 {
        0
    } else {
        days_before_month(year, month - 1) + days_in_month(year, month - 1)
    }
}

/// The number of days from 1970-01-01 to the given day.
pub open spec fn days_from_epoch(date: CalendarDate) -> int {
    days_before_year(date.year as int) + days_before_month(date.year as int, date.month as int)
        + date.day - 1
}

/// The number of ticks of a unit in a second.
pub open spec fn ticks_per_second(unit: TimeUnit) -> int {
    match unit {
        TimeUnit::Nanoseconds => 1_000_000_000,
        TimeUnit::Microseconds => 1_000_000,
        TimeUnit::Milliseconds => 1_000,
    }
}

/// The number of nanoseconds in a tick of a unit.
pub open spec fn nanos_per_tick(unit: TimeUnit) -> int {
    match unit {
        TimeUnit::Nanoseconds => 1,
        TimeUnit::Microseconds => 1_000,
        TimeUnit::Milliseconds => 1_000_000,
    }
}

/// The whole seconds from midnight to the given time of day.
pub open spec fn second_of_day(time: ClockTime) -> int {
    time.hour * 3600 + time.minute * 60 + time.second
}

/// The nanoseconds from midnight to the given time of day.
pub open spec fn nanos_of_day(time: ClockTime) -> int {
    second_of_day(time) * 1_000_000_000 + time.nanosecond
}

/// The ticks of `unit` from the epoch to the given date-time, whole ticks only.
pub open spec fn timestamp(value: CalendarDateTime, unit: TimeUnit) -> int {
    (days_from_epoch(value.date) * 86_400 + second_of_day(value.time)) * ticks_per_second(unit)
        + value.time.nanosecond as int / nanos_per_tick(unit)
}

/// Whether 64 bits hold a number.
pub open spec fn fits_i64(v: int) -> bool {
    i64::MIN <= v <= i64::MAX
}

/// The tick count as a column stores it: absent where 64 bits cannot hold it.
pub open spec fn timestamp_code(value: CalendarDateTime, unit: TimeUnit) -> Option<i64> {
    if fits_i64(timestamp(value, unit)) {
        Some(timestamp(value, unit) as i64)
    } else {
        None
    }
}

impl CalendarDate {
    /// The day exists, in a year the calendar reaches.
    pub open spec fn wf(self) -> bool {
        &&& MIN_YEAR <= self.year <= MAX_YEAR
        &&& 1 <= self.month <= 12
        &&& 1 <= self.day <= days_in_month(self.year as int, self.month as int)
    }

    /// The date with these fields, where that day exists.
    pub fn new(year: i32, month: u32, day: u32) -> (r: Option<CalendarDate>)
        ensures
            r == (if (CalendarDate { year, month, day }).wf() {
                Some(CalendarDate { year, month, day })
            } else {
                None::<CalendarDate>
            }),
    {
        if year < MIN_YEAR || year > MAX_YEAR || month < 1 || month > 12 || day < 1 {
            return None;
        }
        if day > month_length(year, month) {
            return None;
        }
        Some(CalendarDate { year, month, day })
    }

    /// The days from 1970-01-01 to this day.
    pub fn days_since_epoch(&self) -> (days: i32)
        requires
            self.wf(),
        ensures
            days == days_from_epoch(*self),
    {
        let shifted: i64 = self.year as i64 + 262_399;
        proof {
            let before: int = self.year - 1;
            lemma_hoist_over_denominator(before, 65_600, 4);
            lemma_hoist_over_denominator(before, 2_624, 100);
            lemma_hoist_over_denominator(before, 656, 400);
        }
        let leaps: i64 = shifted / 4 - shifted / 100 + shifted / 400 - 63_632;
        let before_year: i64 = 365 * (self.year as i64 - 1970) + leaps - 477;
        let before_month: i64 = month_offset(self.year, self.month) as i64;
        (before_year + before_month + self.day as i64 - 1) as i32
    }
}

impl ClockTime {
    /// Each field is in its range, and only a second 59 carries a leap second.
    pub open spec fn wf(self) -> bool {
        &&& self.hour < 24
        &&& self.minute < 60
        &&& self.second < 60
        &&& self.nanosecond < 2_000_000_000
        &&& self.nanosecond >= 1_000_000_000 ==> self.second == 59
    }

    /// The time of day with these fields, where each is in its range. No leap
    /// second can be written this way.
    pub fn new(hour: u32, minute: u32, second: u32, nanosecond: u32) -> (r: Option<ClockTime>)
        ensures
            r == (if hour < 24 && minute < 60 && second < 60 && nanosecond < 1_000_000_000 {
                Some(ClockTime { hour, minute, second, nanosecond })
            } else {
                None::<ClockTime>
            }),
            r matches Some(t) ==> t.wf(),
    {
        if hour < 24 && minute < 60 && second < 60 && nanosecond < 1_000_000_000 {
            Some(ClockTime { hour, minute, second, nanosecond })
        } else {
            None
        }
    }

    /// Midnight.
    pub fn midnight() -> (t: ClockTime)
        ensures
            t == (ClockTime { hour: 0, minute: 0, second: 0, nanosecond: 0 }),
            t.wf(),
    {
        ClockTime { hour: 0, minute: 0, second: 0, nanosecond: 0 }
    }

    /// The nanoseconds from midnight to this time.
    pub fn nanos_since_midnight(&self) -> (nanos: i64)
        requires
            self.wf(),
        ensures
            nanos == nanos_of_day(*self),
    {
        let seconds: i64 = self.hour as i64 * 3600 + self.minute as i64 * 60 + self.second as i64;
        seconds * 1_000_000_000 + self.nanosecond as i64
    }
}

impl CalendarDateTime {
    /// The date exists and the time's fields are in their ranges.
    pub open spec fn wf(self) -> bool {
        self.date.wf() && self.time.wf()
    }

    /// The ticks of `unit` from the epoch to this date-time, where 64 bits hold
    /// them. Milliseconds and microseconds always fit; nanoseconds do between
    /// the years 1678 and 2261.
    pub fn timestamp(&self, unit: TimeUnit) -> (r: Option<i64>)
        requires
            self.wf(),
        ensures
            r == timestamp_code(*self, unit),
    {
        let days: i128 = self.date.days_since_epoch() as i128;
        let seconds: i128 = days * 86_400 + self.time.hour as i128 * 3600 + self.time.minute as i128
            * 60 + self.time.second as i128;
        let ticks: i128 = match unit {
            TimeUnit::Nanoseconds => seconds * 1_000_000_000 + self.time.nanosecond as i128,
            TimeUnit::Microseconds => seconds * 1_000_000 + (self.time.nanosecond / 1_000) as i128,
            TimeUnit::Milliseconds => seconds * 1_000 + (self.time.nanosecond / 1_000_000) as i128,
        };
        if ticks < i64::MIN as i128 || ticks > i64::MAX as i128 {
            None
        } else {
            Some(ticks as i64)
        }
    }
}

/// Decides whether a year has a 29th of February.
pub fn leap_year(year: i32) -> (r: bool)
    ensures
        r == is_leap_year(year as int),
{
    let shifted: i64 = year as i64 + 2_147_483_600;
    proof {
        lemma_mod_multiples_vanish(536_870_900, year as int, 4);
        lemma_mod_multiples_vanish(21_474_836, year as int, 100);
        lemma_mod_multiples_vanish(5_368_709, year as int, 400);
    }
    shifted % 4 == 0 && (shifted % 100 != 0 || shifted % 400 == 0)
}

/// The number of days of a month.
pub fn month_length(year: i32, month: u32) -> (r: u32)
    requires
        1 <= month <= 12,
    ensures
        r == days_in_month(year as int, month as int),
{
    if month == 2 {
        if leap_year(year) {
            29
        } else {
            28
        }
    } else if month == 4 || month == 6 || month == 9 || month == 11 {
        30
    } else {
        31
    }
}

/// The number of days of a year that lie before the first of a month.
pub fn month_offset(year: i32, month: u32) -> (r: u32)
    requires
        1 <= month <= 12,
    ensures
        r == days_before_month(year as int, month as int),
        r <= 335,
{
    proof {
        reveal_with_fuel(days_before_month, 13);
    }
    let common: u32 = if month == 1 {
        0
    } else if month == 2 {
        31
    } else if month == 3 {
        59
    } else if month == 4 {
        90
    } else if month == 5 {
        120
    } else if month == 6 {
        151
    } else if month == 7 {
        181
    } else if month == 8 {
        212
    } else if month == 9 {
        243
    } else if month == 10 {
        273
    } else if month == 11 {
        304
    } else {
        334
    };
    if month > 2 && leap_year(year) {
        common + 1
    } else {
        common
    }
}

} // verus!
