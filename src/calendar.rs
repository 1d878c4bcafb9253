//! The calendar date and time of day that packed values are converted from
//! and to.
//!
//! Whether a day exists is decided by the `time` crate, which knows the
//! proleptic Gregorian calendar; the spec functions below state what it
//! answers.

use vstd::prelude::*;

verus! {

/// Whether `year` is a leap year of the proleptic Gregorian calendar.
pub open spec fn is_leap_year(year: int) -> bool {
    year % 4 == 0 && (year % 100 != 0 || year % 400 == 0)
}

/// The number of days of `month` (1 to 12) in `year`.
pub open spec fn days_in_month(year: int, month: int) -> int {
    if month == 2 {
        if is_leap_year(year) {
            29
        } else {
            28
        }
    } else if month == 4 || month == 6 || month == 9 || month == 11 {
        30
    } else {
        31
    }
}

/// Whether year, month and day name a day that the calendar has, within the
/// years -9999 to 9999.
pub open spec fn is_calendar_date(year: int, month: int, day: int) -> bool {
    &&& -9999 <= year <= 9999
    &&& 1 <= month <= 12
    &&& 1 <= day <= days_in_month(year, month)
}

/// Whether hour, minute and second name a time of day.
pub open spec fn is_clock_time(hour: int, minute: int, second: int) -> bool {
    &&& 0 <= hour < 24
    &&& 0 <= minute < 60
    &&& 0 <= second < 60
}

/// Relies on time::Date::from_calendar_date (with time::Month::try_from for
/// the month number): it accepts exactly the days of the proleptic Gregorian
/// calendar in the years -9999 to 9999, the range it has without its
/// `large-dates` feature, which this crate does not enable.
#[verifier::external_body]
fn calendar_date_exists(year: i32, month: u8, day: u8) -> (r: bool)
    ensures
        r == is_calendar_date(year as int, month as int, day as int),
{
    match time::Month::try_from(month) {
        Ok(month) => time::Date::from_calendar_date(year, month, day).is_ok(),
        Err(_) => false,
    }
}

/// Relies on time::Time::from_hms: it accepts hours below 24, minutes below
/// 60 and seconds below 60.
#[verifier::external_body]
fn clock_time_exists(hour: u8, minute: u8, second: u8) -> (r: bool)
    ensures
        r == is_clock_time(hour as int, minute as int, second as int),
{
    time::Time::from_hms(hour, minute, second).is_ok()
}

/// A month of the year.
#[derive(Clone, Copy, Debug, PartialEq, Eq, Structural, Hash)]
pub enum Month {
    January,
    February,
    March,
    April,
    May,
    June,
    July,
    August,
    September,
    October,
    November,
    December,
}

impl Month {
    /// The number of the month, 1 for January to 12 for December.
    pub open spec fn spec_number(self) -> int {
        match self {
            Month::January => 1,
            Month::February => 2,
            Month::March => 3,
            Month::April => 4,
            Month::May => 5,
            Month::June => 6,
            Month::July => 7,
            Month::August => 8,
            Month::September => 9,
            Month::October => 10,
            Month::November => 11,
            Month::December => 12,
        }
    }

    /// Returns the number of the month, 1 for January to 12 for December.
    pub fn number(self) -> (r: u8)
        ensures
            r == self.spec_number(),
            1 <= r <= 12,
    {
        match self {
            Month::January => 1,
            Month::February => 2,
            Month::March => 3,
            Month::April => 4,
            Month::May => 5,
            Month::June => 6,
            Month::July => 7,
            Month::August => 8,
            Month::September => 9,
            Month::October => 10,
            Month::November => 11,
            Month::December => 12,
        }
    }

    /// Returns the month with the given number, or `None` unless it lies in
    /// 1 to 12.
    pub fn from_number(n: u8) -> (r: Option<Month>)
        ensures
            r is Some <==> 1 <= n <= 12,
            r matches Some(m) ==> m.spec_number() == n,
    {
        match n {
            1 => Some(Month::January),
            2 => Some(Month::February),
            3 => Some(Month::March),
            4 => Some(Month::April),
            5 => Some(Month::May),
            6 => Some(Month::June),
            7 => Some(Month::July),
            8 => Some(Month::August),
            9 => Some(Month::September),
            10 => Some(Month::October),
            11 => Some(Month::November),
            12 => Some(Month::December),
            _ => None,
        }
    }
}

/// A day of the proleptic Gregorian calendar, in the years -9999 to 9999.
#[derive(Clone, Copy, Debug, PartialEq, Eq, Structural, Hash)]
pub struct CalendarDate {
    year: i32,
    month: Month,
    day: u8,
}

impl CalendarDate {
    #[verifier::type_invariant]
    spec fn inv(self) -> bool {
        is_calendar_date(self.year as int, self.month.spec_number(), self.day as int)
    }

    /// The year of this date.
    pub closed spec fn spec_year(self) -> int {
        self.year as int
    }

    /// The number of the month of this date.
    pub closed spec fn spec_month(self) -> int {
        self.month.spec_number()
    }

    /// The day of the month of this date.
    pub closed spec fn spec_day(self) -> int {
        self.day as int
    }

    /// Creates the date with the given year, month and day, or returns `None`
    /// if the calendar has no such day (or the year lies outside -9999 to
    /// 9999).
    pub fn new(year: i32, month: Month, day: u8) -> (r: Option<CalendarDate>)
        ensures
            r is Some <==> is_calendar_date(year as int, month.spec_number(), day as int),
            r matches Some(d) ==> d.spec_year() == year && d.spec_month() == month.spec_number()
                && d.spec_day() == day,
    {
        if calendar_date_exists(year, month.number(), day) {
            Some(CalendarDate { year, month, day })
        } else {
            None
        }
    }

    /// Returns the year of this date.
    pub fn year(&self) -> (r: i32)
        ensures
            r == self.spec_year(),
            is_calendar_date(self.spec_year(), self.spec_month(), self.spec_day()),
    {
        proof {
            use_type_invariant(self);
        }
        self.year
    }

    /// Returns the month of this date.
    pub fn month(&self) -> (r: Month)
        ensures
            r.spec_number() == self.spec_month(),
            is_calendar_date(self.spec_year(), self.spec_month(), self.spec_day()),
    {
        proof {
            use_type_invariant(self);
        }
        self.month
    }

    /// Returns the day of the month of this date.
    pub fn day(&self) -> (r: u8)
        ensures
            r == self.spec_day(),
            is_calendar_date(self.spec_year(), self.spec_month(), self.spec_day()),
    {
        proof {
            use_type_invariant(self);
        }
        self.day
    }
}

/// A time of day to the second.
#[derive(Clone, Copy, Debug, PartialEq, Eq, Structural, Hash)]
pub struct CalendarTime {
    hour: u8,
    minute: u8,
    second: u8,
}

impl CalendarTime {
    #[verifier::type_invariant]
    spec fn inv(self) -> bool {
        is_clock_time(self.hour as int, self.minute as int, self.second as int)
    }

    /// The hour of this time.
    pub closed spec fn spec_hour(self) -> int {
        self.hour as int
    }

    /// The minute of this time.
    pub closed spec fn spec_minute(self) -> int {
        self.minute as int
    }

    /// The second of this time.
    pub closed spec fn spec_second(self) -> int {
        self.second as int
    }

    /// Creates the time with the given hour, minute and second, or returns
    /// `None` unless the hour is below 24 and the minute and second below 60.
    pub fn new(hour: u8, minute: u8, second: u8) -> (r: Option<CalendarTime>)
        ensures
            r is Some <==> is_clock_time(hour as int, minute as int, second as int),
            r matches Some(t) ==> t.spec_hour() == hour && t.spec_minute() == minute
                && t.spec_second() == second,
    {
        if clock_time_exists(hour, minute, second) {
            Some(CalendarTime { hour, minute, second })
        } else {
            None
        }
    }

    /// Returns the hour of this time.
    pub fn hour(&self) -> (r: u8)
        ensures
            r == self.spec_hour(),
            is_clock_time(self.spec_hour(), self.spec_minute(), self.spec_second()),
    {
        proof {
            use_type_invariant(self);
        }
        self.hour
    }

    /// Returns the minute of this time.
    pub fn minute(&self) -> (r: u8)
        ensures
            r == self.spec_minute(),
            is_clock_time(self.spec_hour(), self.spec_minute(), self.spec_second()),
    {
        proof {
            use_type_invariant(self);
        }
        self.minute
    }

    /// Returns the second of this time.
    pub fn second(&self) -> (r: u8)
        ensures
            r == self.spec_second(),
            is_clock_time(self.spec_hour(), self.spec_minute(), self.spec_second()),
    {
        proof {
            use_type_invariant(self);
        }
        self.second
    }
}

} // verus!
