//! The MS-DOS date and time: a packed date beside a packed time.

use vstd::prelude::*;
use vstd::std_specs::cmp::PartialOrdSpecImpl;
use vstd::string::*;
use core::cmp::Ordering;

use crate::calendar::{is_calendar_date, is_clock_time, CalendarDate, CalendarTime, Month};
use crate::dos_date::{
    self, date_order, date_text, date_year, is_valid_date, lemma_date_order_is_bit_order,
    lemma_date_round_trip, Date,
};
use crate::dos_time::{
    self, double_seconds_for, is_valid_time, lemma_time_order_is_bit_order, lemma_time_round_trip,
    time_order, time_second, time_text, Time,
};
use crate::error::dos_date_time::date_time_kind_of;
use crate::error::{DateTimeRangeError, DateTimeRangeErrorKind};
use crate::layout::{day_field, hour_field, minute_field, month_field, packed_date, packed_time};
use crate::order::{compare, then};

verus! {

/// The calendar order of two packed dates and times: the dates decide,
/// and the times where the dates are equal.
pub open spec fn date_time_order(a: (u16, u16), b: (u16, u16)) -> Ordering {
    then(date_order(a.0, b.0), time_order(a.1, b.1))
}

/// The text of a packed date and time, `YYYY-MM-DD HH:MM:SS`.
pub open spec fn date_time_text(dt: (u16, u16)) -> Seq<char> {
    date_text(dt.0) + seq![' '] + time_text(dt.1)
}

/// Unpacking a valid packed date and time into the calendar and packing the
/// result again gives back the same two values.
pub proof fn lemma_date_time_round_trip(dt: (u16, u16))
    requires
        is_valid_date(dt.0),
        is_valid_time(dt.1),
    ensures
        1980 <= date_year(dt.0) <= 2107,
        is_calendar_date(date_year(dt.0), month_field(dt.0), day_field(dt.0)),
        is_clock_time(hour_field(dt.1), minute_field(dt.1), time_second(dt.1)),
        packed_date(date_year(dt.0) - 1980, month_field(dt.0), day_field(dt.0)) == dt.0,
        packed_time(hour_field(dt.1), minute_field(dt.1), double_seconds_for(time_second(dt.1)))
            == dt.1,
{
    lemma_date_round_trip(dt.0);
    lemma_time_round_trip(dt.1);
}

/// For any two packed dates and times the calendar order (year, month, day,
/// hour, minute, second, each deciding where the ones before are equal) is
/// the order of the bits of the dates, then of the times.
pub proof fn lemma_date_time_order_is_bit_order(a: (u16, u16), b: (u16, u16))
    ensures
        date_time_order(a, b) == then(
            compare(a.0 as int, b.0 as int),
            compare(a.1 as int, b.1 as int),
        ),
{
    lemma_date_order_is_bit_order(a.0, b.0);
    lemma_time_order_is_bit_order(a.1, b.1);
}

/// An MS-DOS date and time: a [`Date`] and a [`Time`].
#[derive(Clone, Copy, Debug, PartialEq, Eq, Structural, Hash, Ord)]
pub struct DateTime {
    date: Date,
    time: Time,
}

impl View for DateTime {
    type V = (u16, u16);

    closed spec fn view(&self) -> (u16, u16) {
        (self.date@, self.time@)
    }
}

impl DateTime {
    /// Returns the smallest date and time, 1980-01-01 00:00:00.
    pub fn min_value() -> (r: DateTime)
        ensures
            r@ == (dos_date::MIN_RAW, dos_time::MIN_RAW),
    {
        DateTime::new(Date::min_value(), Time::min_value())
    }

    /// Returns the largest date and time, 2107-12-31 23:59:58.
    pub fn max_value() -> (r: DateTime)
        ensures
            r@ == (dos_date::MAX_RAW, dos_time::MAX_RAW),
    {
        DateTime::new(Date::max_value(), Time::max_value())
    }

    /// Puts a date and a time together.
    pub fn new(date: Date, time: Time) -> (r: DateTime)
        ensures
            r@ == (date@, time@),
    {
        DateTime { date, time }
    }

    /// Converts a calendar date and a time of day. The date must lie from
    /// 1980-01-01 to 2107-12-31; the second is halved and rounded down, and
    /// second 59 is kept as 58.
    pub fn from_date_time(date: CalendarDate, time: CalendarTime) -> (r: Result<
        DateTime,
        DateTimeRangeError,
    >)
        ensures
            match r {
                Ok(dt) => {
                    &&& 1980 <= date.spec_year() <= 2107
                    &&& dt@.0 == packed_date(
                        date.spec_year() - 1980,
                        date.spec_month(),
                        date.spec_day(),
                    )
                    &&& dt@.1 == packed_time(
                        time.spec_hour(),
                        time.spec_minute(),
                        double_seconds_for(time.spec_second()),
                    )
                },
                Err(e) => (date.spec_year() < 1980 && e.spec_kind()
                    == DateTimeRangeErrorKind::Negative) || (date.spec_year() > 2107
                    && e.spec_kind() == DateTimeRangeErrorKind::Overflow),
            },
    {
        let date = match Date::from_date(date) {
            Ok(date) => date,
            Err(e) => {
                let err = DateTimeRangeError::from(e);
                proof {
                    DateTimeRangeError::lemma_spec_new_kind(date_time_kind_of(e.spec_kind()));
                }
                return Err(err);
            },
        };
        let time = Time::from_time(time);
        Ok(DateTime::new(date, time))
    }

    /// Returns the date.
    pub fn date(self) -> (r: Date)
        ensures
            r@ == self@.0,
    {
        self.date
    }

    /// Returns the time.
    pub fn time(self) -> (r: Time)
        ensures
            r@ == self@.1,
    {
        self.time
    }

    /// Returns the year, from 1980 to 2107.
    pub fn year(self) -> (r: u16)
        ensures
            r == date_year(self@.0),
    {
        self.date.year()
    }

    /// Returns the month.
    pub fn month(self) -> (r: Month)
        ensures
            r.spec_number() == month_field(self@.0),
    {
        self.date.month()
    }

    /// Returns the day of the month, from 1 to 31.
    pub fn day(self) -> (r: u8)
        ensures
            r == day_field(self@.0),
    {
        self.date.day()
    }

    /// Returns the hour, from 0 to 23.
    pub fn hour(self) -> (r: u8)
        ensures
            r == hour_field(self@.1),
    {
        self.time.hour()
    }

    /// Returns the minute, from 0 to 59.
    pub fn minute(self) -> (r: u8)
        ensures
            r == minute_field(self@.1),
    {
        self.time.minute()
    }

    /// Returns the second, an even number from 0 to 58.
    pub fn second(self) -> (r: u8)
        ensures
            r == time_second(self@.1),
    {
        self.time.second()
    }

    /// Returns the calendar date and the time of day that this value names.
    pub fn to_calendar_date_time(self) -> (r: (CalendarDate, CalendarTime))
        ensures
            r.0.spec_year() == date_year(self@.0),
            r.0.spec_month() == month_field(self@.0),
            r.0.spec_day() == day_field(self@.0),
            r.1.spec_hour() == hour_field(self@.1),
            r.1.spec_minute() == minute_field(self@.1),
            r.1.spec_second() == time_second(self@.1),
    {
        (self.date.to_calendar_date(), self.time.to_calendar_time())
    }

    /// Returns the date and time written as `YYYY-MM-DD HH:MM:SS`.
    pub fn to_string(&self) -> (r: String)
        ensures
            r@ == date_time_text(self@),
    {
        proof {
            reveal_strlit(" ");
        }
        let mut s = self.date.to_string();
        s.append(" ");
        let t = self.time.to_string();
        s.append(t.as_str());
        s
    }
}

impl Default for DateTime {
    /// Returns the smallest date and time, 1980-01-01 00:00:00.
    fn default() -> (r: DateTime)
        ensures
            r@ == (dos_date::MIN_RAW, dos_time::MIN_RAW),
    {
        DateTime::min_value()
    }
}

impl PartialOrd for DateTime {
    fn partial_cmp(&self, other: &DateTime) -> (r: Option<Ordering>) {
        match self.date.partial_cmp(&other.date) {
            Some(Ordering::Equal) => self.time.partial_cmp(&other.time),
            by_date => by_date,
        }
    }
}

impl PartialOrdSpecImpl for DateTime {
    open spec fn obeys_partial_cmp_spec() -> bool {
        true
    }

    open spec fn partial_cmp_spec(&self, other: &DateTime) -> Option<Ordering> {
        Some(date_time_order(self@, other@))
    }
}

} // verus!
