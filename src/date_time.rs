//! The MS-DOS date and time held as its two packed 16-bit values.

use vstd::prelude::*;
use vstd::std_specs::cmp::PartialOrdSpecImpl;
use vstd::string::*;
use core::cmp::Ordering;

use crate::calendar::{CalendarDate, CalendarTime, Month};
use crate::dos_date::{self, date_year, is_valid_date};
use crate::dos_date_time::{date_time_order, date_time_text};
use crate::dos_time::{self, double_seconds_for, is_valid_time, time_second};
use crate::error::{DateTimeRangeError, DateTimeRangeErrorKind};
use crate::layout::{
    day_field, day_of, double_seconds_of, hour_field, hour_of, lemma_date_fields_pack,
    lemma_packed_date_fields, lemma_packed_time_fields, lemma_time_fields_pack, minute_field,
    minute_of, month_field, month_of, pack_date, pack_time, packed_date, packed_time,
    year_offset_of,
};
use crate::order::{compare_u16, then_compare};
use crate::text::{push_four_digits, push_two_digits};

verus! {

/// An MS-DOS date and time: a packed date and a packed time, each a 16-bit
/// value.
#[derive(Clone, Copy, Debug, PartialEq, Eq, Structural, Hash, Ord)]
pub struct DateTime {
    date: u16,
    time: u16,
}

impl View for DateTime {
    type V = (u16, u16);

    closed spec fn view(&self) -> (u16, u16) {
        (self.date, self.time)
    }
}

impl DateTime {
    #[verifier::type_invariant]
    spec fn inv(self) -> bool {
        is_valid_date(self.date) && is_valid_time(self.time)
    }

    /// Returns the smallest date and time, 1980-01-01 00:00:00.
    pub fn min_value() -> (r: DateTime)
        ensures
            r@ == (dos_date::MIN_RAW, dos_time::MIN_RAW),
    {
        DateTime { date: dos_date::MIN_RAW, time: dos_time::MIN_RAW }
    }

    /// Returns the largest date and time, 2107-12-31 23:59:58.
    pub fn max_value() -> (r: DateTime)
        ensures
            r@ == (dos_date::MAX_RAW, dos_time::MAX_RAW),
    {
        DateTime { date: dos_date::MAX_RAW, time: dos_time::MAX_RAW }
    }

    /// Creates a date and time from the two packed values, or returns `None`
    /// if either names no day of the calendar or no time of day.
    pub fn new(date: u16, time: u16) -> (r: Option<DateTime>)
        ensures
            r is Some <==> is_valid_date(date) && is_valid_time(time),
            r matches Some(dt) ==> dt@ == (date, time),
    {
        let year = (1980 + year_offset_of(date)) as i32;
        let month = match Month::from_number(month_of(date)) {
            Some(month) => month,
            None => return None,
        };
        let calendar_date = match CalendarDate::new(year, month, day_of(date)) {
            Some(calendar_date) => calendar_date,
            None => return None,
        };
        let (hour, minute, second) = (hour_of(time), minute_of(time), double_seconds_of(time) * 2);
        let calendar_time = match CalendarTime::new(hour, minute, second) {
            Some(calendar_time) => calendar_time,
            None => return None,
        };
        proof {
            lemma_date_fields_pack(date);
            lemma_time_fields_pack(time);
        }
        match DateTime::from_date_time(calendar_date, calendar_time) {
            Ok(dt) => Some(dt),
            Err(_) => None,
        }
    }

    /// Creates a date and time from two packed values that the caller knows
    /// to be valid.
    pub fn new_unchecked(date: u16, time: u16) -> (r: DateTime)
        requires
            is_valid_date(date),
            is_valid_time(time),
        ensures
            r@ == (date, time),
    {
        DateTime { date, time }
    }

    /// Converts a calendar date and a time of day. The date must lie from
    /// 1980-01-01 to 2107-12-31; the second is halved and rounded down, and
    /// second 59 is kept as 58.
    pub fn from_date_time(date: CalendarDate, time: CalendarTime) -> (r: Result<
        DateTime,
        DateTimeRangeError,
    >)
        ensures
            match r {
                Ok(dt) => {
                    &&& 1980 <= date.spec_year() <= 2107
                    &&& dt@.0 == packed_date(
                        date.spec_year() - 1980,
                        date.spec_month(),
                        date.spec_day(),
                    )
                    &&& dt@.1 == packed_time(
                        time.spec_hour(),
                        time.spec_minute(),
                        double_seconds_for(time.spec_second()),
                    )
                },
                Err(e) => (date.spec_year() < 1980 && e.spec_kind()
                    == DateTimeRangeErrorKind::Negative) || (date.spec_year() > 2107
                    && e.spec_kind() == DateTimeRangeErrorKind::Overflow),
            },
    {
        let year = date.year();
        if year <= 1979 {
            return Err(DateTimeRangeError::new(DateTimeRangeErrorKind::Negative));
        }
        if year >= 2108 {
            return Err(DateTimeRangeError::new(DateTimeRangeErrorKind::Overflow));
        }
        let (month, day) = (date.month().number(), date.day());
        let packed_day = pack_date((year - 1980) as u16, month as u16, day as u16);
        let (hour, minute, half) = (time.hour(), time.minute(), time.second() / 2);
        let double_seconds = if half < 29 {
            half
        } else {
            29
        };
        let packed_clock = pack_time(hour as u16, minute as u16, double_seconds as u16);
        proof {
            lemma_packed_date_fields(year - 1980, month as int, day as int);
            lemma_packed_time_fields(hour as int, minute as int, double_seconds as int);
        }
        Ok(DateTime { date: packed_day, time: packed_clock })
    }

    /// Returns the packed date.
    pub fn date(self) -> (r: u16)
        ensures
            r == self@.0,
            is_valid_date(r),
    {
        proof {
            use_type_invariant(&self);
        }
        self.date
    }

    /// Returns the packed time.
    pub fn time(self) -> (r: u16)
        ensures
            r == self@.1,
            is_valid_time(r),
    {
        proof {
            use_type_invariant(&self);
        }
        self.time
    }

    /// Returns the year, from 1980 to 2107.
    pub fn year(self) -> (r: u16)
        ensures
            r == date_year(self@.0),
    {
        1980 + year_offset_of(self.date)
    }

    /// Returns the month.
    pub fn month(self) -> (r: Month)
        ensures
            r.spec_number() == month_field(self@.0),
    {
        proof {
            use_type_invariant(&self);
        }
        Month::from_number(month_of(self.date)).unwrap()
    }

    /// Returns the day of the month, from 1 to 31.
    pub fn day(self) -> (r: u8)
        ensures
            r == day_field(self@.0),
            1 <= r <= 31,
    {
        proof {
            use_type_invariant(&self);
        }
        day_of(self.date)
    }

    /// Returns the hour, from 0 to 23.
    pub fn hour(self) -> (r: u8)
        ensures
            r == hour_field(self@.1),
            r <= 23,
    {
        proof {
            use_type_invariant(&self);
        }
        hour_of(self.time)
    }

    /// Returns the minute, from 0 to 59.
    pub fn minute(self) -> (r: u8)
        ensures
            r == minute_field(self@.1),
            r <= 59,
    {
        proof {
            use_type_invariant(&self);
        }
        minute_of(self.time)
    }

    /// Returns the second, an even number from 0 to 58.
    pub fn second(self) -> (r: u8)
        ensures
            r == time_second(self@.1),
            r <= 58,
    {
        proof {
            use_type_invariant(&self);
        }
        double_seconds_of(self.time) * 2
    }

    /// Returns the date and time written as `YYYY-MM-DD HH:MM:SS`.
    pub fn to_string(&self) -> (r: String)
        ensures
            r@ == date_time_text(self@),
    {
        proof {
            reveal_strlit("-");
            reveal_strlit(" ");
            reveal_strlit(":");
        }
        let mut s = String::new();
        push_four_digits(&mut s, self.year());
        s.append("-");
        push_two_digits(&mut s, self.month().number() as u16);
        s.append("-");
        push_two_digits(&mut s, self.day() as u16);
        s.append(" ");
        push_two_digits(&mut s, self.hour() as u16);
        s.append(":");
        push_two_digits(&mut s, self.minute() as u16);
        s.append(":");
        push_two_digits(&mut s, self.second() as u16);
        s
    }
}

impl Default for DateTime {
    /// Returns the smallest date and time, 1980-01-01 00:00:00.
    fn default() -> (r: DateTime)
        ensures
            r@ == (dos_date::MIN_RAW, dos_time::MIN_RAW),
    {
        DateTime::min_value()
    }
}

impl PartialOrd for DateTime {
    fn partial_cmp(&self, other: &DateTime) -> (r: Option<Ordering>) {
        let by_year = compare_u16(self.year(), other.year());
        let by_month = compare_u16(self.month().number() as u16, other.month().number() as u16);
        let by_day = compare_u16(self.day() as u16, other.day() as u16);
        let by_hour = compare_u16(self.hour() as u16, other.hour() as u16);
        let by_minute = compare_u16(self.minute() as u16, other.minute() as u16);
        let by_second = compare_u16(self.second() as u16, other.second() as u16);
        let by_clock = then_compare(by_hour, then_compare(by_minute, by_second));
        Some(then_compare(by_year, then_compare(by_month, then_compare(by_day, by_clock))))
    }
}

impl PartialOrdSpecImpl for DateTime {
    open spec fn obeys_partial_cmp_spec() -> bool {
        true
    }

    open spec fn partial_cmp_spec(&self, other: &DateTime) -> Option<Ordering> {
        Some(date_time_order(self@, other@))
    }
}

} // verus!
