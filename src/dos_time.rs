//! The MS-DOS time: a time of day to two seconds packed in 16 bits.

use vstd::prelude::*;
use vstd::std_specs::cmp::PartialOrdSpecImpl;
use vstd::string::*;
use core::cmp::Ordering;

use crate::calendar::{is_clock_time, CalendarTime};
use crate::layout::{
    double_seconds_field, double_seconds_of, hour_field, hour_of, lemma_packed_time_fields,
    lemma_time_fields_pack, minute_field, minute_of, pack_time, packed_time,
};
use crate::order::{compare, compare_u16, then, then_compare};
use crate::text::{push_two_digits, two_digits};

verus! {

/// The packed value of 00:00:00.
pub const MIN_RAW: u16 = 0;

/// The packed value of 23:59:58.
pub const MAX_RAW: u16 = 0b1011_1111_0111_1101;

/// Whether a packed time names a time of day: hour at most 23, minute at most
/// 59 and at most 29 two-second steps.
pub open spec fn is_valid_time(raw: u16) -> bool {
    &&& hour_field(raw) <= 23
    &&& minute_field(raw) <= 59
    &&& double_seconds_field(raw) <= 29
}

/// The second of a packed time, twice its two-second steps.
pub open spec fn time_second(raw: u16) -> int {
    2 * double_seconds_field(raw)
}

/// The two-second steps that stand for a second of the clock: the second
/// halved and rounded down, and never more than 29, so that second 59 is
/// kept as 58.
pub open spec fn double_seconds_for(second: int) -> int {
    if second / 2 < 29 {
        second / 2
    } else {
        29
    }
}

/// The calendar order of two packed times: by hour, then minute, then second.
pub open spec fn time_order(a: u16, b: u16) -> Ordering {
    then(
        compare(hour_field(a), hour_field(b)),
        then(compare(minute_field(a), minute_field(b)), compare(time_second(a), time_second(b))),
    )
}

/// The text of a packed time, `HH:MM:SS`.
pub open spec fn time_text(raw: u16) -> Seq<char> {
    two_digits(hour_field(raw)) + seq![':'] + two_digits(minute_field(raw)) + seq![':']
        + two_digits(time_second(raw))
}

/// Unpacking a valid packed time into its hour, minute and second and packing
/// those again gives back the same bits: the fields make a time of day, and
/// halving the even second loses nothing.
pub proof fn lemma_time_round_trip(raw: u16)
    requires
        is_valid_time(raw),
    ensures
        is_clock_time(hour_field(raw), minute_field(raw), time_second(raw)),
        packed_time(hour_field(raw), minute_field(raw), double_seconds_for(time_second(raw))) == raw,
{
    lemma_time_fields_pack(raw);
}

/// A packed time names no time of day when its two-second steps are 30 or
/// 31, its minute 60 to 63 or its hour 24 to 31.
pub proof fn lemma_invalid_time_fields(raw: u16)
    ensures
        double_seconds_field(raw) >= 30 ==> !is_valid_time(raw),
        minute_field(raw) >= 60 ==> !is_valid_time(raw),
        hour_field(raw) >= 24 ==> !is_valid_time(raw),
{
}

/// For any two packed times the order by hour, then minute, then second is
/// the order of their bits.
pub proof fn lemma_time_order_is_bit_order(a: u16, b: u16)
    ensures
        time_order(a, b) == compare(a as int, b as int),
{
    lemma_time_fields_pack(a);
    lemma_time_fields_pack(b);
}

/// An MS-DOS time: a packed 16-bit value that names a time of day from
/// 00:00:00 to 23:59:58, with a resolution of two seconds.
#[derive(Clone, Copy, Debug, PartialEq, Eq, Structural, Hash, Ord)]
pub struct Time(u16);

impl View for Time {
    type V = u16;

    closed spec fn view(&self) -> u16 {
        self.0
    }
}

impl Time {
    #[verifier::type_invariant]
    spec fn inv(self) -> bool {
        is_valid_time(self.0)
    }

    /// Returns the smallest time, 00:00:00.
    pub fn min_value() -> (r: Time)
        ensures
            r@ == MIN_RAW,
            hour_field(r@) == 0 && minute_field(r@) == 0 && time_second(r@) == 0,
    {
        Time(MIN_RAW)
    }

    /// Returns the largest time, 23:59:58.
    pub fn max_value() -> (r: Time)
        ensures
            r@ == MAX_RAW,
            hour_field(r@) == 23 && minute_field(r@) == 59 && time_second(r@) == 58,
    {
        Time(MAX_RAW)
    }

    /// Creates a time from its packed value, or returns `None` if the hour
    /// is above 23, the minute above 59 or the two-second steps above 29.
    pub fn new(time: u16) -> (r: Option<Time>)
        ensures
            r is Some <==> is_valid_time(time),
            r matches Some(t) ==> t@ == time,
    {
        let hour = hour_of(time);
        let minute = minute_of(time);
        let double_seconds = double_seconds_of(time);
        let calendar = match CalendarTime::new(hour, minute, double_seconds * 2) {
            Some(calendar) => calendar,
            None => return None,
        };
        proof {
            lemma_time_fields_pack(time);
        }
        Some(Time::from_time(calendar))
    }

    /// Creates a time from a packed value that the caller knows to be valid.
    pub fn new_unchecked(time: u16) -> (r: Time)
        requires
            is_valid_time(time),
        ensures
            r@ == time,
    {
        Time(time)
    }

    /// Converts a time of day. The second is halved and rounded down, and
    /// second 59 is kept as 58; this never fails.
    pub fn from_time(time: CalendarTime) -> (r: Time)
        ensures
            r@ == packed_time(
                time.spec_hour(),
                time.spec_minute(),
                double_seconds_for(time.spec_second()),
            ),
    {
        let hour = time.hour();
        let minute = time.minute();
        let half = time.second() / 2;
        let double_seconds = if half < 29 {
            half
        } else {
            29
        };
        let raw = pack_time(hour as u16, minute as u16, double_seconds as u16);
        proof {
            lemma_packed_time_fields(hour as int, minute as int, double_seconds as int);
        }
        Time(raw)
    }

    /// Returns whether the packed value names a time of day.
    pub fn is_valid(self) -> (r: bool)
        ensures
            r == is_valid_time(self@),
    {
        Time::new(self.0).is_some()
    }

    /// Returns the packed value.
    pub fn to_raw(self) -> (r: u16)
        ensures
            r == self@,
            is_valid_time(r),
    {
        proof {
            use_type_invariant(&self);
        }
        self.0
    }

    /// Returns the hour, from 0 to 23.
    pub fn hour(self) -> (r: u8)
        ensures
            r == hour_field(self@),
            r <= 23,
    {
        proof {
            use_type_invariant(&self);
        }
        hour_of(self.0)
    }

    /// Returns the minute, from 0 to 59.
    pub fn minute(self) -> (r: u8)
        ensures
            r == minute_field(self@),
            r <= 59,
    {
        proof {
            use_type_invariant(&self);
        }
        minute_of(self.0)
    }

    /// Returns the second, an even number from 0 to 58.
    pub fn second(self) -> (r: u8)
        ensures
            r == time_second(self@),
            r <= 58,
    {
        proof {
            use_type_invariant(&self);
        }
        double_seconds_of(self.0) * 2
    }

    /// Returns the time of day that this time names.
    pub fn to_calendar_time(self) -> (r: CalendarTime)
        ensures
            r.spec_hour() == hour_field(self@),
            r.spec_minute() == minute_field(self@),
            r.spec_second() == time_second(self@),
    {
        CalendarTime::new(self.hour(), self.minute(), self.second()).unwrap()
    }

    /// Returns the time written as `HH:MM:SS`.
    pub fn to_string(&self) -> (r: String)
        ensures
            r@ == time_text(self@),
    {
        proof {
            reveal_strlit(":");
        }
        let mut s = String::new();
        push_two_digits(&mut s, self.hour() as u16);
        s.append(":");
        push_two_digits(&mut s, self.minute() as u16);
        s.append(":");
        push_two_digits(&mut s, self.second() as u16);
        s
    }
}

impl Default for Time {
    /// Returns the smallest time, 00:00:00.
    fn default() -> (r: Time)
        ensures
            r@ == MIN_RAW,
    {
        Time::min_value()
    }
}

impl PartialOrd for Time {
    fn partial_cmp(&self, other: &Time) -> (r: Option<Ordering>) {
        let by_hour = compare_u16(self.hour() as u16, other.hour() as u16);
        let by_minute = compare_u16(self.minute() as u16, other.minute() as u16);
        let by_second = compare_u16(self.second() as u16, other.second() as u16);
        Some(then_compare(by_hour, then_compare(by_minute, by_second)))
    }
}

impl PartialOrdSpecImpl for Time {
    open spec fn obeys_partial_cmp_spec() -> bool {
        true
    }

    open spec fn partial_cmp_spec(&self, other: &Time) -> Option<Ordering> {
        Some(time_order(self@, other@))
    }
}

} // verus!
