//! The MS-DOS date: a day from 1980-01-01 to 2107-12-31 packed in 16 bits.

use vstd::prelude::*;
use vstd::std_specs::cmp::PartialOrdSpecImpl;
use vstd::string::*;
use core::cmp::Ordering;

use crate::calendar::{is_calendar_date, CalendarDate, Month};
use crate::error::{DateRangeError, DateRangeErrorKind};
use crate::layout::{
    day_field, day_of, lemma_date_fields_pack, lemma_packed_date_fields, month_field, month_of,
    pack_date, packed_date, year_offset_field, year_offset_of,
};
use crate::order::{compare, compare_u16, then, then_compare};
use crate::text::{four_digits, push_four_digits, push_two_digits, two_digits};

verus! {

/// The packed value of 1980-01-01.
pub const MIN_RAW: u16 = 0b0000_0000_0010_0001;

/// The packed value of 2107-12-31.
pub const MAX_RAW: u16 = 0b1111_1111_1001_1111;

/// The year of a packed date.
pub open spec fn date_year(raw: u16) -> int {
    1980 + year_offset_field(raw)
}

/// Whether a packed date names a day that the calendar has.
pub open spec fn is_valid_date(raw: u16) -> bool {
    is_calendar_date(date_year(raw), month_field(raw), day_field(raw))
}

/// The calendar order of two packed dates: by year, then month, then day.
pub open spec fn date_order(a: u16, b: u16) -> Ordering {
    then(
        compare(date_year(a), date_year(b)),
        then(compare(month_field(a), month_field(b)), compare(day_field(a), day_field(b))),
    )
}

/// The text of a packed date, `YYYY-MM-DD`.
pub open spec fn date_text(raw: u16) -> Seq<char> {
    four_digits(date_year(raw)) + seq!['-'] + two_digits(month_field(raw)) + seq!['-']
        + two_digits(day_field(raw))
}

/// Unpacking a valid packed date into its calendar year, month and day and
/// packing those again gives back the same bits: the year lies in the range
/// that packing accepts, and the fields make a day of the calendar.
pub proof fn lemma_date_round_trip(raw: u16)
    requires
        is_valid_date(raw),
    ensures
        1980 <= date_year(raw) <= 2107,
        is_calendar_date(date_year(raw), month_field(raw), day_field(raw)),
        packed_date(date_year(raw) - 1980, month_field(raw), day_field(raw)) == raw,
{
    lemma_date_fields_pack(raw);
}

/// A packed date names no day when its day is 0, when its month is 0 or
/// above 12, or when its day is 30 or 31 in February.
pub proof fn lemma_invalid_date_fields(raw: u16)
    ensures
        day_field(raw) == 0 ==> !is_valid_date(raw),
        month_field(raw) == 0 || month_field(raw) > 12 ==> !is_valid_date(raw),
        month_field(raw) == 2 && day_field(raw) >= 30 ==> !is_valid_date(raw),
{
}

/// For any two packed dates the calendar order, by year, then month, then
/// day, is the order of their bits.
pub proof fn lemma_date_order_is_bit_order(a: u16, b: u16)
    ensures
        date_order(a, b) == compare(a as int, b as int),
{
    lemma_date_fields_pack(a);
    lemma_date_fields_pack(b);
}

/// An MS-DOS date: a packed 16-bit value that names a day from 1980-01-01 to
/// 2107-12-31.
#[derive(Clone, Copy, Debug, PartialEq, Eq, Structural, Hash, Ord)]
pub struct Date(u16);

impl View for Date {
    type V = u16;

    closed spec fn view(&self) -> u16 {
        self.0
    }
}

impl Date {
    #[verifier::type_invariant]
    spec fn inv(self) -> bool {
        is_valid_date(self.0)
    }

    /// Returns the smallest date, 1980-01-01.
    pub fn min_value() -> (r: Date)
        ensures
            r@ == MIN_RAW,
            date_year(r@) == 1980 && month_field(r@) == 1 && day_field(r@) == 1,
    {
        Date(MIN_RAW)
    }

    /// Returns the largest date, 2107-12-31.
    pub fn max_value() -> (r: Date)
        ensures
            r@ == MAX_RAW,
            date_year(r@) == 2107 && month_field(r@) == 12 && day_field(r@) == 31,
    {
        Date(MAX_RAW)
    }

    /// Creates a date from its packed value, or returns `None` if the value
    /// names no day of the calendar (a month outside 1 to 12, day 0, or a day
    /// past the end of the month).
    pub fn new(date: u16) -> (r: Option<Date>)
        ensures
            r is Some <==> is_valid_date(date),
            r matches Some(d) ==> d@ == date,
    {
        let year = (1980 + year_offset_of(date)) as i32;
        let month = match Month::from_number(month_of(date)) {
            Some(month) => month,
            None => return None,
        };
        let day = day_of(date);
        let calendar = match CalendarDate::new(year, month, day) {
            Some(calendar) => calendar,
            None => return None,
        };
        proof {
            lemma_date_fields_pack(date);
        }
        match Date::from_date(calendar) {
            Ok(d) => Some(d),
            Err(_) => None,
        }
    }

    /// Creates a date from a packed value that the caller knows to be valid.
    pub fn new_unchecked(date: u16) -> (r: Date)
        requires
            is_valid_date(date),
        ensures
            r@ == date,
    {
        Date(date)
    }

    /// Converts a calendar date, which must lie from 1980-01-01 to 2107-12-31.
    pub fn from_date(date: CalendarDate) -> (r: Result<Date, DateRangeError>)
        ensures
            match r {
                Ok(d) => 1980 <= date.spec_year() <= 2107 && d@ == packed_date(
                    date.spec_year() - 1980,
                    date.spec_month(),
                    date.spec_day(),
                ),
                Err(e) => (date.spec_year() < 1980 && e.spec_kind() == DateRangeErrorKind::Negative)
                    || (date.spec_year() > 2107 && e.spec_kind() == DateRangeErrorKind::Overflow),
            },
    {
        let year = date.year();
        if year <= 1979 {
            return Err(DateRangeError::new(DateRangeErrorKind::Negative));
        }
        if year >= 2108 {
            return Err(DateRangeError::new(DateRangeErrorKind::Overflow));
        }
        let month = date.month().number();
        let day = date.day();
        let raw = pack_date((year - 1980) as u16, month as u16, day as u16);
        proof {
            lemma_packed_date_fields(year - 1980, month as int, day as int);
        }
        Ok(Date(raw))
    }

    /// Returns whether the packed value names a day of the calendar.
    pub fn is_valid(self) -> (r: bool)
        ensures
            r == is_valid_date(self@),
    {
        Date::new(self.0).is_some()
    }

    /// Returns the packed value.
    pub fn to_raw(self) -> (r: u16)
        ensures
            r == self@,
            is_valid_date(r),
    {
        proof {
            use_type_invariant(&self);
        }
        self.0
    }

    /// Returns the year, from 1980 to 2107.
    pub fn year(self) -> (r: u16)
        ensures
            r == date_year(self@),
    {
        1980 + year_offset_of(self.0)
    }

    /// Returns the month.
    pub fn month(self) -> (r: Month)
        ensures
            r.spec_number() == month_field(self@),
    {
        proof {
            use_type_invariant(&self);
        }
        Month::from_number(month_of(self.0)).unwrap()
    }

    /// Returns the day of the month, from 1 to 31.
    pub fn day(self) -> (r: u8)
        ensures
            r == day_field(self@),
            1 <= r <= 31,
    {
        proof {
            use_type_invariant(&self);
        }
        day_of(self.0)
    }

    /// Returns the calendar date that this date names.
    pub fn to_calendar_date(self) -> (r: CalendarDate)
        ensures
            r.spec_year() == date_year(self@),
            r.spec_month() == month_field(self@),
            r.spec_day() == day_field(self@),
    {
        proof {
            use_type_invariant(&self);
        }
        CalendarDate::new(self.year() as i32, self.month(), self.day()).unwrap()
    }

    /// Returns the date written as `YYYY-MM-DD`.
    pub fn to_string(&self) -> (r: String)
        ensures
            r@ == date_text(self@),
    {
        proof {
            reveal_strlit("-");
        }
        let mut s = String::new();
        push_four_digits(&mut s, self.year());
        s.append("-");
        push_two_digits(&mut s, self.month().number() as u16);
        s.append("-");
        push_two_digits(&mut s, self.day() as u16);
        s
    }
}

impl Default for Date {
    /// Returns the smallest date, 1980-01-01.
    fn default() -> (r: Date)
        ensures
            r@ == MIN_RAW,
    {
        Date::min_value()
    }
}

impl PartialOrd for Date {
    fn partial_cmp(&self, other: &Date) -> (r: Option<Ordering>) {
        let by_year = compare_u16(self.year(), other.year());
        let by_month = compare_u16(self.month().number() as u16, other.month().number() as u16);
        let by_day = compare_u16(self.day() as u16, other.day() as u16);
        Some(then_compare(by_year, then_compare(by_month, by_day)))
    }
}

impl PartialOrdSpecImpl for Date {
    open spec fn obeys_partial_cmp_spec() -> bool {
        true
    }

    open spec fn partial_cmp_spec(&self, other: &Date) -> Option<Ordering> {
        Some(date_order(self@, other@))
    }
}

} // verus!
