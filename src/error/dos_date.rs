//! The error of converting a calendar date into a packed date.

use vstd::prelude::*;
use vstd::string::*;

verus! {

/// Which end of the packed date range a calendar date fell beyond.
#[derive(Clone, Copy, Debug, PartialEq, Eq, Structural)]
pub enum DateRangeErrorKind {
    /// The date was before 1980-01-01.
    Negative,
    /// The date was after 2107-12-31.
    Overflow,
}

impl DateRangeErrorKind {
    /// Returns the message that describes this kind of error.
    pub fn to_string(&self) -> (r: String)
        ensures
            *self == DateRangeErrorKind::Negative ==> r@ == "MS-DOS date is before `1980-01-01`"@,
            *self == DateRangeErrorKind::Overflow ==> r@ == "MS-DOS date is after `2107-12-31`"@,
    {
        match self {
            DateRangeErrorKind::Negative => String::from_str("MS-DOS date is before `1980-01-01`"),
            DateRangeErrorKind::Overflow => String::from_str("MS-DOS date is after `2107-12-31`"),
        }
    }
}

/// The error returned when a calendar date lies outside the range of packed
/// dates.
#[derive(Clone, Copy, Debug, PartialEq, Eq, Structural)]
pub struct DateRangeError(DateRangeErrorKind);

impl DateRangeError {
    /// The kind of this error.
    pub closed spec fn spec_kind(self) -> DateRangeErrorKind {
        self.0
    }

    /// The error of the given kind.
    pub closed spec fn spec_new(kind: DateRangeErrorKind) -> DateRangeError {
        DateRangeError(kind)
    }

    /// Creates the error of the given kind.
    pub fn new(kind: DateRangeErrorKind) -> (r: DateRangeError)
        ensures
            r == DateRangeError::spec_new(kind),
            r.spec_kind() == kind,
    {
        DateRangeError(kind)
    }

    /// Returns the kind of this error.
    pub fn kind(&self) -> (r: DateRangeErrorKind)
        ensures
            r == self.spec_kind(),
    {
        self.0
    }

    /// Returns the message that describes this error, that of its kind.
    pub fn to_string(&self) -> (r: String)
        ensures
            self.spec_kind() == DateRangeErrorKind::Negative ==> r@
                == "MS-DOS date is before `1980-01-01`"@,
            self.spec_kind() == DateRangeErrorKind::Overflow ==> r@
                == "MS-DOS date is after `2107-12-31`"@,
    {
        self.0.to_string()
    }

}

impl From<DateRangeErrorKind> for DateRangeError {
    fn from(kind: DateRangeErrorKind) -> (r: DateRangeError) {
        DateRangeError::new(kind)
    }
}

impl vstd::std_specs::convert::FromSpecImpl<DateRangeErrorKind> for DateRangeError {
    open spec fn obeys_from_spec() -> bool {
        true
    }

    open spec fn from_spec(kind: DateRangeErrorKind) -> DateRangeError {
        DateRangeError::spec_new(kind)
    }
}

} // verus!
