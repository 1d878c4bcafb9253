//! The error of converting a calendar date and time into a packed date and
//! time.

use vstd::prelude::*;
use vstd::string::*;

use super::dos_date::{DateRangeError, DateRangeErrorKind};

verus! {

/// Which end of the packed date and time range a calendar value fell beyond.
#[derive(Clone, Copy, Debug, PartialEq, Eq, Structural)]
pub enum DateTimeRangeErrorKind {
    /// The value was before 1980-01-01 00:00:00.
    Negative,
    /// The value was after 2107-12-31 23:59:59.
    Overflow,
}

impl DateTimeRangeErrorKind {
    /// Returns the message that describes this kind of error.
    pub fn to_string(&self) -> (r: String)
        ensures
            *self == DateTimeRangeErrorKind::Negative ==> r@
                == "MS-DOS date and time are before `1980-01-01 00:00:00`"@,
            *self == DateTimeRangeErrorKind::Overflow ==> r@
                == "MS-DOS date and time are after `2107-12-31 23:59:58`"@,
    {
        match self {
            DateTimeRangeErrorKind::Negative => String::from_str(
                "MS-DOS date and time are before `1980-01-01 00:00:00`",
            ),
            DateTimeRangeErrorKind::Overflow => String::from_str(
                "MS-DOS date and time are after `2107-12-31 23:59:58`",
            ),
        }
    }
}

/// The kind of date and time error that stands for a date error of the given
/// kind.
pub open spec fn date_time_kind_of(kind: DateRangeErrorKind) -> DateTimeRangeErrorKind {
    match kind {
        DateRangeErrorKind::Negative => DateTimeRangeErrorKind::Negative,
        DateRangeErrorKind::Overflow => DateTimeRangeErrorKind::Overflow,
    }
}

/// The error returned when a calendar date and time lie outside the range of
/// packed dates and times.
#[derive(Clone, Copy, Debug, PartialEq, Eq, Structural)]
pub struct DateTimeRangeError(DateTimeRangeErrorKind);

impl DateTimeRangeError {
    /// The kind of this error.
    pub closed spec fn spec_kind(self) -> DateTimeRangeErrorKind {
        self.0
    }

    /// The error of the given kind.
    pub closed spec fn spec_new(kind: DateTimeRangeErrorKind) -> DateTimeRangeError {
        DateTimeRangeError(kind)
    }

    /// Creates the error of the given kind.
    pub fn new(kind: DateTimeRangeErrorKind) -> (r: DateTimeRangeError)
        ensures
            r == DateTimeRangeError::spec_new(kind),
            r.spec_kind() == kind,
    {
        DateTimeRangeError(kind)
    }

    /// Returns the kind of this error.
    pub fn kind(&self) -> (r: DateTimeRangeErrorKind)
        ensures
            r == self.spec_kind(),
    {
        self.0
    }

    /// Returns the message that describes this error, that of its kind.
    pub fn to_string(&self) -> (r: String)
        ensures
            self.spec_kind() == DateTimeRangeErrorKind::Negative ==> r@
                == "MS-DOS date and time are before `1980-01-01 00:00:00`"@,
            self.spec_kind() == DateTimeRangeErrorKind::Overflow ==> r@
                == "MS-DOS date and time are after `2107-12-31 23:59:58`"@,
    {
        self.0.to_string()
    }

    /// The error made of a kind has that kind.
    pub proof fn lemma_spec_new_kind(kind: DateTimeRangeErrorKind)
        ensures
            DateTimeRangeError::spec_new(kind).spec_kind() == kind,
    {
    }

}

impl From<DateTimeRangeErrorKind> for DateTimeRangeError {
    fn from(kind: DateTimeRangeErrorKind) -> (r: DateTimeRangeError) {
        DateTimeRangeError::new(kind)
    }
}

impl vstd::std_specs::convert::FromSpecImpl<DateTimeRangeErrorKind> for DateTimeRangeError {
    open spec fn obeys_from_spec() -> bool {
        true
    }

    open spec fn from_spec(kind: DateTimeRangeErrorKind) -> DateTimeRangeError {
        DateTimeRangeError::spec_new(kind)
    }
}

impl From<DateRangeError> for DateTimeRangeError {
    fn from(err: DateRangeError) -> (r: DateTimeRangeError) {
        match err.kind() {
            DateRangeErrorKind::Negative => DateTimeRangeError::new(
                DateTimeRangeErrorKind::Negative,
            ),
            DateRangeErrorKind::Overflow => DateTimeRangeError::new(
                DateTimeRangeErrorKind::Overflow,
            ),
        }
    }
}

impl vstd::std_specs::convert::FromSpecImpl<DateRangeError> for DateTimeRangeError {
    open spec fn obeys_from_spec() -> bool {
        true
    }

    open spec fn from_spec(err: DateRangeError) -> DateTimeRangeError {
        DateTimeRangeError::spec_new(date_time_kind_of(err.spec_kind()))
    }
}

} // verus!
