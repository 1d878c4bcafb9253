//! Error types of this crate.

pub mod dos_date;
pub mod dos_date_time;

pub use self::dos_date::{DateRangeError, DateRangeErrorKind};
pub use self::dos_date_time::{DateTimeRangeError, DateTimeRangeErrorKind};
