//! MS-DOS date and time: the packed 16-bit timestamps of the FAT and ZIP
//! formats, checked against the proleptic Gregorian calendar.

pub mod calendar;
pub mod date_time;
pub mod dos_date;
pub mod dos_date_time;
pub mod dos_time;
pub mod error;
pub mod layout;
pub mod order;
mod text;

pub use crate::calendar::{CalendarDate, CalendarTime, Month};
pub use crate::date_time::DateTime;
pub use crate::dos_date::Date;
pub use crate::dos_time::Time;
