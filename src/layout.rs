//! The bit layout shared by packed dates and packed times.
//!
//! A packed date holds the year offset from 1980 in bits 9 to 15, the month
//! in bits 5 to 8 and the day in bits 0 to 4. A packed time holds the hour in
//! bits 11 to 15, the minute in bits 5 to 10 and the second divided by two in
//! bits 0 to 4.

use vstd::prelude::*;

verus! {

/// The year offset from 1980 held by a packed date.
pub open spec fn year_offset_field(raw: u16) -> int {
    raw as int / 512
}

/// The month held by a packed date (not yet checked to lie in 1 to 12).
pub open spec fn month_field(raw: u16) -> int {
    (raw as int / 32) % 16
}

/// The day held by a packed date (not yet checked against the month).
pub open spec fn day_field(raw: u16) -> int {
    raw as int % 32
}

/// The hour held by a packed time.
pub open spec fn hour_field(raw: u16) -> int {
    raw as int / 2048
}

/// The minute held by a packed time.
pub open spec fn minute_field(raw: u16) -> int {
    (raw as int / 32) % 64
}

/// The count of two-second steps held by a packed time.
pub open spec fn double_seconds_field(raw: u16) -> int {
    raw as int % 32
}

/// The packed date with the given fields.
pub open spec fn packed_date(year_offset: int, month: int, day: int) -> int {
    year_offset * 512 + month * 32 + day
}

/// The packed time with the given fields.
pub open spec fn packed_time(hour: int, minute: int, double_seconds: int) -> int {
    hour * 2048 + minute * 32 + double_seconds
}

/// Every 16-bit value is the packing of its own date fields.
pub proof fn lemma_date_fields_pack(raw: u16)
    ensures
        0 <= year_offset_field(raw) < 128,
        0 <= month_field(raw) < 16,
        0 <= day_field(raw) < 32,
        packed_date(year_offset_field(raw), month_field(raw), day_field(raw)) == raw,
{
    assert(raw == (raw / 512) * 512 + ((raw / 32) % 16) * 32 + raw % 32) by (bit_vector);
}

/// Every 16-bit value is the packing of its own time fields.
pub proof fn lemma_time_fields_pack(raw: u16)
    ensures
        0 <= hour_field(raw) < 32,
        0 <= minute_field(raw) < 64,
        0 <= double_seconds_field(raw) < 32,
        packed_time(hour_field(raw), minute_field(raw), double_seconds_field(raw)) == raw,
{
    assert(raw == (raw / 2048) * 2048 + ((raw / 32) % 64) * 32 + raw % 32) by (bit_vector);
}

/// Packing date fields that fit their widths and unpacking the result gives
/// the fields back.
pub proof fn lemma_packed_date_fields(year_offset: int, month: int, day: int)
    requires
        0 <= year_offset < 128,
        0 <= month < 16,
        0 <= day < 32,
    ensures
        0 <= packed_date(year_offset, month, day) <= u16::MAX,
        year_offset_field(packed_date(year_offset, month, day) as u16) == year_offset,
        month_field(packed_date(year_offset, month, day) as u16) == month,
        day_field(packed_date(year_offset, month, day) as u16) == day,
{
    let p = packed_date(year_offset, month, day);
    assert(p / 512 == year_offset);
    assert(p / 32 == year_offset * 16 + month);
    assert((year_offset * 16 + month) % 16 == month);
    assert(p % 32 == day);
}

/// Packing time fields that fit their widths and unpacking the result gives
/// the fields back.
pub proof fn lemma_packed_time_fields(hour: int, minute: int, double_seconds: int)
    requires
        0 <= hour < 32,
        0 <= minute < 64,
        0 <= double_seconds < 32,
    ensures
        0 <= packed_time(hour, minute, double_seconds) <= u16::MAX,
        hour_field(packed_time(hour, minute, double_seconds) as u16) == hour,
        minute_field(packed_time(hour, minute, double_seconds) as u16) == minute,
        double_seconds_field(packed_time(hour, minute, double_seconds) as u16) == double_seconds,
{
    let p = packed_time(hour, minute, double_seconds);
    assert(p / 2048 == hour);
    assert(p / 32 == hour * 64 + minute);
    assert((hour * 64 + minute) % 64 == minute);
    assert(p % 32 == double_seconds);
}

/// Reads the year offset of a packed date.
pub fn year_offset_of(raw: u16) -> (r: u16)
    ensures
        r == year_offset_field(raw),
        r < 128,
{
    assert(raw >> 9u16 == raw / 512 && raw / 512 < 128) by (bit_vector);
    raw >> 9
}

/// Reads the month of a packed date.
pub fn month_of(raw: u16) -> (r: u8)
    ensures
        r == month_field(raw),
{
    assert((raw >> 5u16) & 0x0f == (raw / 32) % 16) by (bit_vector);
    ((raw >> 5) & 0x0f) as u8
}

/// Reads the day of a packed date.
pub fn day_of(raw: u16) -> (r: u8)
    ensures
        r == day_field(raw),
{
    assert(raw & 0x1f == raw % 32) by (bit_vector);
    (raw & 0x1f) as u8
}

/// Reads the hour of a packed time.
pub fn hour_of(raw: u16) -> (r: u8)
    ensures
        r == hour_field(raw),
{
    assert(raw >> 11u16 == raw / 2048 && raw / 2048 < 32) by (bit_vector);
    (raw >> 11) as u8
}

/// Reads the minute of a packed time.
pub fn minute_of(raw: u16) -> (r: u8)
    ensures
        r == minute_field(raw),
{
    assert((raw >> 5u16) & 0x3f == (raw / 32) % 64) by (bit_vector);
    ((raw >> 5) & 0x3f) as u8
}

/// Reads the count of two-second steps of a packed time.
pub fn double_seconds_of(raw: u16) -> (r: u8)
    ensures
        r == double_seconds_field(raw),
{
    assert(raw & 0x1f == raw % 32) by (bit_vector);
    (raw & 0x1f) as u8
}

/// Packs the fields of a date.
pub fn pack_date(year_offset: u16, month: u16, day: u16) -> (r: u16)
    requires
        year_offset < 128,
        month < 16,
        day < 32,
    ensures
        r == packed_date(year_offset as int, month as int, day as int),
{
    assert((year_offset << 9u16) | (month << 5u16) | day == year_offset * 512 + month * 32 + day)
        by (bit_vector)
        requires
            year_offset < 128,
            month < 16,
            day < 32,
    ;
    (year_offset << 9) | (month << 5) | day
}

/// Packs the fields of a time.
pub fn pack_time(hour: u16, minute: u16, double_seconds: u16) -> (r: u16)
    requires
        hour < 32,
        minute < 64,
        double_seconds < 32,
    ensures
        r == packed_time(hour as int, minute as int, double_seconds as int),
{
    assert((hour << 11u16) | (minute << 5u16) | double_seconds == hour * 2048 + minute * 32
        + double_seconds) by (bit_vector)
        requires
            hour < 32,
            minute < 64,
            double_seconds < 32,
    ;
    (hour << 11) | (minute << 5) | double_seconds
}

} // verus!
