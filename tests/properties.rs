use std::cmp::Ordering;

use dos_date_time::dos_date_time::DateTime as PackedDateTime;
use dos_date_time::error::{DateRangeErrorKind, DateTimeRangeErrorKind};
use dos_date_time::{CalendarDate, CalendarTime, Date, DateTime, Month, Time};

fn day_of_calendar(year: i32, month: u8, day: u8) -> Option<CalendarDate> {
    CalendarDate::new(year, Month::from_number(month).unwrap(), day)
}

#[test]
fn every_valid_date_survives_a_round_trip() {
    let mut valid = 0u32;
    for raw in 0..=u16::MAX {
        if let Some(date) = Date::new(raw) {
            valid += 1;
            let back = Date::from_date(date.to_calendar_date()).unwrap();
            assert_eq!(back.to_raw(), raw);
        }
    }
    // 128 years from 1980, 31 of them leap years (2100 is not).
    assert_eq!(valid, 128 * 365 + 31);
}

#[test]
fn every_valid_time_survives_a_round_trip() {
    let mut valid = 0u32;
    for raw in 0..=u16::MAX {
        if let Some(time) = Time::new(raw) {
            valid += 1;
            assert_eq!(Time::from_time(time.to_calendar_time()).to_raw(), raw);
        }
    }
    assert_eq!(valid, 24 * 60 * 30);
}

#[test]
fn packed_date_time_round_trip() {
    let dt = PackedDateTime::new(
        Date::new(0b0100_1101_0111_0001).unwrap(),
        Time::new(0b0101_0100_1100_1111).unwrap(),
    );
    let (date, time) = dt.to_calendar_date_time();
    assert_eq!(PackedDateTime::from_date_time(date, time).unwrap(), dt);
}

#[test]
fn epoch_boundaries() {
    let first = day_of_calendar(1980, 1, 1).unwrap();
    assert_eq!(Date::from_date(first).unwrap(), Date::min_value());
    let before = day_of_calendar(1979, 12, 31).unwrap();
    assert_eq!(
        Date::from_date(before).unwrap_err().kind(),
        DateRangeErrorKind::Negative
    );
    let last = day_of_calendar(2107, 12, 31).unwrap();
    assert_eq!(Date::from_date(last).unwrap(), Date::max_value());
    let after = day_of_calendar(2108, 1, 1).unwrap();
    assert_eq!(
        Date::from_date(after).unwrap_err().kind(),
        DateRangeErrorKind::Overflow
    );
    let far = day_of_calendar(-9999, 1, 1).unwrap();
    assert_eq!(
        Date::from_date(far).unwrap_err().kind(),
        DateRangeErrorKind::Negative
    );
    let far = day_of_calendar(9999, 12, 31).unwrap();
    assert_eq!(
        PackedDateTime::from_date_time(far, CalendarTime::new(0, 0, 0).unwrap())
            .unwrap_err()
            .kind(),
        DateTimeRangeErrorKind::Overflow
    );
}

#[test]
fn seconds_are_halved_and_clamped() {
    let t = Time::from_time(CalendarTime::new(19, 25, 0).unwrap());
    assert_eq!(t.to_raw() & 0x1f, 0);
    assert_eq!(t.second(), 0);
    let t = Time::from_time(CalendarTime::new(10, 38, 30).unwrap());
    assert_eq!(t.to_raw() & 0x1f, 15);
    assert_eq!(t.second(), 30);
    let t = Time::from_time(CalendarTime::new(10, 38, 31).unwrap());
    assert_eq!(t.second(), 30);
    let a = Time::from_time(CalendarTime::new(23, 59, 58).unwrap());
    let b = Time::from_time(CalendarTime::new(23, 59, 59).unwrap());
    assert_eq!(a, Time::max_value());
    assert_eq!(b, Time::max_value());
    assert_eq!(b.to_raw() & 0x1f, 29);
    assert_eq!(b.second(), 58);
}

#[test]
fn invalid_bit_patterns_are_rejected() {
    for raw in 0..=u16::MAX {
        let (month, day) = ((raw >> 5) & 0x0f, raw & 0x1f);
        if day == 0 || month == 0 || month > 12 || (month == 2 && day >= 30) {
            assert!(Date::new(raw).is_none());
            assert!(!Date::new_unchecked(raw).is_valid());
        }
        let (hour, minute, halves) = (raw >> 11, (raw >> 5) & 0x3f, raw & 0x1f);
        if hour >= 24 || minute >= 60 || halves >= 30 {
            assert!(Time::new(raw).is_none());
            assert!(!Time::new_unchecked(raw).is_valid());
        }
    }
}

#[test]
fn leap_days() {
    // 2000-02-29 exists, 2100-02-29 does not.
    assert!(Date::new((20 << 9) | (2 << 5) | 29).is_some());
    assert!(Date::new((120 << 9) | (2 << 5) | 29).is_none());
    assert!(Date::new((39 << 9) | (2 << 5) | 29).is_none());
    assert!(Date::new((40 << 9) | (2 << 5) | 29).is_some());
    // April has 30 days.
    assert!(Date::new((40 << 9) | (4 << 5) | 30).is_some());
    assert!(Date::new((40 << 9) | (4 << 5) | 31).is_none());
}

#[test]
fn calendar_dates_follow_the_gregorian_calendar() {
    assert!(day_of_calendar(2019, 2, 29).is_none());
    assert!(day_of_calendar(2020, 2, 29).is_some());
    assert!(day_of_calendar(1900, 2, 29).is_none());
    assert!(day_of_calendar(2000, 2, 29).is_some());
    assert!(day_of_calendar(2021, 6, 31).is_none());
    assert!(day_of_calendar(2021, 7, 31).is_some());
    assert!(day_of_calendar(2021, 7, 0).is_none());
    assert!(day_of_calendar(10000, 1, 1).is_none());
    assert!(day_of_calendar(-10000, 1, 1).is_none());
    let d = day_of_calendar(2018, 11, 17).unwrap();
    assert_eq!((d.year(), d.month(), d.day()), (2018, Month::November, 17));
}

#[test]
fn calendar_times_stay_on_the_clock() {
    assert!(CalendarTime::new(23, 59, 59).is_some());
    assert!(CalendarTime::new(24, 0, 0).is_none());
    assert!(CalendarTime::new(0, 60, 0).is_none());
    assert!(CalendarTime::new(0, 0, 60).is_none());
    let t = CalendarTime::new(10, 38, 30).unwrap();
    assert_eq!((t.hour(), t.minute(), t.second()), (10, 38, 30));
}

#[test]
fn month_numbers() {
    assert!(Month::from_number(0).is_none());
    assert!(Month::from_number(13).is_none());
    for n in 1..=12u8 {
        assert_eq!(Month::from_number(n).unwrap().number(), n);
    }
    assert_eq!(Month::from_number(11), Some(Month::November));
}

#[test]
fn calendar_order_matches_bit_order() {
    let samples: Vec<u16> = (0..=u16::MAX).step_by(97).filter_map(|r| Date::new(r)).map(|d| d.to_raw()).collect();
    for &a in &samples {
        for &b in samples.iter().step_by(13) {
            let (da, db) = (Date::new(a).unwrap(), Date::new(b).unwrap());
            assert_eq!(da.partial_cmp(&db), Some(a.cmp(&b)));
            assert_eq!(da.cmp(&db), a.cmp(&b));
        }
    }
    let times: Vec<u16> = (0..=u16::MAX).step_by(89).filter_map(|r| Time::new(r)).map(|t| t.to_raw()).collect();
    for &a in &times {
        for &b in times.iter().step_by(7) {
            let (ta, tb) = (Time::new(a).unwrap(), Time::new(b).unwrap());
            assert_eq!(ta.partial_cmp(&tb), Some(a.cmp(&b)));
        }
    }
    let earlier = DateTime::new(0b0100_1101_0111_0001, 0b1011_1111_0111_1101).unwrap();
    let later = DateTime::new(0b0100_1101_0111_0010, 0).unwrap();
    assert_eq!(earlier.partial_cmp(&later), Some(Ordering::Less));
    let earlier = PackedDateTime::new(Date::new(0b0100_1101_0111_0001).unwrap(), Time::max_value());
    let later = PackedDateTime::new(Date::new(0b0100_1101_0111_0010).unwrap(), Time::min_value());
    assert!(earlier < later);
}

#[test]
fn end_to_end_2018() {
    let date = day_of_calendar(2018, 11, 17).unwrap();
    let time = CalendarTime::new(10, 38, 30).unwrap();
    let dt = PackedDateTime::from_date_time(date, time).unwrap();
    assert_eq!(dt.date().to_raw(), 0b0100_1101_0111_0001);
    assert_eq!(dt.date().to_raw(), 19825);
    assert_eq!(dt.time().to_raw(), 0b0101_0100_1100_1111);
    assert_eq!(dt.time().to_raw(), 21711);
    assert_eq!(dt.to_string(), "2018-11-17 10:38:30");
    let legacy = DateTime::from_date_time(date, time).unwrap();
    assert_eq!((legacy.date(), legacy.time()), (19825, 21711));
    assert_eq!(legacy.to_string(), "2018-11-17 10:38:30");
}

#[test]
fn end_to_end_2002() {
    let date = day_of_calendar(2002, 11, 26).unwrap();
    let time = CalendarTime::new(19, 25, 0).unwrap();
    let dt = PackedDateTime::from_date_time(date, time).unwrap();
    assert_eq!(dt.date().to_raw(), 11642);
    assert_eq!(dt.time().to_raw(), 39712);
    assert_eq!(dt.to_string(), "2002-11-26 19:25:00");
    let legacy = DateTime::from_date_time(date, time).unwrap();
    assert_eq!((legacy.date(), legacy.time()), (11642, 39712));
    assert_eq!(legacy.to_string(), "2002-11-26 19:25:00");
}

#[test]
fn date_time_errors_carry_the_date_error_kind() {
    let date = day_of_calendar(1979, 12, 31).unwrap();
    let time = CalendarTime::new(23, 59, 59).unwrap();
    assert_eq!(
        PackedDateTime::from_date_time(date, time).unwrap_err().kind(),
        DateTimeRangeErrorKind::Negative
    );
    assert_eq!(
        DateTime::from_date_time(date, time).unwrap_err().kind(),
        DateTimeRangeErrorKind::Negative
    );
    let date = day_of_calendar(2108, 1, 1).unwrap();
    assert_eq!(
        DateTime::from_date_time(date, time).unwrap_err().kind(),
        DateTimeRangeErrorKind::Overflow
    );
}

#[test]
fn leading_zeros_in_text() {
    let d = Date::new((0 << 9) | (3 << 5) | 5).unwrap();
    assert_eq!(d.to_string(), "1980-03-05");
    let t = Time::new((7 << 11) | (4 << 5) | 3).unwrap();
    assert_eq!(t.to_string(), "07:04:06");
}
