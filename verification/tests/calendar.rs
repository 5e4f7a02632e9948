use marketplace_core::calendar::{
    compact_stamp, leap_year, month_length, CalendarDate, Span, TimeOfDay, Timestamp, MAX_YEAR,
    MIN_YEAR,
};

fn instant(y: i32, m: u32, d: u32, h: u32, mi: u32, s: u32) -> Timestamp {
    Timestamp {
        date: CalendarDate::new(y, m, d).unwrap(),
        time: TimeOfDay::from_hms(h, mi, s).unwrap(),
    }
}

#[test]
fn leap_years_follow_the_gregorian_rule() {
    assert!(leap_year(2024));
    assert!(!leap_year(2023));
    assert!(!leap_year(1900));
    assert!(leap_year(2000));
    assert!(leap_year(0));
    assert!(leap_year(-4));
    assert!(!leap_year(-1));
    assert!(!leap_year(-100));
    assert!(leap_year(-400));
}

#[test]
fn months_have_their_lengths() {
    let lengths = [31, 29, 31, 30, 31, 30, 31, 31, 30, 31, 30, 31];
    for (i, expected) in lengths.iter().enumerate() {
        assert_eq!(month_length(2024, i as u32 + 1), *expected);
    }
    assert_eq!(month_length(2023, 2), 28);
}

#[test]
fn dates_exist_or_do_not() {
    assert_eq!(
        CalendarDate::new(2024, 2, 29),
        Some(CalendarDate { year: 2024, month: 2, day: 29 })
    );
    assert_eq!(CalendarDate::new(2023, 2, 29), None);
    assert_eq!(CalendarDate::new(2024, 0, 1), None);
    assert_eq!(CalendarDate::new(2024, 13, 1), None);
    assert_eq!(CalendarDate::new(2024, 1, 0), None);
    assert_eq!(CalendarDate::new(2024, 4, 31), None);
    assert!(CalendarDate::new(MAX_YEAR, 12, 31).is_some());
    assert!(CalendarDate::new(MIN_YEAR, 1, 1).is_some());
    assert_eq!(CalendarDate::new(MAX_YEAR + 1, 1, 1), None);
    assert_eq!(CalendarDate::new(MIN_YEAR - 1, 12, 31), None);
    assert!(CalendarDate { year: 2024, month: 2, day: 29 }.is_valid());
    assert!(!CalendarDate { year: 2024, month: 2, day: 30 }.is_valid());
}

#[test]
fn times_exist_or_do_not() {
    assert_eq!(TimeOfDay::from_hms(0, 0, 0), Some(TimeOfDay { secs: 0, nanos: 0 }));
    assert_eq!(TimeOfDay::from_hms(23, 59, 59), Some(TimeOfDay { secs: 86399, nanos: 0 }));
    assert_eq!(TimeOfDay::from_hms(1, 2, 3), Some(TimeOfDay { secs: 3723, nanos: 0 }));
    assert_eq!(TimeOfDay::from_hms(24, 0, 0), None);
    assert_eq!(TimeOfDay::from_hms(0, 60, 0), None);
    assert_eq!(TimeOfDay::from_hms(0, 0, 60), None);
    assert!(TimeOfDay { secs: 86399, nanos: 999_999_999 }.is_valid());
    assert!(!TimeOfDay { secs: 86400, nanos: 0 }.is_valid());
    assert!(!TimeOfDay { secs: 0, nanos: 1_000_000_000 }.is_valid());
    assert!(!Timestamp {
        date: CalendarDate { year: 2024, month: 1, day: 1 },
        time: TimeOfDay { secs: 86400, nanos: 0 }
    }
    .is_valid());
}

#[test]
fn order_goes_by_date_then_time() {
    let a = instant(2024, 1, 31, 23, 59, 59);
    let b = instant(2024, 2, 1, 0, 0, 0);
    assert!(a.is_before(&b));
    assert!(!b.is_before(&a));
    assert!(!a.is_before(&a));
    assert!(instant(2023, 12, 31, 23, 0, 0).is_before(&instant(2024, 1, 1, 0, 0, 0)));
    let mut c = a;
    c.time.nanos = 1;
    assert!(a.is_before(&c));
    assert!(c.is_before(&b));
    assert!(a.date.is_before(&b.date));
    assert!(!a.date.is_before(&a.date));
    assert!(c.time.is_after(&a.time));
    assert!(!a.time.is_after(&a.time));
    assert!(!a.time.is_after(&c.time));
}

#[test]
fn stamp_is_date_and_time_in_digits() {
    assert_eq!(compact_stamp(&instant(2024, 5, 1, 7, 8, 9)), "20240501_070809");
    assert_eq!(compact_stamp(&instant(1999, 12, 31, 23, 59, 59)), "19991231_235959");
}

#[test]
fn whole_hours_round_toward_zero() {
    assert_eq!(Span { secs: 3599, subsec_nanos: 0 }.whole_hours(), 0);
    assert_eq!(Span { secs: 3600, subsec_nanos: 0 }.whole_hours(), 1);
    assert_eq!(Span { secs: 86399, subsec_nanos: 999 }.whole_hours(), 23);
    assert_eq!(Span { secs: -3599, subsec_nanos: 0 }.whole_hours(), 0);
    assert_eq!(Span { secs: -3600, subsec_nanos: 0 }.whole_hours(), -1);
    assert_eq!(Span { secs: -7199, subsec_nanos: -5 }.whole_hours(), -1);
}
