use marketplace_core::calendar::{CalendarDate, TimeOfDay, Timestamp};
use marketplace_core::schedule::{
    checked_schedule_time, BackupSchedule, CreateScheduleRequest, Frequency,
};

fn moment(y: i32, m: u32, d: u32, h: u32, mi: u32, s: u32) -> Timestamp {
    Timestamp {
        date: CalendarDate::new(y, m, d).unwrap(),
        time: TimeOfDay::from_hms(h, mi, s).unwrap(),
    }
}

fn rule(frequency: Frequency, h: u32, mi: u32, day: Option<i32>, date: Option<i32>) -> BackupSchedule {
    BackupSchedule {
        id: 1,
        name: "nightly".to_string(),
        frequency,
        schedule_time: TimeOfDay::from_hms(h, mi, 0).unwrap(),
        schedule_day: day,
        schedule_date: date,
        retention_count: 7,
        enabled: true,
        last_run_at: None,
        next_run_at: None,
        last_backup_id: None,
        created_by_id: 1,
        created_at: moment(2024, 1, 1, 0, 0, 0),
        updated_at: moment(2024, 1, 1, 0, 0, 0),
    }
}

fn request(frequency: &str, time: &str, day: Option<i32>, date: Option<i32>) -> CreateScheduleRequest {
    CreateScheduleRequest {
        name: "nightly".to_string(),
        frequency: frequency.to_string(),
        schedule_time: time.to_string(),
        schedule_day: day,
        schedule_date: date,
        retention_count: None,
        enabled: None,
    }
}

#[test]
fn daily_runs_today_while_the_time_is_ahead() {
    let s = rule(Frequency::Daily, 22, 0, None, None);
    assert_eq!(
        s.calculate_next_run(&moment(2024, 2, 28, 21, 59, 59)),
        Some(moment(2024, 2, 28, 22, 0, 0))
    );
}

#[test]
fn daily_runs_tomorrow_once_the_time_has_passed() {
    let s = rule(Frequency::Daily, 22, 0, None, None);
    assert_eq!(
        s.calculate_next_run(&moment(2024, 2, 28, 23, 0, 0)),
        Some(moment(2024, 2, 29, 22, 0, 0))
    );
    assert_eq!(
        s.calculate_next_run(&moment(2023, 2, 28, 23, 0, 0)),
        Some(moment(2023, 3, 1, 22, 0, 0))
    );
    let midnight = rule(Frequency::Daily, 0, 0, None, None);
    assert_eq!(
        midnight.calculate_next_run(&moment(2023, 12, 31, 23, 59, 0)),
        Some(moment(2024, 1, 1, 0, 0, 0))
    );
}

#[test]
fn a_time_that_is_now_has_not_passed() {
    let s = rule(Frequency::Daily, 22, 0, None, None);
    assert_eq!(
        s.calculate_next_run(&moment(2024, 2, 28, 22, 0, 0)),
        Some(moment(2024, 2, 28, 22, 0, 0))
    );
    let mut just_after = moment(2024, 2, 28, 22, 0, 0);
    just_after.time.nanos = 1;
    assert_eq!(s.calculate_next_run(&just_after), Some(moment(2024, 2, 29, 22, 0, 0)));
}

#[test]
fn disabled_schedule_never_runs() {
    let mut s = rule(Frequency::Daily, 22, 0, None, None);
    s.enabled = false;
    assert_eq!(s.calculate_next_run(&moment(2024, 2, 28, 21, 0, 0)), None);
}

#[test]
fn weekly_and_monthly_need_their_day() {
    let now = moment(2024, 1, 3, 12, 0, 0);
    assert_eq!(rule(Frequency::Weekly, 9, 0, None, Some(3)).calculate_next_run(&now), None);
    assert_eq!(rule(Frequency::Monthly, 9, 0, Some(3), None).calculate_next_run(&now), None);
}

#[test]
fn weekly_runs_on_the_target_weekday() {
    // 3 January 2024 is a Wednesday: weekday 3 counted from Sunday
    let now = moment(2024, 1, 3, 12, 0, 0);
    let later = rule(Frequency::Weekly, 9, 0, Some(5), None);
    assert_eq!(later.calculate_next_run(&now), Some(moment(2024, 1, 5, 9, 0, 0)));
    let earlier = rule(Frequency::Weekly, 9, 0, Some(1), None);
    assert_eq!(earlier.calculate_next_run(&now), Some(moment(2024, 1, 8, 9, 0, 0)));
    let sunday = rule(Frequency::Weekly, 9, 0, Some(0), None);
    assert_eq!(sunday.calculate_next_run(&now), Some(moment(2024, 1, 7, 9, 0, 0)));
    let saturday = rule(Frequency::Weekly, 9, 0, Some(6), None);
    assert_eq!(saturday.calculate_next_run(&now), Some(moment(2024, 1, 6, 9, 0, 0)));
}

#[test]
fn weekly_on_the_same_weekday_goes_by_the_time() {
    let passed = rule(Frequency::Weekly, 9, 0, Some(3), None);
    assert_eq!(
        passed.calculate_next_run(&moment(2024, 1, 3, 12, 0, 0)),
        Some(moment(2024, 1, 10, 9, 0, 0))
    );
    let ahead = rule(Frequency::Weekly, 18, 0, Some(3), None);
    assert_eq!(
        ahead.calculate_next_run(&moment(2024, 1, 3, 12, 0, 0)),
        Some(moment(2024, 1, 3, 18, 0, 0))
    );
}

#[test]
fn weekly_gap_is_at_most_a_week_for_every_pair_of_weekdays() {
    // 7 January 2024 is a Sunday; the seven days from it on cover every weekday
    for weekday in 0..7u32 {
        let now = moment(2024, 1, 7 + weekday, 12, 0, 0);
        for target in 0..7u32 {
            let s = rule(Frequency::Weekly, 9, 0, Some(target as i32), None);
            let next = s.calculate_next_run(&now).unwrap();
            // the time of day has passed, so the same weekday means a week from now
            let gap = if target > weekday { target - weekday } else { 7 - (weekday - target) };
            assert!(1 <= gap && gap <= 7);
            assert_eq!(next, moment(2024, 1, 7 + weekday + gap, 9, 0, 0));
            // 7, 14 and 21 January are Sundays
            assert_eq!((next.date.day - 7) % 7, target);
        }
    }
}

#[test]
fn monthly_runs_this_month_while_the_day_is_ahead() {
    let s = rule(Frequency::Monthly, 9, 0, None, Some(15));
    assert_eq!(
        s.calculate_next_run(&moment(2024, 3, 10, 12, 0, 0)),
        Some(moment(2024, 3, 15, 9, 0, 0))
    );
    assert_eq!(
        s.calculate_next_run(&moment(2024, 3, 15, 8, 0, 0)),
        Some(moment(2024, 3, 15, 9, 0, 0))
    );
    assert_eq!(
        s.calculate_next_run(&moment(2024, 3, 15, 9, 0, 0)),
        Some(moment(2024, 3, 15, 9, 0, 0))
    );
}

#[test]
fn monthly_rolls_to_the_next_month_once_the_day_has_passed() {
    let s = rule(Frequency::Monthly, 9, 0, None, Some(15));
    assert_eq!(
        s.calculate_next_run(&moment(2024, 3, 15, 9, 0, 1)),
        Some(moment(2024, 4, 15, 9, 0, 0))
    );
    assert_eq!(
        s.calculate_next_run(&moment(2024, 3, 20, 8, 0, 0)),
        Some(moment(2024, 4, 15, 9, 0, 0))
    );
    // the day of today need not exist in the month that follows
    assert_eq!(
        s.calculate_next_run(&moment(2024, 1, 31, 10, 0, 0)),
        Some(moment(2024, 2, 15, 9, 0, 0))
    );
}

#[test]
fn monthly_rolls_over_the_end_of_the_year() {
    let s = rule(Frequency::Monthly, 9, 0, None, Some(5));
    assert_eq!(
        s.calculate_next_run(&moment(2024, 12, 20, 8, 0, 0)),
        Some(moment(2025, 1, 5, 9, 0, 0))
    );
}

#[test]
fn monthly_falls_back_to_thirty_days_where_the_day_does_not_exist() {
    let s = rule(Frequency::Monthly, 9, 0, None, Some(31));
    // February has no 31st
    assert_eq!(
        s.calculate_next_run(&moment(2024, 1, 31, 10, 0, 0)),
        Some(moment(2024, 3, 1, 9, 0, 0))
    );
    // nor has April
    assert_eq!(
        s.calculate_next_run(&moment(2024, 4, 10, 10, 0, 0)),
        Some(moment(2024, 5, 10, 9, 0, 0))
    );
    let leap = rule(Frequency::Monthly, 9, 0, None, Some(29));
    assert_eq!(
        leap.calculate_next_run(&moment(2024, 2, 1, 10, 0, 0)),
        Some(moment(2024, 2, 29, 9, 0, 0))
    );
    assert_eq!(
        leap.calculate_next_run(&moment(2023, 2, 1, 10, 0, 0)),
        Some(moment(2023, 3, 3, 9, 0, 0))
    );
}

#[test]
fn next_run_beyond_the_last_date_is_none() {
    let s = rule(Frequency::Daily, 0, 0, None, None);
    let last = moment(262142, 12, 31, 12, 0, 0);
    assert_eq!(s.calculate_next_run(&last), None);
    let monthly = rule(Frequency::Monthly, 0, 0, None, Some(5));
    assert_eq!(monthly.calculate_next_run(&moment(262142, 12, 20, 12, 0, 0)), None);
}

#[test]
fn schedule_is_due_from_its_next_run_on() {
    let mut s = rule(Frequency::Daily, 22, 0, None, None);
    assert!(!s.is_due(&moment(2024, 1, 1, 0, 0, 0)));
    s.next_run_at = Some(moment(2024, 1, 2, 22, 0, 0));
    assert!(!s.is_due(&moment(2024, 1, 2, 21, 59, 59)));
    assert!(s.is_due(&moment(2024, 1, 2, 22, 0, 0)));
    assert!(s.is_due(&moment(2024, 1, 3, 0, 0, 0)));
    assert!(!s.is_due(&moment(2023, 12, 31, 23, 0, 0)));
}

#[test]
fn frequency_is_read_by_name() {
    assert_eq!(Frequency::parse("daily"), Some(Frequency::Daily));
    assert_eq!(Frequency::parse("weekly"), Some(Frequency::Weekly));
    assert_eq!(Frequency::parse("monthly"), Some(Frequency::Monthly));
    assert_eq!(Frequency::parse("Daily"), None);
    assert_eq!(Frequency::parse(""), None);
    for f in [Frequency::Daily, Frequency::Weekly, Frequency::Monthly] {
        assert_eq!(Frequency::parse(f.as_str()), Some(f));
    }
}

#[test]
fn schedule_request_defaults() {
    let r = request("daily", "07:15", None, None);
    assert_eq!(r.get_retention_count(), 7);
    assert!(r.get_enabled());
    let mut r = r;
    r.retention_count = Some(3);
    r.enabled = Some(false);
    assert_eq!(r.get_retention_count(), 3);
    assert!(!r.get_enabled());
}

#[test]
fn schedule_time_is_hours_and_minutes() {
    assert_eq!(
        request("daily", "07:15", None, None).parse_schedule_time(),
        Ok(TimeOfDay { secs: 7 * 3600 + 15 * 60, nanos: 0 })
    );
    assert_eq!(
        request("daily", "23:59", None, None).parse_schedule_time(),
        Ok(TimeOfDay { secs: 23 * 3600 + 59 * 60, nanos: 0 })
    );
    for bad in ["24:00", "12:60", "noon", "", "12", "12:30:00"] {
        assert_eq!(
            request("daily", bad, None, None).parse_schedule_time(),
            Err("Invalid time format. Use HH:MM format.".to_string())
        );
    }
}

#[test]
fn a_leap_second_is_no_schedule_time() {
    let leap = TimeOfDay { secs: 86399, nanos: 1_500_000_000 };
    assert_eq!(
        checked_schedule_time(Some(leap)),
        Err("Invalid time format. Use HH:MM format.".to_string())
    );
    assert_eq!(
        checked_schedule_time(None),
        Err("Invalid time format. Use HH:MM format.".to_string())
    );
    let fine = TimeOfDay { secs: 60, nanos: 0 };
    assert_eq!(checked_schedule_time(Some(fine)), Ok(fine));
}

#[test]
fn schedule_constraints_go_by_frequency() {
    assert_eq!(request("daily", "07:15", None, None).validate_schedule_constraints(), Ok(()));
    assert_eq!(request("daily", "07:15", Some(99), Some(99)).validate_schedule_constraints(), Ok(()));
    assert_eq!(
        request("weekly", "07:15", None, None).validate_schedule_constraints(),
        Err("schedule_day is required for weekly frequency".to_string())
    );
    assert_eq!(
        request("weekly", "07:15", Some(7), None).validate_schedule_constraints(),
        Err("schedule_day must be between 0 (Sunday) and 6 (Saturday)".to_string())
    );
    assert_eq!(
        request("weekly", "07:15", Some(-1), None).validate_schedule_constraints(),
        Err("schedule_day must be between 0 (Sunday) and 6 (Saturday)".to_string())
    );
    assert_eq!(request("weekly", "07:15", Some(0), None).validate_schedule_constraints(), Ok(()));
    assert_eq!(request("weekly", "07:15", Some(6), None).validate_schedule_constraints(), Ok(()));
    assert_eq!(
        request("monthly", "07:15", None, None).validate_schedule_constraints(),
        Err("schedule_date is required for monthly frequency".to_string())
    );
    assert_eq!(
        request("monthly", "07:15", None, Some(0)).validate_schedule_constraints(),
        Err("schedule_date must be between 1 and 31".to_string())
    );
    assert_eq!(
        request("monthly", "07:15", None, Some(32)).validate_schedule_constraints(),
        Err("schedule_date must be between 1 and 31".to_string())
    );
    assert_eq!(request("monthly", "07:15", None, Some(1)).validate_schedule_constraints(), Ok(()));
    assert_eq!(request("monthly", "07:15", None, Some(31)).validate_schedule_constraints(), Ok(()));
    assert_eq!(
        request("yearly", "07:15", None, None).validate_schedule_constraints(),
        Err("Invalid frequency. Must be daily, weekly, or monthly".to_string())
    );
}
