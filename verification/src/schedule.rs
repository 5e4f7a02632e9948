//! Recurring backups: what a schedule is and when it runs next.

use crate::calendar::{
    add_days, day_number, lemma_day_number_injective, lemma_valid_date_in_range, max_day_number,
    min_day_number, parse_time, parsed_time, valid_date, weekday_from_sunday, CalendarDate,
    TimeOfDay, Timestamp, NANOS_PER_SECOND,
};
use crate::text::str_eq;
use vstd::prelude::*;

verus! {

/// How often a schedule runs.
#[derive(Clone, Copy, Debug, PartialEq, Eq, Structural)]
pub enum Frequency {
    Daily,
    Weekly,
    Monthly,
}

impl Frequency {
    pub open spec fn text(self) -> Seq<char> {
        match self {
            Frequency::Daily => "daily"@,
            Frequency::Weekly => "weekly"@,
            Frequency::Monthly => "monthly"@,
        }
    }

    pub fn as_str(&self) -> (name: &'static str)
        ensures
            name@ == self.text(),
    {
        match self {
            Frequency::Daily => "daily",
            Frequency::Weekly => "weekly",
            Frequency::Monthly => "monthly",
        }
    }

    /// The frequency that `name` names, if it names one.
    pub open spec fn from_text(name: Seq<char>) -> Option<Frequency> {
        if name == "daily"@ {
            Some(Frequency::Daily)
        } else if name == "weekly"@ {
            Some(Frequency::Weekly)
        } else if name == "monthly"@ {
            Some(Frequency::Monthly)
        } else {
            None
        }
    }

    /// Reads a frequency by its name; any other text is no frequency.
    pub fn parse(name: &str) -> (parsed: Option<Frequency>)
        ensures
            parsed == Frequency::from_text(name@),
    {
        if str_eq(name, "daily") {
            Some(Frequency::Daily)
        } else if str_eq(name, "weekly") {
            Some(Frequency::Weekly)
        } else if str_eq(name, "monthly") {
            Some(Frequency::Monthly)
        } else {
            None
        }
    }

    /// A frequency is read back from its own name, and from no other.
    pub proof fn lemma_text_round_trip(a: Frequency, name: Seq<char>)
        ensures
            Frequency::from_text(a.text()) == Some(a),
            Frequency::from_text(name) == Some(a) ==> name == a.text(),
    {
        reveal_strlit("daily");
        reveal_strlit("weekly");
        reveal_strlit("monthly");
        assert("daily"@.len() == 5);
        assert("weekly"@.len() == 6);
        assert("monthly"@.len() == 7);
    }
}

/// A recurrence rule, as it is kept.
#[derive(Debug, PartialEq, Eq)]
pub struct BackupSchedule {
    pub id: i32,
    pub name: String,
    pub frequency: Frequency,
    pub schedule_time: TimeOfDay,
    /// Day of the week for a weekly schedule, Sunday = 0 to Saturday = 6.
    pub schedule_day: Option<i32>,
    /// Day of the month for a monthly schedule, 1 to 31.
    pub schedule_date: Option<i32>,
    pub retention_count: i32,
    pub enabled: bool,
    pub last_run_at: Option<Timestamp>,
    pub next_run_at: Option<Timestamp>,
    pub last_backup_id: Option<i32>,
    pub created_by_id: i32,
    pub created_at: Timestamp,
    pub updated_at: Timestamp,
}

impl Clone for BackupSchedule {
    fn clone(&self) -> (copy: Self)
        ensures
            copy == *self,
    {
        BackupSchedule {
            id: self.id,
            name: self.name.clone(),
            frequency: self.frequency,
            schedule_time: self.schedule_time,
            schedule_day: self.schedule_day,
            schedule_date: self.schedule_date,
            retention_count: self.retention_count,
            enabled: self.enabled,
            last_run_at: self.last_run_at,
            next_run_at: self.next_run_at,
            last_backup_id: self.last_backup_id,
            created_by_id: self.created_by_id,
            created_at: self.created_at,
            updated_at: self.updated_at,
        }
    }
}

/// Days from a day whose weekday is `today` to the next day whose weekday is
/// `target`; a target that is today counts as today unless the time of day
/// has passed, and then as a week from today.
pub open spec fn weekly_gap(today: int, target: int, time_passed: bool) -> int {
    if target > today {
        target - today
    } else if target < today {
        7 - (today - target)
    } else if time_passed {
        7
    } else {
        0
    }
}

/// The month after `month` of `year`, as (year, month).
pub open spec fn following_month(year: int, month: int) -> (int, int) {
    if month == 12 {
        (year + 1, 1)
    } else {
        (year, month + 1)
    }
}

impl BackupSchedule {
    /// The time of day is a real time, and the day of the week and the day
    /// of the month, where given, are in range.
    pub open spec fn wf(&self) -> bool {
        &&& self.schedule_time.wf()
        &&& (self.frequency == Frequency::Weekly && self.schedule_day is Some) ==> 0
            <= self.schedule_day->0 <= 6
        &&& (self.frequency == Frequency::Monthly && self.schedule_date is Some) ==> 1
            <= self.schedule_date->0 <= 31
    }

    /// Whether the schedule is well formed.
    pub fn is_valid(&self) -> (valid: bool)
        ensures
            valid == self.wf(),
    {
        let day = match (self.frequency, self.schedule_day) {
            (Frequency::Weekly, Some(d)) => 0 <= d && d <= 6,
            _ => true,
        };
        let date = match (self.frequency, self.schedule_date) {
            (Frequency::Monthly, Some(n)) => 1 <= n && n <= 31,
            _ => true,
        };
        self.schedule_time.is_valid() && day && date
    }

    /// Whether `next` is when the schedule runs next, seen from `now`: on
    /// the day that `next_run_day` names, at the schedule's time of day; and
    /// nothing where `next_run_day` names no day, or one beyond the last
    /// representable date.
    pub open spec fn is_next_run(&self, now: Timestamp, next: Option<Timestamp>) -> bool {
        &&& next is Some <==> (self.next_run_day(now) matches Some(day) && min_day_number() <= day
            <= max_day_number())
        &&& next matches Some(t) ==> t.wf() && t.time == self.schedule_time && Some(
            t.date.day_number(),
        ) == self.next_run_day(now)
    }

    /// Whether the schedule's time of day lies strictly before `now`'s.
    pub open spec fn time_passed(&self, now: Timestamp) -> bool {
        now.time.nanos_of_day() > self.schedule_time.nanos_of_day()
    }

    /// The year and month in which a monthly schedule on `target` runs
    /// next: this month while the day is still to come, else the following one.
    pub open spec fn resolved_month(&self, now: Timestamp, target: int) -> (int, int) {
        if target > now.date.day || (target == now.date.day && !self.time_passed(now)) {
            (now.date.year as int, now.date.month as int)
        } else {
            following_month(now.date.year as int, now.date.month as int)
        }
    }

    /// Day number of the next run, where there is one: nothing for a
    /// disabled schedule, and for a weekly or monthly one that lacks its day.
    pub open spec fn next_run_day(&self, now: Timestamp) -> Option<int> {
        if !self.enabled {
            None
        } else {
            match self.frequency {
                Frequency::Daily => Some(
                    now.date.day_number() + if self.time_passed(now) {
                        1int
                    } else {
                        0int
                    },
                ),
                Frequency::Weekly => match self.schedule_day {
                    Some(target) => Some(
                        now.date.day_number() + weekly_gap(
                            now.date.weekday(),
                            target as int,
                            self.time_passed(now),
                        ),
                    ),
                    None => None,
                },
                Frequency::Monthly => match self.schedule_date {
                    Some(target) => {
                        let (year, month) = self.resolved_month(now, target as int);
                        if valid_date(year, month, target as int) {
                            Some(day_number(year, month, target as int))
                        } else {
                            Some(now.date.day_number() + 30)
                        }
                    },
                    None => None,
                },
            }
        }
    }

    /// When the schedule runs next, seen from `now`.
    pub fn calculate_next_run(&self, now: &Timestamp) -> (next: Option<Timestamp>)
        requires
            self.wf(),
            now.wf(),
        ensures
            self.is_next_run(*now, next),
    {
        if !self.enabled {
            return None;
        }
        let today = now.date;
        let passed = now.time.is_after(&self.schedule_time);
        let run_date: Option<CalendarDate> = match self.frequency {
            Frequency::Daily => {
                if passed {
                    add_days(&today, 1)
                } else {
                    proof {
                        lemma_valid_date_in_range(today);
                    }
                    Some(today)
                }
            },
            Frequency::Weekly => {
                match self.schedule_day {
                    Some(target) => {
                        let weekday: i32 = weekday_from_sunday(&today) as i32;
                        let gap: i32 = if target > weekday {
                            target - weekday
                        } else if target < weekday {
                            7 - (weekday - target)
                        } else if passed {
                            7
                        } else {
                            0
                        };
                        add_days(&today, gap)
                    },
                    None => {
                        return None;
                    },
                }
            },
            Frequency::Monthly => {
                match self.schedule_date {
                    Some(target) => {
                        let day: u32 = target as u32;
                        let this_month = day > today.day || (day == today.day && !passed);
                        let candidate = if this_month {
                            CalendarDate::new(today.year, today.month, day)
                        } else if today.month == 12 {
                            CalendarDate::new(today.year + 1, 1, day)
                        } else {
                            CalendarDate::new(today.year, today.month + 1, day)
                        };
                        match candidate {
                            Some(date) => {
                                proof {
                                    lemma_valid_date_in_range(date);
                                }
                                Some(date)
                            },
                            None => add_days(&today, 30),
                        }
                    },
                    None => {
                        return None;
                    },
                }
            },
        };
        match run_date {
            Some(date) => Some(Timestamp { date, time: self.schedule_time }),
            None => None,
        }
    }

    /// Whether the next run has come: there is one, and `now` is not before it.
    pub fn is_due(&self, now: &Timestamp) -> (due: bool)
        ensures
            due == (self.next_run_at matches Some(t) && !now.precedes(&t)),
    {
        match &self.next_run_at {
            Some(next_run) => !now.is_before(next_run),
            None => false,
        }
    }
}

/// A daily schedule runs today while its time of day is still ahead, and
/// tomorrow once that time has passed; either way at its time of day.
pub proof fn lemma_daily_next_run(schedule: BackupSchedule, now: Timestamp, next: Timestamp)
    requires
        now.wf(),
        schedule.enabled,
        schedule.frequency == Frequency::Daily,
        schedule.is_next_run(now, Some(next)),
    ensures
        next.time == schedule.schedule_time,
        now.time.nanos_of_day() < schedule.schedule_time.nanos_of_day() ==> next.date == now.date,
        now.time.nanos_of_day() > schedule.schedule_time.nanos_of_day()
            ==> next.date.day_number() == now.date.day_number() + 1,
{
    if now.time.nanos_of_day() < schedule.schedule_time.nanos_of_day() {
        lemma_day_number_injective(next.date, now.date);
    }
}

/// A weekly schedule runs on a day of its weekday, today at the earliest
/// and a week from today at the latest.
pub proof fn lemma_weekly_next_run(
    schedule: BackupSchedule,
    now: Timestamp,
    target: i32,
    next: Timestamp,
)
    requires
        schedule.enabled,
        schedule.frequency == Frequency::Weekly,
        schedule.schedule_day == Some(target),
        0 <= target <= 6,
        schedule.is_next_run(now, Some(next)),
    ensures
        next.date.weekday() == target,
        0 <= next.date.day_number() - now.date.day_number() <= 7,
        next.time == schedule.schedule_time,
{
}

/// A monthly schedule whose day of the month does not exist in the month
/// it would run in runs thirty days from today instead.
pub proof fn lemma_monthly_fallback(
    schedule: BackupSchedule,
    now: Timestamp,
    target: i32,
    next: Option<Timestamp>,
)
    requires
        now.wf(),
        schedule.enabled,
        schedule.frequency == Frequency::Monthly,
        schedule.schedule_date == Some(target),
        1 <= target <= 31,
        !valid_date(
            schedule.resolved_month(now, target as int).0,
            schedule.resolved_month(now, target as int).1,
            target as int,
        ),
        schedule.is_next_run(now, next),
    ensures
        schedule.next_run_day(now) == Some(now.date.day_number() + 30),
        next matches Some(t) ==> t.date.day_number() == now.date.day_number() + 30 && t.time
            == schedule.schedule_time,
        next is None ==> now.date.day_number() + 30 > max_day_number(),
{
    lemma_valid_date_in_range(now.date);
}

/// A monthly schedule whose day of the month exists in the month it would
/// run in runs on that day of that month.
pub proof fn lemma_monthly_on_day(
    schedule: BackupSchedule,
    now: Timestamp,
    target: i32,
    next: Option<Timestamp>,
)
    requires
        schedule.enabled,
        schedule.frequency == Frequency::Monthly,
        schedule.schedule_date == Some(target),
        1 <= target <= 31,
        valid_date(
            schedule.resolved_month(now, target as int).0,
            schedule.resolved_month(now, target as int).1,
            target as int,
        ),
        schedule.is_next_run(now, next),
    ensures
        next matches Some(t) && t.date.year == schedule.resolved_month(now, target as int).0
            && t.date.month == schedule.resolved_month(now, target as int).1 && t.date.day == target
            && t.time == schedule.schedule_time,
{
    let (year, month) = schedule.resolved_month(now, target as int);
    let expected = CalendarDate { year: year as i32, month: month as u32, day: target as u32 };
    lemma_valid_date_in_range(expected);
    lemma_day_number_injective(next->0.date, expected);
}

/// Why a request about a schedule was turned down.
#[derive(Clone, Debug, PartialEq, Eq)]
pub enum ScheduleError {
    /// Frequency and days do not go together; the text says how.
    Validation(String),
    /// The time of day could not be read; the text says so.
    TimeFormat(String),
    /// No schedule has the requested id.
    NotFound,
    /// No further schedule can be numbered.
    CatalogFull,
}

impl ScheduleError {
    pub open spec fn text(self) -> Seq<char> {
        match self {
            ScheduleError::Validation(reason) => "Schedule validation failed: "@ + reason@,
            ScheduleError::TimeFormat(reason) => "Failed to parse schedule time: "@ + reason@,
            ScheduleError::NotFound => "Schedule not found"@,
            ScheduleError::CatalogFull => "Schedule catalog is full"@,
        }
    }

    /// What the caller is told.
    pub fn message(&self) -> (text: String)
        ensures
            text@ == self.text(),
    {
        match self {
            ScheduleError::Validation(reason) => "Schedule validation failed: ".to_string().concat(
                reason.as_str(),
            ),
            ScheduleError::TimeFormat(reason) => "Failed to parse schedule time: ".to_string()
                .concat(reason.as_str()),
            ScheduleError::NotFound => "Schedule not found".to_string(),
            ScheduleError::CatalogFull => "Schedule catalog is full".to_string(),
        }
    }
}

/// What is asked for when a schedule is created.
#[derive(Clone, Debug)]
pub struct CreateScheduleRequest {
    pub name: String,
    pub frequency: String,
    /// Time of day as hours and minutes, `HH:MM`.
    pub schedule_time: String,
    pub schedule_day: Option<i32>,
    pub schedule_date: Option<i32>,
    pub retention_count: Option<i32>,
    pub enabled: Option<bool>,
}

/// What is asked for when a schedule is changed.
#[derive(Clone, Debug)]
pub struct UpdateScheduleRequest {
    pub schedule_id: i32,
    pub name: Option<String>,
    pub frequency: Option<String>,
    pub schedule_time: Option<String>,
    pub schedule_day: Option<i32>,
    pub schedule_date: Option<i32>,
    pub retention_count: Option<i32>,
    pub enabled: Option<bool>,
}

/// Pattern of a schedule's time of day: hours and minutes.
pub const SCHEDULE_TIME_PATTERN: &'static str = "%H:%M";

/// What a schedule's time of day reads as: the time that the text holds
/// under `SCHEDULE_TIME_PATTERN`, unless it stands for a leap second.
pub open spec fn schedule_time_of(text: Seq<char>) -> Option<TimeOfDay> {
    match parsed_time(text, SCHEDULE_TIME_PATTERN@) {
        Some(t) => if t.nanos < NANOS_PER_SECOND {
            Some(t)
        } else {
            None
        },
        None => None,
    }
}

/// What a parsed time of day is worth as a schedule's: itself, or the
/// complaint about the format where there is none or it stands for a leap second.
pub fn checked_schedule_time(parsed: Option<TimeOfDay>) -> (time: Result<TimeOfDay, String>)
    ensures
        match parsed {
            Some(t) => if t.nanos < NANOS_PER_SECOND {
                time == Ok::<TimeOfDay, String>(t)
            } else {
                time matches Err(e) && e@ == "Invalid time format. Use HH:MM format."@
            },
            None => time matches Err(e) && e@ == "Invalid time format. Use HH:MM format."@,
        },
{
    match parsed {
        Some(t) => {
            if t.nanos < NANOS_PER_SECOND {
                Ok(t)
            } else {
                Err("Invalid time format. Use HH:MM format.".to_string())
            }
        },
        None => Err("Invalid time format. Use HH:MM format.".to_string()),
    }
}

impl CreateScheduleRequest {
    /// What is wrong with the request's frequency and days, if anything.
    pub open spec fn constraint_violation(&self) -> Option<Seq<char>> {
        match Frequency::from_text(self.frequency@) {
            Some(Frequency::Weekly) => match self.schedule_day {
                None => Some("schedule_day is required for weekly frequency"@),
                Some(day) => if 0 <= day <= 6 {
                    None
                } else {
                    Some("schedule_day must be between 0 (Sunday) and 6 (Saturday)"@)
                },
            },
            Some(Frequency::Monthly) => match self.schedule_date {
                None => Some("schedule_date is required for monthly frequency"@),
                Some(date) => if 1 <= date <= 31 {
                    None
                } else {
                    Some("schedule_date must be between 1 and 31"@)
                },
            },
            Some(Frequency::Daily) => None,
            None => Some("Invalid frequency. Must be daily, weekly, or monthly"@),
        }
    }

    /// How many backups to keep; seven unless the request says otherwise.
    pub fn get_retention_count(&self) -> (count: i32)
        ensures
            count == match self.retention_count {
                Some(c) => c,
                None => 7,
            },
    {
        match self.retention_count {
            Some(c) => c,
            None => 7,
        }
    }

    /// Whether the schedule starts enabled; yes unless the request says no.
    pub fn get_enabled(&self) -> (enabled: bool)
        ensures
            enabled == match self.enabled {
                Some(e) => e,
                None => true,
            },
    {
        match self.enabled {
            Some(e) => e,
            None => true,
        }
    }

    /// Reads the requested time of day.
    pub fn parse_schedule_time(&self) -> (time: Result<TimeOfDay, String>)
        ensures
            match schedule_time_of(self.schedule_time@) {
                Some(t) => time == Ok::<TimeOfDay, String>(t) && t.wf(),
                None => time matches Err(e) && e@ == "Invalid time format. Use HH:MM format."@,
            },
    {
        checked_schedule_time(parse_time(self.schedule_time.as_str(), SCHEDULE_TIME_PATTERN))
    }

    /// The frequency that the request names, provided that it is one of
    /// daily, weekly and monthly and that a weekly request names a day of
    /// the week, a monthly one a day of the month, each in range;
    /// otherwise what is wrong.
    pub fn checked_frequency(&self) -> (verdict: Result<Frequency, String>)
        ensures
            verdict is Ok <==> self.constraint_violation() is None,
            verdict matches Ok(f) ==> Some(f) == Frequency::from_text(self.frequency@),
            verdict matches Err(e) ==> Some(e@) == self.constraint_violation(),
    {
        match Frequency::parse(self.frequency.as_str()) {
            Some(Frequency::Weekly) => {
                match self.schedule_day {
                    None => Err("schedule_day is required for weekly frequency".to_string()),
                    Some(day) => {
                        if day < 0 || day > 6 {
                            Err(
                                "schedule_day must be between 0 (Sunday) and 6 (Saturday)".to_string(),
                            )
                        } else {
                            Ok(Frequency::Weekly)
                        }
                    },
                }
            },
            Some(Frequency::Monthly) => {
                match self.schedule_date {
                    None => Err("schedule_date is required for monthly frequency".to_string()),
                    Some(date) => {
                        if date < 1 || date > 31 {
                            Err("schedule_date must be between 1 and 31".to_string())
                        } else {
                            Ok(Frequency::Monthly)
                        }
                    },
                }
            },
            Some(Frequency::Daily) => Ok(Frequency::Daily),
            None => Err("Invalid frequency. Must be daily, weekly, or monthly".to_string()),
        }
    }

    /// Checks that the frequency is one of daily, weekly and monthly and
    /// that a weekly request names a day of the week, a monthly one a day of
    /// the month, each in range.
    pub fn validate_schedule_constraints(&self) -> (verdict: Result<(), String>)
        ensures
            verdict is Ok <==> self.constraint_violation() is None,
            verdict matches Err(e) ==> Some(e@) == self.constraint_violation(),
    {
        match self.checked_frequency() {
            Ok(_) => Ok(()),
            Err(reason) => Err(reason),
        }
    }
}

} // verus!
