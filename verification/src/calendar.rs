//! Civil dates and times in UTC, as plain integers.
//!
//! A date is a day of the proleptic Gregorian calendar; its `day_number`
//! counts days so that 1 January of year 1 is day 1. Arithmetic on dates is
//! delegated to `chrono`; the contracts of those calls are stated over
//! `day_number`.

use chrono::{Datelike, Timelike};
use std::fmt::Write;
use vstd::prelude::*;

verus! {

/// Earliest year a date may lie in.
pub const MIN_YEAR: i32 = -262143;

/// Latest year a date may lie in.
pub const MAX_YEAR: i32 = 262142;

/// Seconds in a day.
pub const SECONDS_PER_DAY: u32 = 86400;

/// Nanoseconds in a second.
pub const NANOS_PER_SECOND: u32 = 1000000000;

/// Whether `year` has a 29 February: every fourth year, but of the
/// centuries only every fourth.
pub open spec fn is_leap_year(year: int) -> bool {
    year % 4 == 0 && (year % 100 != 0 || year % 400 == 0)
}

/// How many days `month` of `year` has.
pub open spec fn days_in_month(year: int, month: int) -> int {
    if month == 2 {
        if is_leap_year(year) {
            29
        } else {
            28
        }
    } else if month == 4 || month == 6 || month == 9 || month == 11 {
        30
    } else {
        31
    }
}

/// Days of `year` that lie before the first of `month`.
pub open spec fn days_before_month(year: int, month: int) -> int
    decreases month,
{
    if month <= 1 {
        0
    } else {
        days_before_month(year, month - 1) + days_in_month(year, month - 1)
    }
}

/// Days that lie before 1 January of `year`, counted from 1 January of year 1.
pub open spec fn days_before_year(year: int) -> int {
    let y = year - 1;
    365 * y + y / 4 - y / 100 + y / 400
}

/// The number of the day `year`-`month`-`day`, counted so that 1 January
/// of year 1 is day 1.
pub open spec fn day_number(year: int, month: int, day: int) -> int {
    days_before_year(year) + days_before_month(year, month) + day
}

/// Whether there is a day `year`-`month`-`day` within the representable years.
pub open spec fn valid_date(year: int, month: int, day: int) -> bool {
    &&& MIN_YEAR <= year <= MAX_YEAR
    &&& 1 <= month <= 12
    &&& 1 <= day <= days_in_month(year, month)
}

/// Day number of the first representable date.
pub open spec fn min_day_number() -> int {
    day_number(MIN_YEAR as int, 1, 1)
}

/// Day number of the last representable date.
pub open spec fn max_day_number() -> int {
    day_number(MAX_YEAR as int, 12, 31)
}

/// Division that rounds toward zero, for a positive divisor.
pub open spec fn truncating_div(a: int, b: int) -> int {
    if a >= 0 {
        a / b
    } else {
        -((-a) / b)
    }
}

/// A day of the calendar.
#[derive(Clone, Copy, Debug, PartialEq, Eq, Structural)]
pub struct CalendarDate {
    pub year: i32,
    pub month: u32,
    pub day: u32,
}

/// A time of day, to the nanosecond.
#[derive(Clone, Copy, Debug, PartialEq, Eq, Structural)]
pub struct TimeOfDay {
    /// Seconds since midnight.
    pub secs: u32,
    /// Nanoseconds within the second.
    pub nanos: u32,
}

/// An instant in UTC.
#[derive(Clone, Copy, Debug, PartialEq, Eq, Structural)]
pub struct Timestamp {
    pub date: CalendarDate,
    pub time: TimeOfDay,
}

/// A signed length of time: whole seconds and the rest in nanoseconds, both
/// with the sign of the span.
#[derive(Clone, Copy, Debug, PartialEq, Eq, Structural)]
pub struct Span {
    pub secs: i64,
    pub subsec_nanos: i32,
}

impl Span {
    pub open spec fn wf(&self) -> bool {
        &&& -(NANOS_PER_SECOND as int) < self.subsec_nanos < NANOS_PER_SECOND as int
        &&& self.secs > 0 ==> self.subsec_nanos >= 0
        &&& self.secs < 0 ==> self.subsec_nanos <= 0
    }

    pub open spec fn total_nanos(&self) -> int {
        self.secs as int * NANOS_PER_SECOND as int + self.subsec_nanos as int
    }

    /// Whole hours of the span, rounded toward zero.
    pub open spec fn hours(&self) -> int {
        truncating_div(self.secs as int, 3600)
    }

    pub fn whole_hours(&self) -> (hours: i64)
        ensures
            hours == self.hours(),
    {
        self.secs / 3600
    }
}

pub fn leap_year(year: i32) -> (leap: bool)
    ensures
        leap == is_leap_year(year as int),
{
    year % 4 == 0 && (year % 100 != 0 || year % 400 == 0)
}

pub fn month_length(year: i32, month: u32) -> (days: u32)
    ensures
        days == days_in_month(year as int, month as int),
{
    if month == 2 {
        if leap_year(year) {
            29
        } else {
            28
        }
    } else if month == 4 || month == 6 || month == 9 || month == 11 {
        30
    } else {
        31
    }
}

impl CalendarDate {
    pub open spec fn wf(&self) -> bool {
        valid_date(self.year as int, self.month as int, self.day as int)
    }

    pub open spec fn day_number(&self) -> int {
        day_number(self.year as int, self.month as int, self.day as int)
    }

    /// Day of the week, counted from Sunday = 0 to Saturday = 6.
    pub open spec fn weekday(&self) -> int {
        self.day_number() % 7
    }

    /// Strict calendar order: year, then month, then day.
    pub open spec fn precedes(&self, other: &CalendarDate) -> bool {
        self.year < other.year || (self.year == other.year && (self.month < other.month || (
        self.month == other.month && self.day < other.day)))
    }

    /// The date with the given fields, if there is such a day.
    pub fn new(year: i32, month: u32, day: u32) -> (date: Option<CalendarDate>)
        ensures
            date is Some <==> valid_date(year as int, month as int, day as int),
            date matches Some(d) ==> d.year == year && d.month == month && d.day == day,
    {
        if year < MIN_YEAR || year > MAX_YEAR || month < 1 || month > 12 || day < 1 {
            return None;
        }
        if day > month_length(year, month) {
            return None;
        }
        Some(CalendarDate { year, month, day })
    }

    /// Whether the fields name a day that exists.
    pub fn is_valid(&self) -> (valid: bool)
        ensures
            valid == self.wf(),
    {
        CalendarDate::new(self.year, self.month, self.day).is_some()
    }

    pub fn is_before(&self, other: &CalendarDate) -> (before: bool)
        ensures
            before == self.precedes(other),
    {
        self.year < other.year || (self.year == other.year && (self.month < other.month || (
        self.month == other.month && self.day < other.day)))
    }
}

impl TimeOfDay {
    pub open spec fn wf(&self) -> bool {
        self.secs < SECONDS_PER_DAY && self.nanos < NANOS_PER_SECOND
    }

    /// Nanoseconds since midnight.
    pub open spec fn nanos_of_day(&self) -> int {
        self.secs as int * NANOS_PER_SECOND as int + self.nanos as int
    }

    /// The time `hour:minute:second`, if each field is in range.
    pub fn from_hms(hour: u32, minute: u32, second: u32) -> (time: Option<TimeOfDay>)
        ensures
            time is Some <==> hour < 24 && minute < 60 && second < 60,
            time matches Some(t) ==> t.secs == hour * 3600 + minute * 60 + second && t.nanos == 0
                && t.wf(),
    {
        if hour < 24 && minute < 60 && second < 60 {
            Some(TimeOfDay { secs: hour * 3600 + minute * 60 + second, nanos: 0 })
        } else {
            None
        }
    }

    /// Whether the fields name a time of day.
    pub fn is_valid(&self) -> (valid: bool)
        ensures
            valid == self.wf(),
    {
        self.secs < SECONDS_PER_DAY && self.nanos < NANOS_PER_SECOND
    }

    /// Whether `self` is strictly later in the day than `other`.
    pub fn is_after(&self, other: &TimeOfDay) -> (after: bool)
        requires
            self.wf(),
            other.wf(),
        ensures
            after == (self.nanos_of_day() > other.nanos_of_day()),
    {
        self.secs > other.secs || (self.secs == other.secs && self.nanos > other.nanos)
    }
}

impl Timestamp {
    pub open spec fn wf(&self) -> bool {
        self.date.wf() && self.time.wf()
    }

    /// Nanoseconds since the midnight that begins day number 0.
    pub open spec fn instant(&self) -> int {
        (self.date.day_number() * SECONDS_PER_DAY as int) * NANOS_PER_SECOND as int
            + self.time.nanos_of_day()
    }

    /// Strict order of instants: by date, then by second, then by nanosecond.
    pub open spec fn precedes(&self, other: &Timestamp) -> bool {
        self.date.precedes(&other.date) || (self.date == other.date && (self.time.secs
            < other.time.secs || (self.time.secs == other.time.secs && self.time.nanos
            < other.time.nanos)))
    }

    /// Whether date and time are a real date and a real time.
    pub fn is_valid(&self) -> (valid: bool)
        ensures
            valid == self.wf(),
    {
        self.date.is_valid() && self.time.is_valid()
    }

    pub fn is_before(&self, other: &Timestamp) -> (before: bool)
        ensures
            before == self.precedes(other),
    {
        self.date.is_before(&other.date) || (self.date == other.date && (self.time.secs
            < other.time.secs || (self.time.secs == other.time.secs && self.time.nanos
            < other.time.nanos)))
    }
}

/// What `chrono` reads out of `text` under the strftime-style `pattern`: a
/// time of day, or nothing where the text does not fit the pattern.
pub uninterp spec fn parsed_time(text: Seq<char>, pattern: Seq<char>) -> Option<TimeOfDay>;

/// What `chrono` writes for the instant with the given fields under the
/// strftime-style `pattern`, or nothing where the pattern cannot be written.
pub uninterp spec fn formatted_timestamp(
    year: int,
    month: int,
    day: int,
    secs: int,
    nanos: int,
    pattern: Seq<char>,
) -> Option<Seq<char>>;

/// Day of the week of `date`, Sunday = 0.
///
/// Trusted: `chrono::NaiveDate::weekday` and `Weekday::num_days_from_sunday`.
/// The proleptic Gregorian calendar puts 1 January of year 1 on a Monday, so
/// the weekday counted from Sunday is the day number modulo 7.
#[verifier::external_body]
pub(crate) fn weekday_from_sunday(date: &CalendarDate) -> (weekday: u32)
    requires
        date.wf(),
    ensures
        weekday == date.weekday(),
{
    chrono::NaiveDate::from_ymd_opt(date.year, date.month, date.day)
        .unwrap()
        .weekday()
        .num_days_from_sunday()
}

/// The date `days` days after `date` (before it, for a negative count).
///
/// Trusted: `chrono::NaiveDate::checked_add_signed`, which moves the date by
/// the whole days of the duration and yields nothing where the result would
/// leave the representable years.
#[verifier::external_body]
pub(crate) fn add_days(date: &CalendarDate, days: i32) -> (shifted: Option<CalendarDate>)
    requires
        date.wf(),
    ensures
        shifted is Some <==> min_day_number() <= date.day_number() + days <= max_day_number(),
        shifted matches Some(d) ==> d.wf() && d.day_number() == date.day_number() + days,
{
    let start = chrono::NaiveDate::from_ymd_opt(date.year, date.month, date.day).unwrap();
    match start.checked_add_signed(chrono::TimeDelta::days(days as i64)) {
        Some(d) => Some(CalendarDate { year: d.year(), month: d.month(), day: d.day() }),
        None => None,
    }
}

/// The instant `minutes` minutes after `start`.
///
/// Trusted: `chrono::NaiveDateTime::checked_add_signed`, which adds the
/// duration exactly and yields nothing where the resulting date would leave
/// the representable years.
#[verifier::external_body]
pub(crate) fn add_minutes(start: &Timestamp, minutes: u32) -> (moved: Option<Timestamp>)
    requires
        start.wf(),
    ensures
        moved matches Some(t) ==> t.wf() && t.instant() == start.instant() + minutes
            * 60 * NANOS_PER_SECOND as int,
        moved is Some <==> (start.instant() + minutes * 60 * NANOS_PER_SECOND as int) / (
        SECONDS_PER_DAY as int * NANOS_PER_SECOND as int) <= max_day_number(),
{
    let date = chrono::NaiveDate::from_ymd_opt(start.date.year, start.date.month, start.date.day);
    let time =
        chrono::NaiveTime::from_num_seconds_from_midnight_opt(start.time.secs, start.time.nanos);
    let from = date.unwrap().and_time(time.unwrap());
    let to = from.checked_add_signed(chrono::TimeDelta::minutes(minutes as i64))?;
    Some(Timestamp {
        date: CalendarDate { year: to.year(), month: to.month(), day: to.day() },
        time: TimeOfDay { secs: to.num_seconds_from_midnight(), nanos: to.nanosecond() },
    })
}

/// The exact span from `earlier` to `later`.
///
/// Trusted: `chrono::NaiveDateTime::signed_duration_since`, which gives the
/// exact difference of the two instants, read out with
/// `TimeDelta::num_seconds` (whole seconds, toward zero) and
/// `TimeDelta::subsec_nanos` (the rest, with the sign of the span).
#[verifier::external_body]
pub(crate) fn span_between(later: &Timestamp, earlier: &Timestamp) -> (span: Span)
    requires
        later.wf(),
        earlier.wf(),
    ensures
        span.wf(),
        span.total_nanos() == later.instant() - earlier.instant(),
{
    let (a, b) = (&later.date, &earlier.date);
    let (s, t) = (&later.time, &earlier.time);
    let day_a = chrono::NaiveDate::from_ymd_opt(a.year, a.month, a.day).unwrap();
    let day_b = chrono::NaiveDate::from_ymd_opt(b.year, b.month, b.day).unwrap();
    let time_a = chrono::NaiveTime::from_num_seconds_from_midnight_opt(s.secs, s.nanos).unwrap();
    let time_b = chrono::NaiveTime::from_num_seconds_from_midnight_opt(t.secs, t.nanos).unwrap();
    let delta = day_a.and_time(time_a).signed_duration_since(day_b.and_time(time_b));
    Span { secs: delta.num_seconds(), subsec_nanos: delta.subsec_nanos() }
}

/// Reads a time of day out of `text` under a strftime-style `pattern`.
///
/// Trusted: `chrono::NaiveTime::parse_from_str`. A `NaiveTime` lies within
/// one day; its nanosecond field may reach into a second thousand million
/// only to stand for a leap second.
#[verifier::external_body]
pub(crate) fn parse_time(text: &str, pattern: &str) -> (time: Option<TimeOfDay>)
    ensures
        time == parsed_time(text@, pattern@),
        time matches Some(t) ==> t.secs < SECONDS_PER_DAY && t.nanos < 2 * NANOS_PER_SECOND,
{
    match chrono::NaiveTime::parse_from_str(text, pattern) {
        Ok(t) => Some(TimeOfDay { secs: t.num_seconds_from_midnight(), nanos: t.nanosecond() }),
        Err(_) => None,
    }
}

/// Writes `at` under a strftime-style `pattern`.
///
/// Trusted: `chrono::NaiveDateTime::format` and the `Display` of what it
/// returns, which fails on a pattern it cannot interpret.
#[verifier::external_body]
pub(crate) fn format_timestamp(at: &Timestamp, pattern: &str) -> (text: Option<String>)
    requires
        at.wf(),
    ensures
        text.is_some() == formatted_timestamp(
            at.date.year as int,
            at.date.month as int,
            at.date.day as int,
            at.time.secs as int,
            at.time.nanos as int,
            pattern@,
        ).is_some(),
        text matches Some(s) ==> Some(s@) == formatted_timestamp(
            at.date.year as int,
            at.date.month as int,
            at.date.day as int,
            at.time.secs as int,
            at.time.nanos as int,
            pattern@,
        ),
{
    let date = chrono::NaiveDate::from_ymd_opt(at.date.year, at.date.month, at.date.day);
    let time = chrono::NaiveTime::from_num_seconds_from_midnight_opt(at.time.secs, at.time.nanos);
    let moment = date.unwrap().and_time(time.unwrap());
    let mut out = String::new();
    match write!(out, "{}", moment.format(pattern)) {
        Ok(()) => Some(out),
        Err(_) => None,
    }
}

/// Pattern of the stamp that names backups and their files: date and time
/// to the second, digits only but for one underscore.
pub const STAMP_PATTERN: &'static str = "%Y%m%d_%H%M%S";

/// The stamp of `at` as `formatted_timestamp` gives it, empty where it gives none.
pub open spec fn stamp_text(at: Timestamp) -> Seq<char> {
    match formatted_timestamp(
        at.date.year as int,
        at.date.month as int,
        at.date.day as int,
        at.time.secs as int,
        at.time.nanos as int,
        STAMP_PATTERN@,
    ) {
        Some(text) => text,
        None => Seq::empty(),
    }
}

/// The stamp of `at` under `STAMP_PATTERN`.
pub fn compact_stamp(at: &Timestamp) -> (stamp: String)
    requires
        at.wf(),
    ensures
        stamp@ == stamp_text(*at),
{
    match format_timestamp(at, STAMP_PATTERN) {
        Some(text) => text,
        None => String::new(),
    }
}

/// One year further on, the count of days before the year grows by the
/// length of the year.
pub proof fn lemma_days_before_year_step(year: int)
    ensures
        days_before_year(year + 1) == days_before_year(year) + 365 + if is_leap_year(year) {
            1int
        } else {
            0int
        },
{
}

/// Later years begin on later days, at least 365 days apart per year.
pub proof fn lemma_days_before_year_monotone(a: int, b: int)
    requires
        a <= b,
    ensures
        days_before_year(a) + 365 * (b - a) <= days_before_year(b),
    decreases b - a,
{
    if a < b {
        lemma_days_before_year_monotone(a, b - 1);
        lemma_days_before_year_step(b - 1);
    }
}

/// Within a year, the days before a month and the month itself stay inside the year.
pub proof fn lemma_days_before_month_bounds(year: int, month: int)
    requires
        1 <= month <= 12,
    ensures
        0 <= days_before_month(year, month),
        days_before_month(year, month) + days_in_month(year, month) <= 365 + if is_leap_year(
            year,
        ) {
            1int
        } else {
            0int
        },
{
    reveal_with_fuel(days_before_month, 13);
}

/// Within a year, later months begin after earlier months end.
pub proof fn lemma_days_before_month_monotone(year: int, a: int, b: int)
    requires
        1 <= a < b <= 12,
    ensures
        days_before_month(year, a) + days_in_month(year, a) <= days_before_month(year, b),
    decreases b - a,
{
    if a + 1 < b {
        lemma_days_before_month_monotone(year, a, b - 1);
    }
}

/// The calendar order of valid dates is the order of their day numbers.
pub proof fn lemma_day_number_monotone(a: CalendarDate, b: CalendarDate)
    requires
        a.wf(),
        b.wf(),
        a.precedes(&b),
    ensures
        a.day_number() < b.day_number(),
{
    lemma_days_before_month_bounds(a.year as int, a.month as int);
    lemma_days_before_month_bounds(b.year as int, b.month as int);
    if a.year < b.year {
        lemma_days_before_year_step(a.year as int);
        lemma_days_before_year_monotone(a.year as int + 1, b.year as int);
    } else if a.month < b.month {
        lemma_days_before_month_monotone(a.year as int, a.month as int, b.month as int);
    }
}

/// Every valid date lies between the first and the last representable day.
pub proof fn lemma_valid_date_in_range(date: CalendarDate)
    requires
        date.wf(),
    ensures
        min_day_number() <= date.day_number() <= max_day_number(),
{
    let first = CalendarDate { year: MIN_YEAR, month: 1, day: 1 };
    let last = CalendarDate { year: MAX_YEAR, month: 12, day: 31 };
    if first.precedes(&date) {
        lemma_day_number_monotone(first, date);
    }
    if date.precedes(&last) {
        lemma_day_number_monotone(date, last);
    }
}

/// Two valid dates with the same day number are the same date.
pub proof fn lemma_day_number_injective(a: CalendarDate, b: CalendarDate)
    requires
        a.wf(),
        b.wf(),
        a.day_number() == b.day_number(),
    ensures
        a == b,
{
    if a.precedes(&b) {
        lemma_day_number_monotone(a, b);
    } else if b.precedes(&a) {
        lemma_day_number_monotone(b, a);
    }
}

/// The order of well-formed timestamps by date and time is the order of
/// their instants.
pub proof fn lemma_instant_order(a: Timestamp, b: Timestamp)
    requires
        a.wf(),
        b.wf(),
    ensures
        a.precedes(&b) <==> a.instant() < b.instant(),
        a == b <==> a.instant() == b.instant(),
{
    if a.date.precedes(&b.date) {
        lemma_day_number_monotone(a.date, b.date);
    } else if b.date.precedes(&a.date) {
        lemma_day_number_monotone(b.date, a.date);
    }
}

} // verus!
