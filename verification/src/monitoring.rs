//! Records of system monitoring.

use crate::calendar::{format_timestamp, formatted_timestamp, Timestamp};
use crate::text::{decimal, decimal_text, join, joined};
use vstd::prelude::*;

verus! {

/// Traffic counters of the network.
#[derive(Clone, Copy, Debug, PartialEq, Eq, Structural)]
pub struct NetworkMetrics {
    pub bytes_sent: u64,
    pub bytes_recv: u64,
    pub packets_sent: u64,
    pub packets_recv: u64,
}

/// How a service fares.
#[derive(Clone, Copy, Debug, PartialEq, Eq, Structural)]
pub enum Health {
    Healthy,
    Warning,
    Critical,
}

impl Health {
    pub open spec fn text(self) -> Seq<char> {
        match self {
            Health::Healthy => "healthy"@,
            Health::Warning => "warning"@,
            Health::Critical => "critical"@,
        }
    }

    pub fn as_str(&self) -> (name: &'static str)
        ensures
            name@ == self.text(),
    {
        match self {
            Health::Healthy => "healthy",
            Health::Warning => "warning",
            Health::Critical => "critical",
        }
    }
}

/// How the database fares: healthy while it answers within a tenth of a
/// second and fewer than eight tenths of its connections are in use; of
/// the rest, a warning while it answers within a second; critical beyond.
pub open spec fn database_health_of(
    response_time_ms: u64,
    active_connections: i64,
    max_connections: i32,
) -> Health {
    if response_time_ms < 100 && active_connections < crate::calendar::truncating_div(
        max_connections as int * 8,
        10,
    ) {
        Health::Healthy
    } else if response_time_ms < 1000 {
        Health::Warning
    } else {
        Health::Critical
    }
}

/// Says how the database fares.
pub fn database_health(response_time_ms: u64, active_connections: i64, max_connections: i32) -> (health:
    Health)
    ensures
        health == database_health_of(response_time_ms, active_connections, max_connections),
{
    let limit: i64 = (max_connections as i64) * 8 / 10;
    if response_time_ms < 100 && active_connections < limit {
        Health::Healthy
    } else if response_time_ms < 1000 {
        Health::Warning
    } else {
        Health::Critical
    }
}

/// How many of a list of services fare how.
pub open spec fn count_of(services: Seq<Health>, health: Health) -> nat
    decreases services.len(),
{
    if services.len() == 0 {
        0
    } else {
        count_of(services.drop_last(), health) + if services.last() == health {
            1nat
        } else {
            0nat
        }
    }
}

/// How the services fare taken together: critical where one is critical,
/// else a warning where one gives a warning, else healthy.
pub open spec fn overall_health_of(services: Seq<Health>) -> Health {
    if count_of(services, Health::Critical) > 0 {
        Health::Critical
    } else if count_of(services, Health::Warning) > 0 {
        Health::Warning
    } else {
        Health::Healthy
    }
}

/// The services counted by how they fare, and how they fare together.
#[derive(Clone, Copy, Debug, PartialEq, Eq, Structural)]
pub struct HealthSummary {
    pub overall: Health,
    pub healthy_count: u32,
    pub warning_count: u32,
    pub critical_count: u32,
}

/// Counts the services by how they fare. A count that does not fit 32
/// bits stays at the largest that does.
pub fn summarize_health(services: &Vec<Health>) -> (summary: HealthSummary)
    ensures
        summary.overall == overall_health_of(services@),
        summary.healthy_count == saturated(count_of(services@, Health::Healthy)),
        summary.warning_count == saturated(count_of(services@, Health::Warning)),
        summary.critical_count == saturated(count_of(services@, Health::Critical)),
{
    let mut healthy: u32 = 0;
    let mut warning: u32 = 0;
    let mut critical: u32 = 0;
    let mut i: usize = 0;
    while i < services.len()
        invariant
            i <= services@.len(),
            healthy == saturated(count_of(services@.take(i as int), Health::Healthy)),
            warning == saturated(count_of(services@.take(i as int), Health::Warning)),
            critical == saturated(count_of(services@.take(i as int), Health::Critical)),
        decreases services@.len() - i,
    {
        proof {
            assert(services@.take(i + 1).drop_last() =~= services@.take(i as int));
            assert(services@.take(i + 1).last() == services@[i as int]);
        }
        match services[i] {
            Health::Healthy => {
                if healthy < u32::MAX {
                    healthy = healthy + 1;
                }
            },
            Health::Warning => {
                if warning < u32::MAX {
                    warning = warning + 1;
                }
            },
            Health::Critical => {
                if critical < u32::MAX {
                    critical = critical + 1;
                }
            },
        }
        i = i + 1;
    }
    assert(services@.take(services@.len() as int) =~= services@);
    let overall = if critical > 0 {
        Health::Critical
    } else if warning > 0 {
        Health::Warning
    } else {
        Health::Healthy
    };
    HealthSummary { overall, healthy_count: healthy, warning_count: warning, critical_count: critical }
}

/// `count`, or the largest count that fits 32 bits.
pub open spec fn saturated(count: nat) -> u32 {
    if count > u32::MAX {
        u32::MAX
    } else {
        count as u32
    }
}

/// Which lines of the system log are asked for.
#[derive(Clone, Debug, PartialEq, Eq)]
pub struct SystemLogsQuery {
    pub limit: Option<i32>,
    pub offset: Option<i32>,
    pub level: Option<String>,
    pub component: Option<String>,
    pub since: Option<Timestamp>,
    pub until: Option<Timestamp>,
}

/// Pattern of an instant as a query is handed it: date and time with a
/// `T` between, the fraction of the second as far as it is not zero, and
/// the offset of UTC.
pub const QUERY_TIME_PATTERN: &'static str = "%Y-%m-%dT%H:%M:%S%.f+00:00";

/// The instant `at` as a query is handed it, empty where it cannot be written.
pub open spec fn query_time_text(at: Timestamp) -> Seq<char> {
    match formatted_timestamp(
        at.date.year as int,
        at.date.month as int,
        at.date.day as int,
        at.time.secs as int,
        at.time.nanos as int,
        QUERY_TIME_PATTERN@,
    ) {
        Some(text) => text,
        None => Seq::empty(),
    }
}

/// The instant `at` as a query is handed it.
pub fn query_time(at: &Timestamp) -> (text: String)
    requires
        at.wf(),
    ensures
        text@ == query_time_text(*at),
{
    match format_timestamp(at, QUERY_TIME_PATTERN) {
        Some(text) => text,
        None => String::new(),
    }
}

/// The condition that holds a column against the parameter of the given number.
pub open spec fn condition_text(column_and_operator: Seq<char>, number: nat) -> Seq<char> {
    column_and_operator + " $"@ + decimal_text(number)
}

impl SystemLogsQuery {
    /// The conditions that the query puts on a line, in the order level,
    /// component, since, until, each against the parameter that its place
    /// among the conditions given gives it.
    pub open spec fn conditions(&self) -> Seq<Seq<char>> {
        let level = if self.level is Some {
            seq![condition_text("log_level ="@, 1)]
        } else {
            Seq::empty()
        };
        let component = if self.component is Some {
            level.push(condition_text("component ="@, level.len() + 1))
        } else {
            level
        };
        let since = if self.since is Some {
            component.push(condition_text("created_at >="@, component.len() + 1))
        } else {
            component
        };
        if self.until is Some {
            since.push(condition_text("created_at <="@, since.len() + 1))
        } else {
            since
        }
    }

    /// The values of the parameters, in the order of the conditions.
    pub open spec fn parameters(&self) -> Seq<Seq<char>> {
        let level = match self.level {
            Some(l) => seq![l@],
            None => Seq::empty(),
        };
        let component = match self.component {
            Some(c) => level.push(c@),
            None => level,
        };
        let since = match self.since {
            Some(t) => component.push(query_time_text(t)),
            None => component,
        };
        match self.until {
            Some(t) => since.push(query_time_text(t)),
            None => since,
        }
    }

    /// How many lines to return: fifty where none is named, and never
    /// under one nor over a thousand.
    pub fn get_limit(&self) -> (limit: i32)
        ensures
            limit == match self.limit {
                Some(l) => if l < 1 {
                    1
                } else if l > 1000 {
                    1000
                } else {
                    l
                },
                None => 50i32,
            },
    {
        match self.limit {
            Some(l) => if l < 1 {
                1
            } else if l > 1000 {
                1000
            } else {
                l
            },
            None => 50,
        }
    }

    /// How many lines to skip: none where none is named, and never fewer.
    pub fn get_offset(&self) -> (offset: i32)
        ensures
            offset == match self.offset {
                Some(o) => if o < 0 {
                    0
                } else {
                    o
                },
                None => 0i32,
            },
    {
        match self.offset {
            Some(o) => if o < 0 {
                0
            } else {
                o
            },
            None => 0,
        }
    }

    /// The `WHERE` clause of the query and the values of its parameters:
    /// the conditions joined by `AND`, or no clause where there is no condition.
    pub fn build_where_clause(&self) -> (built: (String, Vec<String>))
        requires
            self.since matches Some(t) ==> t.wf(),
            self.until matches Some(t) ==> t.wf(),
        ensures
            built.0@ == if self.conditions().len() == 0 {
                Seq::<char>::empty()
            } else {
                "WHERE "@ + joined_texts(self.conditions(), " AND "@)
            },
            built.1@.map_values(|s: String| s@) == self.parameters(),
    {
        let mut conditions: Vec<String> = Vec::new();
        let mut params: Vec<String> = Vec::new();
        let mut param_count: u16 = 1;
        match &self.level {
            Some(level) => {
                conditions.push("log_level =".to_string().concat(" $").concat(decimal(param_count).as_str()));
                params.push(level.clone());
                param_count = param_count + 1;
            },
            None => {},
        }
        match &self.component {
            Some(component) => {
                conditions.push("component =".to_string().concat(" $").concat(decimal(param_count).as_str()));
                params.push(component.clone());
                param_count = param_count + 1;
            },
            None => {},
        }
        match &self.since {
            Some(since) => {
                conditions.push("created_at >=".to_string().concat(" $").concat(decimal(param_count).as_str()));
                params.push(query_time(since));
                param_count = param_count + 1;
            },
            None => {},
        }
        match &self.until {
            Some(until) => {
                conditions.push("created_at <=".to_string().concat(" $").concat(decimal(param_count).as_str()));
                params.push(query_time(until));
            },
            None => {},
        }
        assert(conditions@.map_values(|s: String| s@) =~= self.conditions());
        assert(params@.map_values(|s: String| s@) =~= self.parameters());
        let clause = if conditions.len() == 0 {
            String::new()
        } else {
            proof {
                lemma_joined_texts(conditions@, " AND "@);
            }
            "WHERE ".to_string().concat(join(&conditions, " AND ").as_str())
        };
        (clause, params)
    }
}

/// The texts of `parts` in a row, with `separator` between each two.
pub open spec fn joined_texts(parts: Seq<Seq<char>>, separator: Seq<char>) -> Seq<char>
    decreases parts.len(),
{
    if parts.len() == 0 {
        Seq::empty()
    } else if parts.len() == 1 {
        parts[0]
    } else {
        joined_texts(parts.drop_last(), separator) + separator + parts.last()
    }
}

/// Joining strings is joining their texts.
pub proof fn lemma_joined_texts(parts: Seq<String>, separator: Seq<char>)
    ensures
        joined(parts, separator) == joined_texts(parts.map_values(|s: String| s@), separator),
    decreases parts.len(),
{
    if parts.len() > 1 {
        lemma_joined_texts(parts.drop_last(), separator);
        assert(parts.drop_last().map_values(|s: String| s@) =~= parts.map_values(
            |s: String| s@,
        ).drop_last());
    }
}

/// A request to send a test mail.
#[derive(Clone, Debug, PartialEq, Eq)]
pub struct TestEmailRequest {
    pub recipient: String,
    pub subject: Option<String>,
    pub body: Option<String>,
}

/// Pattern of the time that a test mail says it was sent at.
pub const SENT_AT_PATTERN: &'static str = "%Y-%m-%d %H:%M:%S UTC";

/// The time `at` as a test mail spells it, empty where it cannot be written.
pub open spec fn sent_at_text(at: Timestamp) -> Seq<char> {
    match formatted_timestamp(
        at.date.year as int,
        at.date.month as int,
        at.date.day as int,
        at.time.secs as int,
        at.time.nanos as int,
        SENT_AT_PATTERN@,
    ) {
        Some(text) => text,
        None => Seq::empty(),
    }
}

/// The time `at` as a test mail spells it.
pub fn sent_at(at: &Timestamp) -> (text: String)
    requires
        at.wf(),
    ensures
        text@ == sent_at_text(*at),
{
    match format_timestamp(at, SENT_AT_PATTERN) {
        Some(text) => text,
        None => String::new(),
    }
}

impl TestEmailRequest {
    /// The subject asked for, or the standard one.
    pub fn get_subject(&self) -> (subject: String)
        ensures
            subject@ == match self.subject {
                Some(s) => s@,
                None => "GeekTools Test Email"@,
            },
    {
        match &self.subject {
            Some(s) => s.clone(),
            None => "GeekTools Test Email".to_string(),
        }
    }

    /// The body asked for, or the standard one, which says when it was sent.
    pub fn get_body(&self, now: &Timestamp) -> (body: String)
        requires
            now.wf(),
        ensures
            body@ == match self.body {
                Some(b) => b@,
                None => "This is a test email sent from GeekTools Plugin Marketplace monitoring system.\n\nSent at: "@
                    + sent_at_text(*now),
            },
    {
        match &self.body {
            Some(b) => b.clone(),
            None => "This is a test email sent from GeekTools Plugin Marketplace monitoring system.\n\nSent at: ".to_string().concat(
                sent_at(now).as_str(),
            ),
        }
    }
}

} // verus!
