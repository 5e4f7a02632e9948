//! Figures over the catalog: how many backups have completed, how much they
//! hold, and how fresh the newest of them is.

use crate::backup::{BackupMetadata, BackupStatsResponse, BackupStatus};
use crate::calendar::{span_between, Timestamp};
use crate::schedule::BackupSchedule;
use vstd::prelude::*;

verus! {

/// Storage that backups may take up in all: ten gibibytes.
pub const STORAGE_TOTAL: i64 = 10737418240;

/// How many backups to keep where no schedule says.
pub const DEFAULT_RETENTION: i32 = 30;

/// The size that `row` counts with: its file's, if it has completed and
/// has one.
pub open spec fn counted_size(row: BackupMetadata) -> Option<int> {
    if row.status == BackupStatus::Completed {
        match row.file_size {
            Some(size) => Some(size as int),
            None => None,
        }
    } else {
        None
    }
}

/// How many backups of `rows` have completed.
pub open spec fn completed_count(rows: Seq<BackupMetadata>) -> int
    decreases rows.len(),
{
    if rows.len() == 0 {
        0
    } else {
        completed_count(rows.drop_last()) + if rows.last().status == BackupStatus::Completed {
            1int
        } else {
            0int
        }
    }
}

/// How many backups of `rows` count with a size.
pub open spec fn sized_count(rows: Seq<BackupMetadata>) -> int
    decreases rows.len(),
{
    if rows.len() == 0 {
        0
    } else {
        sized_count(rows.drop_last()) + if counted_size(rows.last()) is Some {
            1int
        } else {
            0int
        }
    }
}

/// The sizes of the completed backups of `rows`, added up.
pub open spec fn total_size(rows: Seq<BackupMetadata>) -> int
    decreases rows.len(),
{
    if rows.len() == 0 {
        0
    } else {
        total_size(rows.drop_last()) + match counted_size(rows.last()) {
            Some(size) => size,
            None => 0,
        }
    }
}

/// The largest size among the completed backups of `rows`, if any counts.
pub open spec fn largest_size(rows: Seq<BackupMetadata>) -> Option<int>
    decreases rows.len(),
{
    if rows.len() == 0 {
        None
    } else {
        match (largest_size(rows.drop_last()), counted_size(rows.last())) {
            (Some(a), Some(b)) => Some(
                if a >= b {
                    a
                } else {
                    b
                },
            ),
            (Some(a), None) => Some(a),
            (None, b) => b,
        }
    }
}

/// When the newest completed backup of `rows` was created, if any has
/// completed.
pub open spec fn latest_completed(rows: Seq<BackupMetadata>) -> Option<Timestamp>
    decreases rows.len(),
{
    if rows.len() == 0 {
        None
    } else {
        let earlier = latest_completed(rows.drop_last());
        if rows.last().status == BackupStatus::Completed {
            match earlier {
                Some(t) => if t.precedes(&rows.last().created_at) {
                    Some(rows.last().created_at)
                } else {
                    Some(t)
                },
                None => Some(rows.last().created_at),
            }
        } else {
            earlier
        }
    }
}

/// `value`, or the nearest value that fits 64 bits.
pub open spec fn clamped(value: int) -> int {
    if value > i64::MAX {
        i64::MAX as int
    } else if value < i64::MIN {
        i64::MIN as int
    } else {
        value
    }
}

/// The mean of the counted sizes, rounded toward zero; zero where none counts.
pub open spec fn average_size(rows: Seq<BackupMetadata>) -> int {
    if sized_count(rows) == 0 {
        0
    } else {
        crate::calendar::truncating_div(total_size(rows), sized_count(rows))
    }
}

/// How well the backups are kept up, by the whole hours since the newest
/// completed one was created: `success` under a day, `warning` under three
/// days and where no backup has completed, `error` beyond.
pub open spec fn health_text(hours: Option<int>) -> Seq<char> {
    match hours {
        Some(h) => if h < 24 {
            "success"@
        } else if h < 72 {
            "warning"@
        } else {
            "error"@
        },
        None => "warning"@,
    }
}

/// The health that goes with `hours` since the newest completed backup.
pub fn backup_health(hours: Option<i64>) -> (health: String)
    ensures
        health@ == health_text(
            match hours {
                Some(h) => Some(h as int),
                None => None,
            },
        ),
{
    match hours {
        Some(h) => {
            if h < 24 {
                "success".to_string()
            } else if h < 72 {
                "warning".to_string()
            } else {
                "error".to_string()
            }
        },
        None => "warning".to_string(),
    }
}

/// How many backups to keep: what the first schedule says, or the default.
pub open spec fn retention_of(schedules: Seq<BackupSchedule>) -> int {
    if schedules.len() > 0 {
        schedules[0].retention_count as int
    } else {
        DEFAULT_RETENTION as int
    }
}

/// Whole hours from the creation of the newest completed backup to `now`.
pub open spec fn hours_since_latest(rows: Seq<BackupMetadata>, now: Timestamp) -> Option<int> {
    match latest_completed(rows) {
        Some(t) => Some(
            crate::calendar::truncating_div(
                crate::calendar::truncating_div(
                    now.instant() - t.instant(),
                    crate::calendar::NANOS_PER_SECOND as int,
                ),
                3600,
            ),
        ),
        None => None,
    }
}

/// The figures over `rows` at the time `now`.
pub fn backup_stats(rows: &Vec<BackupMetadata>, schedules: &Vec<BackupSchedule>, now: &Timestamp) -> (stats:
    BackupStatsResponse)
    requires
        now.wf(),
        forall|i: int| 0 <= i < rows@.len() ==> (#[trigger] rows@[i]).wf(),
    ensures
        stats.total_backups == clamped(completed_count(rows@)),
        stats.storage_used == clamped(total_size(rows@)),
        stats.storage_total == STORAGE_TOTAL,
        stats.last_backup_time == latest_completed(rows@),
        stats.backup_status@ == health_text(hours_since_latest(rows@, *now)),
        stats.avg_backup_size == Some(clamped(average_size(rows@)) as i64),
        stats.max_backup_size == Some(
            match largest_size(rows@) {
                Some(m) => m as i64,
                None => 0i64,
            },
        ),
        stats.retention_policy == retention_of(schedules@),
{
    let mut count: u64 = 0;
    let mut sized: u64 = 0;
    let mut total: i128 = 0;
    let mut largest: Option<i64> = None;
    let mut latest: Option<Timestamp> = None;
    let mut i: usize = 0;
    while i < rows.len()
        invariant
            i <= rows@.len(),
            forall|k: int| 0 <= k < rows@.len() ==> (#[trigger] rows@[k]).wf(),
            count == completed_count(rows@.take(i as int)),
            sized == sized_count(rows@.take(i as int)),
            0 <= count <= i,
            0 <= sized <= i,
            total == total_size(rows@.take(i as int)),
            -0x8000_0000_0000_0000 * i <= total <= 0x8000_0000_0000_0000 * i,
            match largest {
                Some(m) => largest_size(rows@.take(i as int)) == Some(m as int),
                None => largest_size(rows@.take(i as int)) is None,
            },
            latest == latest_completed(rows@.take(i as int)),
            latest matches Some(t) ==> t.wf(),
        decreases rows@.len() - i,
    {
        let row = &rows[i];
        proof {
            assert(rows@.take(i + 1).drop_last() =~= rows@.take(i as int));
            assert(rows@.take(i + 1).last() == *row);
        }
        if row.status == BackupStatus::Completed {
            count = count + 1;
            match row.file_size {
                Some(size) => {
                    sized = sized + 1;
                    total = total + size as i128;
                    largest = match largest {
                        Some(m) => Some(
                            if m >= size {
                                m
                            } else {
                                size
                            },
                        ),
                        None => Some(size),
                    };
                },
                None => {},
            }
            latest = match latest {
                Some(t) => if t.is_before(&row.created_at) {
                    Some(row.created_at)
                } else {
                    Some(t)
                },
                None => Some(row.created_at),
            };
        }
        i = i + 1;
    }
    assert(rows@.take(rows@.len() as int) =~= rows@);
    let average: i128 = if sized == 0 {
        0
    } else {
        total / (sized as i128)
    };
    let hours: Option<i64> = match &latest {
        Some(t) => Some(span_between(now, t).whole_hours()),
        None => None,
    };
    let retention_policy = if schedules.len() > 0 {
        schedules[0].retention_count
    } else {
        DEFAULT_RETENTION
    };
    BackupStatsResponse {
        total_backups: clamp_count(count),
        storage_used: clamp_wide(total),
        storage_total: STORAGE_TOTAL,
        last_backup_time: latest,
        backup_status: backup_health(hours),
        avg_backup_size: Some(clamp_wide(average)),
        max_backup_size: Some(
            match largest {
                Some(m) => m,
                None => 0,
            },
        ),
        retention_policy,
    }
}

fn clamp_wide(value: i128) -> (fitted: i64)
    ensures
        fitted == clamped(value as int),
{
    if value > 0x7fff_ffff_ffff_ffff {
        0x7fff_ffff_ffff_ffff
    } else if value < -0x8000_0000_0000_0000 {
        -0x8000_0000_0000_0000
    } else {
        value as i64
    }
}

fn clamp_count(value: u64) -> (fitted: i64)
    ensures
        fitted == clamped(value as int),
{
    if value > 0x7fff_ffff_ffff_ffff {
        0x7fff_ffff_ffff_ffff
    } else {
        value as i64
    }
}

} // verus!
