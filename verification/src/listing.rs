//! Listing the catalog: which backups a filter lets through, in what order
//! they come, and which of them make up a page.

use crate::admin::AdminPaginationQuery;
use crate::backup::{BackupListResponse, BackupMetadata, BackupType};
use crate::calendar::{
    add_days, lemma_instant_order, lemma_valid_date_in_range, Timestamp, NANOS_PER_SECOND,
    SECONDS_PER_DAY,
};
use crate::text::str_eq;
use vstd::prelude::*;

verus! {

/// Which backups a listing shows.
#[derive(Clone, Copy, Debug, PartialEq, Eq, Structural)]
pub enum BackupFilter {
    /// Every backup.
    All,
    /// Full backups that a user asked for.
    Manual,
    /// Full backups that no user asked for.
    Scheduled,
    /// Backups created on the current day.
    Today,
    /// Backups created within the last seven days.
    Week,
}

/// Nanoseconds in seven days.
pub open spec fn week_nanos() -> int {
    7 * (SECONDS_PER_DAY as int) * (NANOS_PER_SECOND as int)
}

impl BackupFilter {
    /// The filter that `name` names; every backup where no filter is named
    /// or the name is not a filter's.
    pub open spec fn from_text(name: Option<Seq<char>>) -> BackupFilter {
        match name {
            Some(n) => if n == "manual"@ {
                BackupFilter::Manual
            } else if n == "scheduled"@ {
                BackupFilter::Scheduled
            } else if n == "today"@ {
                BackupFilter::Today
            } else if n == "week"@ {
                BackupFilter::Week
            } else {
                BackupFilter::All
            },
            None => BackupFilter::All,
        }
    }

    pub fn parse(name: Option<&str>) -> (filter: BackupFilter)
        ensures
            filter == BackupFilter::from_text(
                match name {
                    Some(n) => Some(n@),
                    None => None,
                },
            ),
    {
        match name {
            Some(n) => {
                if str_eq(n, "manual") {
                    BackupFilter::Manual
                } else if str_eq(n, "scheduled") {
                    BackupFilter::Scheduled
                } else if str_eq(n, "today") {
                    BackupFilter::Today
                } else if str_eq(n, "week") {
                    BackupFilter::Week
                } else {
                    BackupFilter::All
                }
            },
            None => BackupFilter::All,
        }
    }

    /// Whether the filter lets `row` through at the time `now`.
    pub open spec fn passes(self, row: BackupMetadata, now: Timestamp) -> bool {
        match self {
            BackupFilter::All => true,
            BackupFilter::Manual => row.backup_type == BackupType::Full && row.created_by_id
                is Some,
            BackupFilter::Scheduled => row.backup_type == BackupType::Full && row.created_by_id
                is None,
            BackupFilter::Today => row.created_at.date == now.date,
            BackupFilter::Week => row.created_at.instant() >= now.instant() - week_nanos(),
        }
    }

    /// Decides whether the filter lets `row` through at the time `now`.
    pub fn admits(&self, row: &BackupMetadata, now: &Timestamp) -> (through: bool)
        requires
            row.wf(),
            now.wf(),
        ensures
            through == self.passes(*row, *now),
    {
        match self {
            BackupFilter::All => true,
            BackupFilter::Manual => row.backup_type == BackupType::Full
                && row.created_by_id.is_some(),
            BackupFilter::Scheduled => row.backup_type == BackupType::Full
                && row.created_by_id.is_none(),
            BackupFilter::Today => row.created_at.date == now.date,
            BackupFilter::Week => {
                match add_days(&now.date, -7) {
                    Some(date) => {
                        let week_ago = Timestamp { date, time: now.time };
                        proof {
                            lemma_instant_order(row.created_at, week_ago);
                            assert(week_ago.instant() == now.instant() - week_nanos());
                        }
                        !row.created_at.is_before(&week_ago)
                    },
                    None => {
                        proof {
                            lemma_valid_date_in_range(row.created_at.date);
                            lemma_valid_date_in_range(now.date);
                            assert(row.created_at.date.day_number() > now.date.day_number() - 7);
                        }
                        true
                    },
                }
            },
        }
    }
}

/// Where `row` goes into a list that has the newest first: before the first
/// entry that was created earlier than `row`, after every entry that was not.
pub open spec fn insert_place(sorted: Seq<BackupMetadata>, row: BackupMetadata) -> int
    decreases sorted.len(),
{
    if sorted.len() == 0 {
        0
    } else if sorted[0].created_at.precedes(&row.created_at) {
        0
    } else {
        1 + insert_place(sorted.drop_first(), row)
    }
}

/// The backups of `rows` with the newest first; of two created at the same
/// instant, the one that stands first in `rows` stays first.
pub open spec fn newest_first(rows: Seq<BackupMetadata>) -> Seq<BackupMetadata>
    decreases rows.len(),
{
    if rows.len() == 0 {
        Seq::empty()
    } else {
        let rest = newest_first(rows.drop_last());
        rest.insert(insert_place(rest, rows.last()), rows.last())
    }
}

/// No entry is followed by one that was created later.
pub open spec fn is_newest_first(rows: Seq<BackupMetadata>) -> bool {
    forall|i: int, j: int|
        0 <= i < j < rows.len() ==> !rows[i].created_at.precedes(&rows[j].created_at)
}

/// What a listing shows before it is cut into pages: the backups that the
/// filter lets through, newest first.
pub open spec fn listed(rows: Seq<BackupMetadata>, filter: BackupFilter, now: Timestamp) -> Seq<
    BackupMetadata,
> {
    newest_first(rows.filter(|row: BackupMetadata| filter.passes(row, now)))
}

/// The page of `all` that `pagination` asks for.
pub open spec fn page_of(all: Seq<BackupMetadata>, pagination: AdminPaginationQuery) -> Seq<
    BackupMetadata,
> {
    let start = if pagination.offset() < all.len() {
        pagination.offset()
    } else {
        all.len() as int
    };
    let end = if start + pagination.page_length() < all.len() {
        start + pagination.page_length()
    } else {
        all.len() as int
    };
    all.subrange(start, end)
}

/// The insert place lies within the list; before it stands nothing older
/// than `row`, and at it, if anything, something older.
pub proof fn lemma_insert_place(sorted: Seq<BackupMetadata>, row: BackupMetadata)
    ensures
        0 <= insert_place(sorted, row) <= sorted.len(),
        forall|i: int|
            0 <= i < insert_place(sorted, row) ==> !(#[trigger] sorted[i]).created_at.precedes(
                &row.created_at,
            ),
        insert_place(sorted, row) < sorted.len() ==> sorted[insert_place(
            sorted,
            row,
        )].created_at.precedes(&row.created_at),
    decreases sorted.len(),
{
    if sorted.len() > 0 && !sorted[0].created_at.precedes(&row.created_at) {
        let rest = sorted.drop_first();
        lemma_insert_place(rest, row);
        assert forall|i: int| 0 <= i < insert_place(sorted, row) implies !(
        #[trigger] sorted[i]).created_at.precedes(&row.created_at) by {
            if i > 0 {
                assert(sorted[i] == rest[i - 1]);
            }
        }
        if insert_place(sorted, row) < sorted.len() {
            assert(sorted[insert_place(sorted, row)] == rest[insert_place(rest, row)]);
        }
    }
}

/// A listing has the newest first, and holds the backups it was made of,
/// each as often as it was given.
pub proof fn lemma_newest_first(rows: Seq<BackupMetadata>)
    ensures
        is_newest_first(newest_first(rows)),
        newest_first(rows).to_multiset() == rows.to_multiset(),
        newest_first(rows).len() == rows.len(),
    decreases rows.len(),
{
    broadcast use vstd::seq_lib::group_to_multiset_ensures;

    if rows.len() == 0 {
        assert(newest_first(rows).to_multiset() =~= rows.to_multiset());
    } else {
        let row = rows.last();
        let rest = newest_first(rows.drop_last());
        lemma_newest_first(rows.drop_last());
        lemma_insert_place(rest, row);
        let place = insert_place(rest, row);
        let out = rest.insert(place, row);
        assert forall|i: int, j: int| 0 <= i < j < out.len() implies !out[i].created_at.precedes(
            &out[j].created_at,
        ) by {
            if i < place && j > place {
                assert(out[i] == rest[i] && out[j] == rest[j - 1]);
            } else if i == place {
                assert(out[j] == rest[j - 1]);
                assert(!rest[place].created_at.precedes(&rest[j - 1].created_at) || place == j
                    - 1);
            } else if j == place {
                assert(out[i] == rest[i]);
            } else if j < place {
                assert(out[i] == rest[i] && out[j] == rest[j]);
            } else {
                assert(out[i] == rest[i - 1] && out[j] == rest[j - 1]);
            }
        }
        assert(rows =~= rows.drop_last().push(row));
        assert(out.to_multiset() =~= rows.to_multiset());
    }
}

/// Every backup that a listing shows is one of the catalog that the filter
/// lets through; so a listing of today's backups shows none that was
/// created on another day.
pub proof fn lemma_listed_passes(
    rows: Seq<BackupMetadata>,
    filter: BackupFilter,
    now: Timestamp,
    pagination: AdminPaginationQuery,
    i: int,
)
    requires
        0 <= i < page_of(listed(rows, filter, now), pagination).len(),
    ensures
        rows.contains(page_of(listed(rows, filter, now), pagination)[i]),
        filter.passes(page_of(listed(rows, filter, now), pagination)[i], now),
        filter == BackupFilter::Today ==> page_of(
            listed(rows, filter, now),
            pagination,
        )[i].created_at.date == now.date,
{
    broadcast use vstd::seq_lib::group_to_multiset_ensures;

    let pred = |row: BackupMetadata| filter.passes(row, now);
    let chosen = rows.filter(pred);
    let all = listed(rows, filter, now);
    let page = page_of(all, pagination);
    lemma_newest_first(chosen);
    let row = page[i];
    assert(all.contains(row));
    assert(all.to_multiset().count(row) > 0);
    assert(chosen.to_multiset().count(row) > 0);
    assert(chosen.contains(row));
    rows.lemma_filter_contains_rev(pred, row);
}

/// Every page of a listing has the newest first.
pub proof fn lemma_page_newest_first(
    rows: Seq<BackupMetadata>,
    filter: BackupFilter,
    now: Timestamp,
    pagination: AdminPaginationQuery,
)
    ensures
        is_newest_first(page_of(listed(rows, filter, now), pagination)),
        page_of(listed(rows, filter, now), pagination).len() <= pagination.page_length(),
{
    lemma_newest_first(rows.filter(|row: BackupMetadata| filter.passes(row, now)));
}

/// The backups of `rows` that the filter lets through, newest first.
pub fn select_backups(rows: &Vec<BackupMetadata>, filter: BackupFilter, now: &Timestamp) -> (all:
    Vec<BackupMetadata>)
    requires
        now.wf(),
        forall|i: int| 0 <= i < rows@.len() ==> (#[trigger] rows@[i]).wf(),
    ensures
        all@ == listed(rows@, filter, *now),
{
    let ghost pred = |row: BackupMetadata| filter.passes(row, *now);
    let mut all: Vec<BackupMetadata> = Vec::new();
    let mut i: usize = 0;
    assert(rows@.take(0).filter(pred) =~= Seq::<BackupMetadata>::empty());
    while i < rows.len()
        invariant
            i <= rows@.len(),
            now.wf(),
            forall|k: int| 0 <= k < rows@.len() ==> (#[trigger] rows@[k]).wf(),
            pred == (|row: BackupMetadata| filter.passes(row, *now)),
            all@ == newest_first(rows@.take(i as int).filter(pred)),
        decreases rows@.len() - i,
    {
        let row = &rows[i];
        proof {
            assert(rows@.take(i + 1) =~= rows@.take(i as int).push(*row));
            rows@.take(i as int).lemma_filter_push(*row, pred);
        }
        if filter.admits(row, now) {
            let ghost chosen = rows@.take(i as int).filter(pred);
            let mut place: usize = 0;
            assert(all@.skip(0) =~= all@);
            while place < all.len() && !all[place].created_at.is_before(&row.created_at)
                invariant
                    place <= all@.len(),
                    insert_place(all@, *row) == place + insert_place(
                        all@.skip(place as int),
                        *row,
                    ),
                decreases all@.len() - place,
            {
                assert(all@.skip(place as int).drop_first() =~= all@.skip(place + 1));
                place = place + 1;
            }
            assert(insert_place(all@, *row) == place);
            all.insert(place, row.clone());
            assert(chosen.push(*row).drop_last() =~= chosen);
        }
        i = i + 1;
    }
    assert(rows@.take(rows@.len() as int) =~= rows@);
    all
}

/// The page of `all` that `pagination` asks for, with the count of all.
pub fn paginate(all: &Vec<BackupMetadata>, pagination: AdminPaginationQuery) -> (response:
    BackupListResponse)
    ensures
        response.backups@ == page_of(all@, pagination),
        response.total_count == if all@.len() <= i64::MAX {
            all@.len() as int
        } else {
            i64::MAX as int
        },
        response.page == pagination.page_number(),
        response.limit == pagination.page_length(),
{
    let page = pagination.resolved_page();
    let limit = pagination.resolved_limit();
    let offset = pagination.resolved_offset();
    let len = all.len();
    let start: usize = if (offset as u64) < (len as u64) {
        offset as usize
    } else {
        len
    };
    let end: usize = if (limit as usize) < len - start {
        start + limit as usize
    } else {
        len
    };
    let mut backups: Vec<BackupMetadata> = Vec::new();
    let mut i: usize = start;
    while i < end
        invariant
            start <= i <= end <= all@.len(),
            backups@ == all@.subrange(start as int, i as int),
        decreases end - i,
    {
        backups.push(all[i].clone());
        assert(backups@ =~= all@.subrange(start as int, i + 1));
        i = i + 1;
    }
    let total_count: i64 = if (len as u64) <= 0x7fff_ffff_ffff_ffff {
        len as i64
    } else {
        0x7fff_ffff_ffff_ffff
    };
    BackupListResponse { backups, total_count, page, limit }
}

} // verus!
