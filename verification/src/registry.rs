//! The operation registry: every operation the process knows of, by id.
//!
//! The registry is a finite map from operation id to operation status. It
//! is held as a list in which no id occurs twice.

use crate::backup::{BackupOperationStatus, BackupStatus};
use crate::text::str_eq;
use vstd::prelude::*;

verus! {

/// A partial change to one operation: each field that is given replaces the
/// entry's, each that is not leaves it.
#[derive(Clone, Debug)]
pub struct OperationUpdate {
    pub status: Option<BackupStatus>,
    pub progress: Option<i32>,
    pub description: Option<String>,
    pub error_message: Option<String>,
}

impl OperationUpdate {
    /// The entry after the change.
    pub open spec fn apply(self, entry: BackupOperationStatus) -> BackupOperationStatus {
        BackupOperationStatus {
            status: match self.status {
                Some(s) => s,
                None => entry.status,
            },
            progress: match self.progress {
                Some(p) => Some(p),
                None => entry.progress,
            },
            description: match self.description {
                Some(d) => Some(d),
                None => entry.description,
            },
            error_message: match self.error_message {
                Some(e) => Some(e),
                None => entry.error_message,
            },
            ..entry
        }
    }
}

/// Whether `after` is `before` with the given fields replaced: a field
/// that is given takes the given value, one that is not keeps its own.
pub open spec fn is_progress_of(
    before: BackupOperationStatus,
    after: BackupOperationStatus,
    status: Option<BackupStatus>,
    progress: Option<i32>,
    description: Option<Seq<char>>,
    error_message: Option<Seq<char>>,
) -> bool {
    &&& after.operation_id == before.operation_id
    &&& after.operation_type == before.operation_type
    &&& after.started_at == before.started_at
    &&& after.estimated_completion == before.estimated_completion
    &&& after.status == match status {
        Some(s) => s,
        None => before.status,
    }
    &&& after.progress == match progress {
        Some(p) => Some(p),
        None => before.progress,
    }
    &&& match description {
        Some(text) => after.description matches Some(d) && d@ == text,
        None => after.description == before.description,
    }
    &&& match error_message {
        Some(text) => after.error_message matches Some(e) && e@ == text,
        None => after.error_message == before.error_message,
    }
}

/// Whether the registry `after` is the registry `before` with the given
/// fields of the operation `id` replaced; where `before` does not know the
/// operation, whether the two are the same.
pub open spec fn progressed(
    before: Map<Seq<char>, BackupOperationStatus>,
    after: Map<Seq<char>, BackupOperationStatus>,
    id: Seq<char>,
    status: Option<BackupStatus>,
    progress: Option<i32>,
    description: Option<Seq<char>>,
    error_message: Option<Seq<char>>,
) -> bool {
    if before.contains_key(id) {
        &&& after.contains_key(id)
        &&& after == before.insert(id, after[id])
        &&& is_progress_of(before[id], after[id], status, progress, description, error_message)
    } else {
        after == before
    }
}

/// The operations known, each under its id.
pub struct OperationRegistry {
    entries: Vec<BackupOperationStatus>,
}

/// No two entries have the same operation id.
pub open spec fn distinct_ids(entries: Seq<BackupOperationStatus>) -> bool {
    forall|i: int, j: int|
        0 <= i < j < entries.len() ==> entries[i].operation_id@ != entries[j].operation_id@
}

/// The map that a list without repeated ids stands for.
pub open spec fn entries_map(entries: Seq<BackupOperationStatus>) -> Map<
    Seq<char>,
    BackupOperationStatus,
> {
    Map::new(
        |id: Seq<char>| exists|i: int| 0 <= i < entries.len() && entries[i].operation_id@ == id,
        |id: Seq<char>|
            entries[choose|i: int| 0 <= i < entries.len() && entries[i].operation_id@ == id],
    )
}

/// In a list without repeated ids, the entry at a position is the map's
/// value at that entry's id.
pub proof fn lemma_entry_is_value(entries: Seq<BackupOperationStatus>, i: int)
    requires
        distinct_ids(entries),
        0 <= i < entries.len(),
    ensures
        entries_map(entries).contains_key(entries[i].operation_id@),
        entries_map(entries)[entries[i].operation_id@] == entries[i],
{
    let id = entries[i].operation_id@;
    let j = choose|j: int| 0 <= j < entries.len() && entries[j].operation_id@ == id;
    assert(i == j);
}

impl View for OperationRegistry {
    type V = Map<Seq<char>, BackupOperationStatus>;

    closed spec fn view(&self) -> Map<Seq<char>, BackupOperationStatus> {
        entries_map(self.entries@)
    }
}

impl OperationRegistry {
    /// No operation id is recorded twice.
    pub closed spec fn wf(&self) -> bool {
        distinct_ids(self.entries@)
    }

    /// A registry that knows no operation.
    pub fn new() -> (registry: OperationRegistry)
        ensures
            registry.wf(),
            registry@ == Map::<Seq<char>, BackupOperationStatus>::empty(),
    {
        let registry = OperationRegistry { entries: Vec::new() };
        assert(registry@ =~= Map::<Seq<char>, BackupOperationStatus>::empty());
        registry
    }

    fn position(&self, operation_id: &str) -> (found: Option<usize>)
        ensures
            found matches Some(i) ==> i < self.entries@.len() && self.entries@[i as int].operation_id@
                == operation_id@,
            found is None ==> forall|i: int|
                0 <= i < self.entries@.len() ==> self.entries@[i].operation_id@ != operation_id@,
    {
        let mut i: usize = 0;
        while i < self.entries.len()
            invariant
                i <= self.entries@.len(),
                forall|k: int| 0 <= k < i ==> self.entries@[k].operation_id@ != operation_id@,
            decreases self.entries@.len() - i,
        {
            if str_eq(self.entries[i].operation_id.as_str(), operation_id) {
                return Some(i);
            }
            i = i + 1;
        }
        None
    }

    /// Records `status` under its operation id, in place of what was
    /// recorded under that id before.
    pub fn put(&mut self, status: BackupOperationStatus)
        requires
            old(self).wf(),
        ensures
            final(self).wf(),
            final(self)@ == old(self)@.insert(status.operation_id@, status),
    {
        let ghost before = self.entries@;
        match self.position(status.operation_id.as_str()) {
            Some(i) => {
                self.entries.set(i, status);
                proof {
                    let after = self.entries@;
                    assert(distinct_ids(after));
                    assert forall|id: Seq<char>|
                        entries_map(after).contains_key(id) <==> entries_map(before).insert(
                            status.operation_id@,
                            status,
                        ).contains_key(id) by {
                        if entries_map(after).contains_key(id) {
                            let k = choose|k: int|
                                0 <= k < after.len() && after[k].operation_id@ == id;
                            assert(before[k].operation_id@ == id);
                        }
                        if entries_map(before).contains_key(id) {
                            let k = choose|k: int|
                                0 <= k < before.len() && before[k].operation_id@ == id;
                            assert(after[k].operation_id@ == id);
                        }
                        if id == status.operation_id@ {
                            assert(after[i as int].operation_id@ == id);
                        }
                    }
                    assert forall|id: Seq<char>| #[trigger]
                        entries_map(after).contains_key(id) implies entries_map(after)[id]
                        == entries_map(before).insert(status.operation_id@, status)[id] by {
                        let k = choose|k: int| 0 <= k < after.len() && after[k].operation_id@ == id;
                        lemma_entry_is_value(after, k);
                        if k != i {
                            lemma_entry_is_value(before, k);
                        }
                    }
                    assert(entries_map(after) =~= entries_map(before).insert(
                        status.operation_id@,
                        status,
                    ));
                }
            },
            None => {
                self.entries.push(status);
                proof {
                    let after = self.entries@;
                    assert(distinct_ids(after));
                    assert forall|id: Seq<char>|
                        entries_map(after).contains_key(id) <==> entries_map(before).insert(
                            status.operation_id@,
                            status,
                        ).contains_key(id) by {
                        if entries_map(after).contains_key(id) {
                            let k = choose|k: int|
                                0 <= k < after.len() && after[k].operation_id@ == id;
                            if k < before.len() {
                                assert(before[k].operation_id@ == id);
                            }
                        }
                        if entries_map(before).contains_key(id) {
                            let k = choose|k: int|
                                0 <= k < before.len() && before[k].operation_id@ == id;
                            assert(after[k].operation_id@ == id);
                        }
                        if id == status.operation_id@ {
                            assert(after[before.len() as int].operation_id@ == id);
                        }
                    }
                    assert forall|id: Seq<char>| #[trigger]
                        entries_map(after).contains_key(id) implies entries_map(after)[id]
                        == entries_map(before).insert(status.operation_id@, status)[id] by {
                        let k = choose|k: int| 0 <= k < after.len() && after[k].operation_id@ == id;
                        lemma_entry_is_value(after, k);
                        if k < before.len() {
                            lemma_entry_is_value(before, k);
                        }
                    }
                    assert(entries_map(after) =~= entries_map(before).insert(
                        status.operation_id@,
                        status,
                    ));
                }
            },
        }
    }

    /// Applies `change` to the operation recorded under `operation_id`;
    /// does nothing where none is recorded.
    pub fn update(&mut self, operation_id: &str, change: OperationUpdate)
        requires
            old(self).wf(),
        ensures
            final(self).wf(),
            old(self)@.contains_key(operation_id@) ==> final(self)@ == old(self)@.insert(
                operation_id@,
                change.apply(old(self)@[operation_id@]),
            ),
            !old(self)@.contains_key(operation_id@) ==> final(self)@ == old(self)@,
    {
        match self.position(operation_id) {
            Some(i) => {
                proof {
                    lemma_entry_is_value(self.entries@, i as int);
                }
                let current = self.entries[i].clone();
                let changed = BackupOperationStatus {
                    operation_id: current.operation_id,
                    operation_type: current.operation_type,
                    status: match change.status {
                        Some(s) => s,
                        None => current.status,
                    },
                    progress: match change.progress {
                        Some(p) => Some(p),
                        None => current.progress,
                    },
                    description: match change.description {
                        Some(d) => Some(d),
                        None => current.description,
                    },
                    started_at: current.started_at,
                    estimated_completion: current.estimated_completion,
                    error_message: match change.error_message {
                        Some(e) => Some(e),
                        None => current.error_message,
                    },
                };
                assert(changed == change.apply(old(self)@[operation_id@]));
                self.put(changed);
            },
            None => {},
        }
    }

    /// The status recorded under `operation_id`, if any.
    pub fn get(&self, operation_id: &str) -> (status: Option<BackupOperationStatus>)
        requires
            self.wf(),
        ensures
            status is Some <==> self@.contains_key(operation_id@),
            status matches Some(s) ==> s == self@[operation_id@],
    {
        match self.position(operation_id) {
            Some(i) => {
                proof {
                    lemma_entry_is_value(self.entries@, i as int);
                }
                Some(self.entries[i].clone())
            },
            None => None,
        }
    }

    /// A snapshot of every recorded status, each once, in no particular order.
    pub fn list(&self) -> (all: Vec<BackupOperationStatus>)
        requires
            self.wf(),
        ensures
            distinct_ids(all@),
            entries_map(all@) == self@,
    {
        let mut all: Vec<BackupOperationStatus> = Vec::new();
        let mut i: usize = 0;
        while i < self.entries.len()
            invariant
                i <= self.entries@.len(),
                all@ == self.entries@.subrange(0, i as int),
            decreases self.entries@.len() - i,
        {
            all.push(self.entries[i].clone());
            assert(all@ =~= self.entries@.subrange(0, i + 1));
            i = i + 1;
        }
        assert(all@ =~= self.entries@);
        all
    }
}

} // verus!
