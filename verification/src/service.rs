//! The backup engine: a catalog of backups, the registry of operations on
//! them, and the rules by which a backup is admitted, carried out, restored
//! from and deleted.
//!
//! The engine decides and records; it performs no input or output. The
//! caller runs the dump, touches the files and persists the catalog, and
//! tells the engine how each step went. Whoever holds the engine exclusively
//! while calling `create_backup` or `restore_backup` shuts every other
//! request out: looking for a backup under way and recording the new one
//! are one step.

use crate::admin::AdminPaginationQuery;
use crate::backup::{
    BackupError, BackupListResponse, BackupMetadata, BackupOperationStatus, BackupStatsResponse,
    BackupStatus, BackupType, CreateBackupRequest, DeleteBackupRequest, OperationType,
    RestoreBackupRequest,
};
use crate::calendar::{add_minutes, max_day_number, Timestamp, NANOS_PER_SECOND, SECONDS_PER_DAY};
use crate::listing::{listed, page_of, paginate, select_backups, BackupFilter};
use crate::registry::{progressed, OperationRegistry, OperationUpdate};
use crate::runner::{
    dump_failure, dump_verdict, is_dump_plan, plan_dump, url_parts, DumpCommand, ProcessReport,
};
use crate::schedule::{
    schedule_time_of, BackupSchedule, CreateScheduleRequest, Frequency, ScheduleError,
};
use crate::stats::{
    average_size, backup_stats, clamped, completed_count, health_text, hours_since_latest,
    largest_size, latest_completed, retention_of, total_size, STORAGE_TOTAL,
};
use vstd::prelude::*;

verus! {

/// What the background task needs to know of the backup it carries out.
#[derive(Debug, PartialEq, Eq)]
pub struct BackupJob {
    pub operation_id: String,
    pub backup_id: i32,
    pub backup_name: String,
    pub backup_type: BackupType,
    pub compress: bool,
}

/// The engine's state: the catalog of backups in the order in which they
/// were recorded, the schedules with the newest first, the operations
/// known, and the ids to give out next.
pub struct BackupService {
    backups: Vec<BackupMetadata>,
    schedules: Vec<BackupSchedule>,
    operations: OperationRegistry,
    next_backup_id: i32,
    next_schedule_id: i32,
}

/// Whether some backup of the catalog is pending or running.
pub open spec fn has_active(rows: Seq<BackupMetadata>) -> bool {
    exists|i: int| 0 <= i < rows.len() && (#[trigger] rows[i]).status.is_active()
}

/// No id is given to two backups, every id is below `next_id`, and every
/// backup is well formed.
pub open spec fn catalog_wf(rows: Seq<BackupMetadata>, next_id: int) -> bool {
    &&& forall|i: int, j: int| 0 <= i < j < rows.len() ==> rows[i].id != rows[j].id
    &&& forall|i: int| 0 <= i < rows.len() ==> (#[trigger] rows[i]).id < next_id
    &&& forall|i: int| 0 <= i < rows.len() ==> (#[trigger] rows[i]).wf()
}

/// No id is given to two schedules, every id is below `next_id`, and every
/// schedule is well formed.
pub open spec fn schedules_wf(rows: Seq<BackupSchedule>, next_id: int) -> bool {
    &&& forall|i: int, j: int| 0 <= i < j < rows.len() ==> rows[i].id != rows[j].id
    &&& forall|i: int| 0 <= i < rows.len() ==> (#[trigger] rows[i]).id < next_id
    &&& forall|i: int| 0 <= i < rows.len() ==> (#[trigger] rows[i]).wf()
}

/// Every backup of `before` is still there in `after`, in its place, under
/// its id, and its status has not gone back.
pub open spec fn forward_only(before: Seq<BackupMetadata>, after: Seq<BackupMetadata>) -> bool {
    &&& before.len() <= after.len()
    &&& forall|i: int|
        0 <= i < before.len() ==> (#[trigger] after[i]).id == before[i].id
            && before[i].status.may_become(after[i].status)
}

/// Whether `moved` is `start` moved on by `minutes` minutes, or nothing
/// where that instant lies beyond the last representable date.
pub open spec fn is_minutes_after(start: Timestamp, minutes: int, moved: Option<Timestamp>) -> bool {
    let target = start.instant() + minutes * 60 * NANOS_PER_SECOND as int;
    match moved {
        Some(t) => t.wf() && t.instant() == target,
        None => target / (SECONDS_PER_DAY as int * NANOS_PER_SECOND as int) > max_day_number(),
    }
}

/// The name a new backup goes by: the requested one, or one made of the
/// current time where the request has none or an empty one.
pub open spec fn backup_name_text(request: CreateBackupRequest, now: Timestamp) -> Seq<char> {
    if request.name_missing() {
        crate::backup::default_name_text(crate::calendar::stamp_text(now))
    } else {
        request.name->0@
    }
}

/// Whether `row` is the record of a backup just asked for.
pub open spec fn is_new_backup(
    row: BackupMetadata,
    id: int,
    admin_id: i32,
    admin_email: Seq<char>,
    request: CreateBackupRequest,
    now: Timestamp,
) -> bool {
    &&& row.id == id
    &&& row.name@ == backup_name_text(request, now)
    &&& row.description == request.description
    &&& Some(row.backup_type) == BackupType::from_text(request.backup_type_text())
    &&& row.status == BackupStatus::Pending
    &&& row.file_path is None
    &&& row.file_size is None
    &&& row.created_by_id == Some(admin_id)
    &&& row.created_by@ == admin_email
    &&& row.created_at == now
    &&& row.completed_at is None
    &&& row.error_message is None
    &&& row.compressed == Some(
        match request.compress {
            Some(c) => c,
            None => true,
        },
    )
}

/// Whether `entry` is what the registry holds of an operation just accepted.
pub open spec fn is_new_operation(
    entry: BackupOperationStatus,
    operation_id: Seq<char>,
    operation_type: OperationType,
    description: Seq<char>,
    minutes: int,
    now: Timestamp,
) -> bool {
    &&& entry.operation_id@ == operation_id
    &&& entry.operation_type == operation_type
    &&& entry.status == BackupStatus::Pending
    &&& entry.progress == Some(0i32)
    &&& entry.description matches Some(d) && d@ == description
    &&& entry.started_at == now
    &&& is_minutes_after(now, minutes, entry.estimated_completion)
    &&& entry.error_message is None
}

/// Whether `job` describes the backup recorded as `row` under `operation_id`.
pub open spec fn is_job_for(job: BackupJob, row: BackupMetadata, operation_id: Seq<char>) -> bool {
    &&& job.operation_id@ == operation_id
    &&& job.backup_id == row.id
    &&& job.backup_name@ == row.name@
    &&& job.backup_type == row.backup_type
    &&& Some(job.compress) == row.compressed
}

/// The row of a backup that starts to run: a pending one is running, any
/// other is as it was.
pub open spec fn started(row: BackupMetadata) -> BackupMetadata {
    if row.status == BackupStatus::Pending {
        BackupMetadata { status: BackupStatus::Running, ..row }
    } else {
        row
    }
}

/// The row of a backup that fails with `message`: a pending or running one
/// has failed and carries the message, any other is as it was.
pub open spec fn failed(row: BackupMetadata, message: String) -> BackupMetadata {
    if row.status.is_active() {
        BackupMetadata { status: BackupStatus::Failed, error_message: Some(message), ..row }
    } else {
        row
    }
}

/// The row of a backup whose file is written: a running one has completed
/// and carries the file's path and size and the time, any other is as it was.
pub open spec fn completed(
    row: BackupMetadata,
    file_path: String,
    file_size: i64,
    now: Timestamp,
) -> BackupMetadata {
    if row.status == BackupStatus::Running {
        BackupMetadata {
            status: BackupStatus::Completed,
            file_path: Some(file_path),
            file_size: Some(file_size),
            completed_at: Some(now),
            ..row
        }
    } else {
        row
    }
}

/// Whether the catalog `rows` holds a backup under `backup_id`.
pub open spec fn holds(rows: Seq<BackupMetadata>, backup_id: i32) -> bool {
    exists|i: int| 0 <= i < rows.len() && (#[trigger] rows[i]).id == backup_id
}

/// Where in `rows` the backup `backup_id` stands, if it is there.
pub open spec fn position_of(rows: Seq<BackupMetadata>, backup_id: i32) -> int {
    choose|i: int| 0 <= i < rows.len() && (#[trigger] rows[i]).id == backup_id
}

/// The status of the backup `backup_id` in `rows`, if it is there.
pub open spec fn status_of(rows: Seq<BackupMetadata>, backup_id: i32) -> Option<BackupStatus> {
    if holds(rows, backup_id) {
        Some(rows[position_of(rows, backup_id)].status)
    } else {
        None
    }
}

/// What the caller needs to know of the restore it is to carry out.
#[derive(Debug, PartialEq, Eq)]
pub struct RestoreJob {
    pub operation_id: String,
    pub backup_id: i32,
    pub backup_name: String,
    pub drop_existing_tables: bool,
    pub create_pre_restore_backup: bool,
}

/// What is left to do, and to write to the audit log, once a backup has
/// been taken out of the catalog.
#[derive(Debug, PartialEq, Eq)]
pub struct DeletedBackup {
    pub backup_id: i32,
    pub backup_name: String,
    /// The file to remove, where the backup had one.
    pub file_path: Option<String>,
    pub deleted_by: i32,
}

/// What is written to the audit log when a backup has completed.
#[derive(Debug, PartialEq, Eq)]
pub struct BackupAudit {
    pub backup_id: i32,
    pub backup_name: String,
    pub file_size: i64,
    pub backup_type: BackupType,
    pub compressed: bool,
}

/// What the background task reports of the work it has done outside the engine.
#[derive(Debug, PartialEq, Eq)]
pub enum BackupEvent {
    /// The task has taken the job up.
    Started,
    /// The directory for the backup's file is there.
    DirectoryReady,
    /// The processes of the dump have ended; `gzip` is the report of the
    /// compressing process, or nothing where the dump was not compressed.
    DumpFinished { pg_dump: ProcessReport, gzip: Option<ProcessReport> },
    /// The backup's file has been found and measured.
    FileMeasured { file_path: String, file_size: i64 },
    /// Something outside the engine went wrong.
    Failed { message: String },
}

/// What the background task is to do next.
#[derive(Debug, PartialEq, Eq)]
pub enum BackupAction {
    /// Make sure that the directory for the backup's file exists.
    CreateDirectory,
    /// Run the dump.
    RunDump(DumpCommand),
    /// Find out where the backup's file lies and how large it is.
    MeasureFile,
    /// Write the entry to the audit log: the backup is done.
    WriteAudit(BackupAudit),
    /// Nothing is left to do.
    Stop,
}

/// What is said of a database URL that is none.
pub const INVALID_DATABASE_URL: &'static str = "Invalid database URL";

/// A fresh operation id.
///
/// Trusted: `uuid::Uuid::new_v4` and its `Display`. The id is random, so
/// nothing is promised of it.
#[verifier::external_body]
fn fresh_operation_id() -> (id: String) {
    uuid::Uuid::new_v4().to_string()
}

impl BackupService {
    /// The catalog, in the order in which the backups were recorded.
    pub closed spec fn backups(&self) -> Seq<BackupMetadata> {
        self.backups@
    }

    /// The schedules, most recently created first.
    pub closed spec fn schedules(&self) -> Seq<BackupSchedule> {
        self.schedules@
    }

    /// The operations known, by id.
    pub closed spec fn operations(&self) -> Map<Seq<char>, BackupOperationStatus> {
        self.operations@
    }

    /// The id that the next backup gets.
    pub closed spec fn next_backup_id(&self) -> int {
        self.next_backup_id as int
    }

    /// The id that the next schedule gets.
    pub closed spec fn next_schedule_id(&self) -> int {
        self.next_schedule_id as int
    }

    /// The registry holds no id twice, and catalog and schedules are well
    /// formed; see `lemma_wf`.
    pub closed spec fn wf(&self) -> bool {
        &&& self.operations.wf()
        &&& catalog_wf(self.backups@, self.next_backup_id as int)
        &&& schedules_wf(self.schedules@, self.next_schedule_id as int)
    }

    /// What `wf` says of the catalog and the schedules.
    pub proof fn lemma_wf(&self)
        requires
            self.wf(),
        ensures
            catalog_wf(self.backups(), self.next_backup_id()),
            schedules_wf(self.schedules(), self.next_schedule_id()),
    {
    }

    /// An engine with no backup, no schedule and no operation.
    pub fn new() -> (service: BackupService)
        ensures
            service.wf(),
            service.backups() == Seq::<BackupMetadata>::empty(),
            service.schedules() == Seq::<BackupSchedule>::empty(),
            service.operations() == Map::<Seq<char>, BackupOperationStatus>::empty(),
            service.next_backup_id() == 1,
            service.next_schedule_id() == 1,
    {
        BackupService {
            backups: Vec::new(),
            schedules: Vec::new(),
            operations: OperationRegistry::new(),
            next_backup_id: 1,
            next_schedule_id: 1,
        }
    }

    /// Whether a backup is pending or running.
    pub fn backup_in_progress(&self) -> (active: bool)
        ensures
            active == has_active(self.backups()),
    {
        let mut i: usize = 0;
        while i < self.backups.len()
            invariant
                i <= self.backups@.len(),
                forall|k: int| 0 <= k < i ==> !(#[trigger] self.backups@[k]).status.is_active(),
            decreases self.backups@.len() - i,
        {
            if self.backups[i].is_running() {
                return true;
            }
            i = i + 1;
        }
        false
    }

    /// What becomes of a request for a backup: the type it asks for, or why
    /// it is turned down. A bad type is found first, then a backup under
    /// way, then a catalog that cannot number another backup.
    pub open spec fn admission(&self, request: CreateBackupRequest) -> Result<
        BackupType,
        BackupError,
    > {
        match BackupType::from_text(request.backup_type_text()) {
            None => Err(BackupError::InvalidBackupType),
            Some(kind) => if has_active(self.backups()) {
                Err(BackupError::OperationInProgress)
            } else if self.next_backup_id() >= i32::MAX {
                Err(BackupError::CatalogFull)
            } else {
                Ok(kind)
            },
        }
    }

    /// Whether the engine `after` is the engine `self` after it has accepted
    /// `request` as `job`: one pending backup more, under the next id, and
    /// its operation registered as pending at progress 0.
    pub open spec fn accepted(
        &self,
        after: &BackupService,
        admin_id: i32,
        admin_email: Seq<char>,
        request: CreateBackupRequest,
        now: Timestamp,
        job: BackupJob,
    ) -> bool {
        &&& after.backups().len() == self.backups().len() + 1
        &&& after.backups().drop_last() == self.backups()
        &&& is_new_backup(
            after.backups().last(),
            self.next_backup_id(),
            admin_id,
            admin_email,
            request,
            now,
        )
        &&& after.next_backup_id() == self.next_backup_id() + 1
        &&& after.schedules() == self.schedules()
        &&& after.next_schedule_id() == self.next_schedule_id()
        &&& is_job_for(job, after.backups().last(), job.operation_id@)
        &&& after.operations().contains_key(job.operation_id@)
        &&& after.operations() == self.operations().insert(
            job.operation_id@,
            after.operations()[job.operation_id@],
        )
        &&& is_new_operation(
            after.operations()[job.operation_id@],
            job.operation_id@,
            OperationType::Create,
            "Creating backup: "@ + backup_name_text(request, now),
            5,
            now,
        )
    }

    /// Accepts or turns down a request for a backup, registering the
    /// operation under `operation_id` where it accepts. A request that is
    /// turned down leaves the engine as it was.
    pub fn create_backup_as(
        &mut self,
        admin_id: i32,
        admin_email: &str,
        request: CreateBackupRequest,
        now: &Timestamp,
        operation_id: String,
    ) -> (outcome: Result<BackupJob, BackupError>)
        requires
            old(self).wf(),
            now.wf(),
        ensures
            final(self).wf(),
            match old(self).admission(request) {
                Ok(_) => outcome matches Ok(job) && job.operation_id == operation_id && old(self).accepted(final(self), admin_id, admin_email@, request, *now, job),
                Err(e) => outcome == Err::<BackupJob, BackupError>(e) && *final(self) == *old(self),
            },
    {
        let mut request = request;
        let ghost asked = request;
        let kind = match BackupType::parse(request.get_backup_type().as_str()) {
            Some(kind) => kind,
            None => {
                return Err(BackupError::InvalidBackupType);
            },
        };
        request.generate_name_if_empty(now);
        if self.backup_in_progress() {
            return Err(BackupError::OperationInProgress);
        }
        if self.next_backup_id >= i32::MAX {
            return Err(BackupError::CatalogFull);
        }
        let name = match &request.name {
            Some(n) => n.clone(),
            None => String::new(),
        };
        assert(name@ == backup_name_text(asked, *now));
        let compress = request.get_compress();
        let id = self.next_backup_id;
        let row = BackupMetadata {
            id,
            name: name.clone(),
            description: request.description,
            backup_type: kind,
            status: BackupStatus::Pending,
            file_path: None,
            file_size: None,
            created_by_id: Some(admin_id),
            created_by: admin_email.to_string(),
            created_at: *now,
            completed_at: None,
            error_message: None,
            compressed: Some(compress),
        };
        let ghost before = self.backups@;
        self.backups.push(row);
        self.next_backup_id = id + 1;
        assert(self.backups@.drop_last() =~= before);
        let entry = BackupOperationStatus {
            operation_id: operation_id.clone(),
            operation_type: OperationType::Create,
            status: BackupStatus::Pending,
            progress: Some(0),
            description: Some("Creating backup: ".to_string().concat(name.as_str())),
            started_at: *now,
            estimated_completion: add_minutes(now, 5),
            error_message: None,
        };
        self.operations.put(entry);
        Ok(BackupJob { operation_id, backup_id: id, backup_name: name, backup_type: kind, compress })
    }

    /// Accepts or turns down a request for a backup, as `create_backup_as`
    /// does, under an operation id made for the occasion.
    pub fn create_backup(
        &mut self,
        admin_id: i32,
        admin_email: &str,
        request: CreateBackupRequest,
        now: &Timestamp,
    ) -> (outcome: Result<BackupJob, BackupError>)
        requires
            old(self).wf(),
            now.wf(),
        ensures
            final(self).wf(),
            match old(self).admission(request) {
                Ok(_) => outcome matches Ok(job) && old(self).accepted(
                    final(self),
                    admin_id,
                    admin_email@,
                    request,
                    *now,
                    job,
                ),
                Err(e) => outcome == Err::<BackupJob, BackupError>(e) && *final(self) == *old(self),
            },
    {
        let operation_id = fresh_operation_id();
        self.create_backup_as(admin_id, admin_email, request, now, operation_id)
    }

    /// The status of the operation `operation_id`, if the engine knows of it.
    pub fn get_operation_status(&self, operation_id: &str) -> (status: Option<
        BackupOperationStatus,
    >)
        requires
            self.wf(),
        ensures
            status is Some <==> self.operations().contains_key(operation_id@),
            status matches Some(s) ==> s == self.operations()[operation_id@],
    {
        self.operations.get(operation_id)
    }

    /// Every operation the engine knows of, each once, in no particular order.
    pub fn list_operations(&self) -> (all: Vec<BackupOperationStatus>)
        requires
            self.wf(),
        ensures
            crate::registry::distinct_ids(all@),
            crate::registry::entries_map(all@) == self.operations(),
    {
        self.operations.list()
    }
}

impl BackupService {
    fn backup_position(&self, backup_id: i32) -> (found: Option<usize>)
        ensures
            found matches Some(i) ==> i < self.backups@.len() && self.backups@[i as int].id
                == backup_id,
            found is None ==> forall|i: int|
                0 <= i < self.backups@.len() ==> (#[trigger] self.backups@[i]).id != backup_id,
    {
        let mut i: usize = 0;
        while i < self.backups.len()
            invariant
                i <= self.backups@.len(),
                forall|k: int| 0 <= k < i ==> (#[trigger] self.backups@[k]).id != backup_id,
            decreases self.backups@.len() - i,
        {
            if self.backups[i].id == backup_id {
                return Some(i);
            }
            i = i + 1;
        }
        None
    }

    /// The status of the backup `backup_id`, if the catalog holds it.
    pub fn backup_status(&self, backup_id: i32) -> (status: Option<BackupStatus>)
        requires
            self.wf(),
        ensures
            status == status_of(self.backups(), backup_id),
    {
        match self.backup_position(backup_id) {
            Some(i) => {
                assert(position_of(self.backups@, backup_id) == i);
                Some(self.backups[i].status)
            },
            None => None,
        }
    }

    /// Whether between `self` and `after` nothing has changed but the
    /// catalog's backups and the operations.
    pub open spec fn same_otherwise(&self, after: &BackupService) -> bool {
        &&& after.schedules() == self.schedules()
        &&& after.next_backup_id() == self.next_backup_id()
        &&& after.next_schedule_id() == self.next_schedule_id()
    }

    /// Whether the catalog of `after` is that of `self` with `change` made
    /// to the backup `backup_id`.
    pub open spec fn row_changed(
        &self,
        after: &BackupService,
        backup_id: i32,
        change: spec_fn(BackupMetadata) -> BackupMetadata,
    ) -> bool {
        after.backups() == self.backups().map_values(
            |row: BackupMetadata|
                if row.id == backup_id {
                    change(row)
                } else {
                    row
                },
        )
    }

    /// Whether the operations of `after` are those of `self` with the
    /// given fields of the operation `id` replaced, where the step was
    /// applied, and those of `self` where it was not.
    pub open spec fn operation_changed(
        &self,
        after: &BackupService,
        applied: bool,
        id: Seq<char>,
        status: Option<BackupStatus>,
        progress: Option<i32>,
        description: Option<Seq<char>>,
        error_message: Option<Seq<char>>,
    ) -> bool {
        if applied {
            progressed(
                self.operations(),
                after.operations(),
                id,
                status,
                progress,
                description,
                error_message,
            )
        } else {
            after.operations() == self.operations()
        }
    }

    /// The record of the backup `backup_id`, if the catalog holds it.
    pub fn get_backup(&self, backup_id: i32) -> (row: Option<BackupMetadata>)
        requires
            self.wf(),
        ensures
            row is Some <==> holds(self.backups(), backup_id),
            row matches Some(r) ==> r == self.backups()[position_of(self.backups(), backup_id)],
    {
        match self.backup_position(backup_id) {
            Some(i) => {
                assert(position_of(self.backups@, backup_id) == i);
                Some(self.backups[i].clone())
            },
            None => None,
        }
    }

    /// The background task takes the backup up: where it is pending, it is
    /// running from now on and its operation is running at progress 10.
    /// Where the backup is not pending, nothing changes.
    pub open spec fn start_step(&self, after: &BackupService, job: BackupJob, applied: bool) -> bool {
        &&& applied == (status_of(self.backups(), job.backup_id) == Some(BackupStatus::Pending))
        &&& self.row_changed(after, job.backup_id, |row: BackupMetadata| started(row))
        &&& self.operation_changed(
            after,
            applied,
            job.operation_id@,
            Some(BackupStatus::Running),
            Some(10i32),
            None,
            None,
        )
        &&& self.same_otherwise(after)
    }

    /// The dump begins: where the backup is running, its operation stands
    /// at progress 30 and says that the database is being dumped. The
    /// catalog stays as it is.
    pub open spec fn dump_step(&self, after: &BackupService, job: BackupJob, applied: bool) -> bool {
        &&& applied == (status_of(self.backups(), job.backup_id) == Some(BackupStatus::Running))
        &&& after.backups() == self.backups()
        &&& self.operation_changed(
            after,
            applied,
            job.operation_id@,
            None,
            Some(30i32),
            Some("Dumping database..."@),
            None,
        )
        &&& self.same_otherwise(after)
    }

    /// The backup fails with `message`: where it is pending or running, it
    /// has failed from now on, and so has its operation, both with the
    /// message. Where the backup is over or unknown, nothing changes.
    pub open spec fn fail_step(
        &self,
        after: &BackupService,
        job: BackupJob,
        message: String,
        applied: bool,
    ) -> bool {
        &&& applied == (status_of(self.backups(), job.backup_id) matches Some(s) && s.is_active())
        &&& self.row_changed(after, job.backup_id, |row: BackupMetadata| failed(row, message))
        &&& self.operation_changed(
            after,
            applied,
            job.operation_id@,
            Some(BackupStatus::Failed),
            None,
            None,
            Some(message@),
        )
        &&& self.same_otherwise(after)
    }

    /// The dump has succeeded: where the backup is running, its operation
    /// stands at progress 90 and says that the backup is being finalized.
    /// The catalog stays as it is.
    pub open spec fn finalize_step(&self, after: &BackupService, job: BackupJob, applied: bool) -> bool {
        &&& applied == (status_of(self.backups(), job.backup_id) == Some(BackupStatus::Running))
        &&& after.backups() == self.backups()
        &&& self.operation_changed(
            after,
            applied,
            job.operation_id@,
            None,
            Some(90i32),
            Some("Finalizing backup..."@),
            None,
        )
        &&& self.same_otherwise(after)
    }

    /// The backup's file is written: where the backup is running, it has
    /// completed from now on, with the file's path and size and the time,
    /// its operation has completed at progress 100, and the audit entry
    /// comes back. Where the backup is not running, nothing changes and no
    /// entry comes back.
    pub open spec fn complete_step(
        &self,
        after: &BackupService,
        job: BackupJob,
        file_path: String,
        file_size: i64,
        now: Timestamp,
        audit: Option<BackupAudit>,
    ) -> bool {
        &&& audit is Some <==> status_of(self.backups(), job.backup_id) == Some(
            BackupStatus::Running,
        )
        &&& audit matches Some(entry) ==> entry.backup_id == job.backup_id && entry.backup_name
            == job.backup_name && entry.file_size == file_size && entry.backup_type
            == job.backup_type && entry.compressed == job.compress
        &&& self.row_changed(
            after,
            job.backup_id,
            |row: BackupMetadata| completed(row, file_path, file_size, now),
        )
        &&& self.operation_changed(
            after,
            audit is Some,
            job.operation_id@,
            Some(BackupStatus::Completed),
            Some(100i32),
            Some("Backup completed successfully"@),
            None,
        )
        &&& self.same_otherwise(after)
    }

    /// Takes the backup up, as `start_step` says.
    pub fn start_backup(&mut self, job: &BackupJob) -> (applied: bool)
        requires
            old(self).wf(),
        ensures
            final(self).wf(),
            forward_only(old(self).backups(), final(self).backups()),
            old(self).start_step(final(self), *job, applied),
    {
        let ghost before = self.backups@;
        let ghost step = |row: BackupMetadata| started(row);
        let ghost change = |row: BackupMetadata|
            if row.id == job.backup_id {
                step(row)
            } else {
                row
            };
        let status = self.backup_status(job.backup_id);
        match self.backup_position(job.backup_id) {
            Some(i) => {
                if self.backups[i].status == BackupStatus::Pending {
                    let mut row = self.backups[i].clone();
                    row.status = BackupStatus::Running;
                    self.backups.set(i, row);
                    assert(self.backups@ =~= before.map_values(change));
                    self.operations.update(
                        job.operation_id.as_str(),
                        OperationUpdate {
                            status: Some(BackupStatus::Running),
                            progress: Some(10),
                            description: None,
                            error_message: None,
                        },
                    );
                    true
                } else {
                    assert(self.backups@ =~= before.map_values(change));
                    false
                }
            },
            None => {
                assert(self.backups@ =~= before.map_values(change));
                false
            },
        }
    }

    /// Begins the dump, as `dump_step` says.
    pub fn begin_dump(&mut self, job: &BackupJob) -> (applied: bool)
        requires
            old(self).wf(),
        ensures
            final(self).wf(),
            forward_only(old(self).backups(), final(self).backups()),
            old(self).dump_step(final(self), *job, applied),
    {
        match self.backup_status(job.backup_id) {
            Some(BackupStatus::Running) => {
                self.operations.update(
                    job.operation_id.as_str(),
                    OperationUpdate {
                        status: None,
                        progress: Some(30),
                        description: Some("Dumping database...".to_string()),
                        error_message: None,
                    },
                );
                true
            },
            _ => false,
        }
    }

    /// Lets the backup fail with `message`, as `fail_step` says.
    pub fn fail_backup(&mut self, job: &BackupJob, message: String) -> (applied: bool)
        requires
            old(self).wf(),
        ensures
            final(self).wf(),
            forward_only(old(self).backups(), final(self).backups()),
            old(self).fail_step(final(self), *job, message, applied),
    {
        let ghost before = self.backups@;
        let ghost step = |row: BackupMetadata| failed(row, message);
        let ghost change = |row: BackupMetadata|
            if row.id == job.backup_id {
                step(row)
            } else {
                row
            };
        let status = self.backup_status(job.backup_id);
        match self.backup_position(job.backup_id) {
            Some(i) => {
                if self.backups[i].is_running() {
                    let mut row = self.backups[i].clone();
                    row.status = BackupStatus::Failed;
                    row.error_message = Some(message.clone());
                    self.backups.set(i, row);
                    assert(self.backups@ =~= before.map_values(change));
                    self.operations.update(
                        job.operation_id.as_str(),
                        OperationUpdate {
                            status: Some(BackupStatus::Failed),
                            progress: None,
                            description: None,
                            error_message: Some(message),
                        },
                    );
                    true
                } else {
                    assert(self.backups@ =~= before.map_values(change));
                    false
                }
            },
            None => {
                assert(self.backups@ =~= before.map_values(change));
                false
            },
        }
    }

    /// Begins to finalize the backup, as `finalize_step` says.
    pub fn begin_finalize(&mut self, job: &BackupJob) -> (applied: bool)
        requires
            old(self).wf(),
        ensures
            final(self).wf(),
            forward_only(old(self).backups(), final(self).backups()),
            old(self).finalize_step(final(self), *job, applied),
    {
        match self.backup_status(job.backup_id) {
            Some(BackupStatus::Running) => {
                self.operations.update(
                    job.operation_id.as_str(),
                    OperationUpdate {
                        status: None,
                        progress: Some(90),
                        description: Some("Finalizing backup...".to_string()),
                        error_message: None,
                    },
                );
                true
            },
            _ => false,
        }
    }

    /// Completes the backup, as `complete_step` says.
    pub fn complete_backup(
        &mut self,
        job: &BackupJob,
        file_path: String,
        file_size: i64,
        now: &Timestamp,
    ) -> (audit: Option<BackupAudit>)
        requires
            old(self).wf(),
            now.wf(),
        ensures
            final(self).wf(),
            forward_only(old(self).backups(), final(self).backups()),
            old(self).complete_step(final(self), *job, file_path, file_size, *now, audit),
    {
        let ghost before = self.backups@;
        let ghost step = |row: BackupMetadata| completed(row, file_path, file_size, *now);
        let ghost change = |row: BackupMetadata|
            if row.id == job.backup_id {
                step(row)
            } else {
                row
            };
        let status = self.backup_status(job.backup_id);
        match self.backup_position(job.backup_id) {
            Some(i) => {
                if self.backups[i].status == BackupStatus::Running {
                    let mut row = self.backups[i].clone();
                    row.status = BackupStatus::Completed;
                    row.file_path = Some(file_path);
                    row.file_size = Some(file_size);
                    row.completed_at = Some(*now);
                    self.backups.set(i, row);
                    assert(self.backups@ =~= before.map_values(change));
                    self.operations.update(
                        job.operation_id.as_str(),
                        OperationUpdate {
                            status: Some(BackupStatus::Completed),
                            progress: Some(100),
                            description: Some("Backup completed successfully".to_string()),
                            error_message: None,
                        },
                    );
                    Some(
                        BackupAudit {
                            backup_id: job.backup_id,
                            backup_name: job.backup_name.clone(),
                            file_size,
                            backup_type: job.backup_type,
                            compressed: job.compress,
                        },
                    )
                } else {
                    assert(self.backups@ =~= before.map_values(change));
                    None
                }
            },
            None => {
                assert(self.backups@ =~= before.map_values(change));
                None
            },
        }
    }
}

impl BackupService {
    /// Whether `after` and `action` are what becomes of `self` and what is
    /// to be done next once the background task of `job` has reported
    /// `event`.
    ///
    /// A job that is taken up starts and asks for its directory. With the
    /// directory there the dump begins, or the backup fails where the
    /// database URL is none. A dump that has ended well is to be measured;
    /// one that has not lets the backup fail with what went wrong. A file
    /// that is measured completes the backup and asks for the audit entry.
    /// A failure outside the engine lets the backup fail. A report that
    /// does not fit the state of the backup changes nothing and stops the task.
    pub open spec fn advanced(
        &self,
        after: &BackupService,
        job: BackupJob,
        event: BackupEvent,
        database_url: Seq<char>,
        now: Timestamp,
        action: BackupAction,
    ) -> bool {
        let pending = status_of(self.backups(), job.backup_id) == Some(BackupStatus::Pending);
        let running = status_of(self.backups(), job.backup_id) == Some(BackupStatus::Running);
        match event {
            BackupEvent::Started => {
                &&& self.start_step(after, job, pending)
                &&& action == if pending {
                    BackupAction::CreateDirectory
                } else {
                    BackupAction::Stop
                }
            },
            BackupEvent::DirectoryReady => match url_parts(database_url) {
                Some(parts) => {
                    &&& self.dump_step(after, job, running)
                    &&& if running {
                        action matches BackupAction::RunDump(command) && is_dump_plan(
                            command,
                            parts,
                            job.backup_name@,
                            job.backup_type,
                            job.compress,
                            now,
                        )
                    } else {
                        action == BackupAction::Stop
                    }
                },
                None => {
                    &&& action == BackupAction::Stop
                    &&& exists|message: String|
                        (#[trigger] message@) == INVALID_DATABASE_URL@ && self.fail_step(
                            after,
                            job,
                            message,
                            pending || running,
                        )
                },
            },
            BackupEvent::DumpFinished { pg_dump, gzip } => match dump_failure(pg_dump, gzip) {
                None => {
                    &&& self.finalize_step(after, job, running)
                    &&& action == if running {
                        BackupAction::MeasureFile
                    } else {
                        BackupAction::Stop
                    }
                },
                Some(reason) => {
                    &&& action == BackupAction::Stop
                    &&& exists|message: String|
                        (#[trigger] message@) == reason && self.fail_step(
                            after,
                            job,
                            message,
                            pending || running,
                        )
                },
            },
            BackupEvent::FileMeasured { file_path, file_size } => {
                if running {
                    action matches BackupAction::WriteAudit(entry) && self.complete_step(
                        after,
                        job,
                        file_path,
                        file_size,
                        now,
                        Some(entry),
                    )
                } else {
                    action == BackupAction::Stop && self.complete_step(
                        after,
                        job,
                        file_path,
                        file_size,
                        now,
                        None,
                    )
                }
            },
            BackupEvent::Failed { message } => {
                &&& action == BackupAction::Stop
                &&& self.fail_step(after, job, message, pending || running)
            },
        }
    }

    /// Takes the report `event` of the background task of `job`, moves the
    /// backup on accordingly and says what the task is to do next.
    pub fn advance(
        &mut self,
        job: &BackupJob,
        event: BackupEvent,
        database_url: &str,
        now: &Timestamp,
    ) -> (action: BackupAction)
        requires
            old(self).wf(),
            now.wf(),
        ensures
            final(self).wf(),
            forward_only(old(self).backups(), final(self).backups()),
            old(self).advanced(final(self), *job, event, database_url@, *now, action),
    {
        match event {
            BackupEvent::Started => {
                if self.start_backup(job) {
                    BackupAction::CreateDirectory
                } else {
                    BackupAction::Stop
                }
            },
            BackupEvent::DirectoryReady => {
                match plan_dump(
                    job.backup_name.as_str(),
                    job.backup_type,
                    job.compress,
                    database_url,
                    now,
                ) {
                    Some(command) => {
                        if self.begin_dump(job) {
                            BackupAction::RunDump(command)
                        } else {
                            BackupAction::Stop
                        }
                    },
                    None => {
                        let message = INVALID_DATABASE_URL.to_string();
                        let _ = self.fail_backup(job, message);
                        BackupAction::Stop
                    },
                }
            },
            BackupEvent::DumpFinished { pg_dump, gzip } => {
                let verdict = match &gzip {
                    Some(g) => dump_verdict(&pg_dump, Some(g)),
                    None => dump_verdict(&pg_dump, None),
                };
                match verdict {
                    Ok(_) => {
                        if self.begin_finalize(job) {
                            BackupAction::MeasureFile
                        } else {
                            BackupAction::Stop
                        }
                    },
                    Err(message) => {
                        let _ = self.fail_backup(job, message);
                        BackupAction::Stop
                    },
                }
            },
            BackupEvent::FileMeasured { file_path, file_size } => {
                match self.complete_backup(job, file_path, file_size, now) {
                    Some(entry) => BackupAction::WriteAudit(entry),
                    None => BackupAction::Stop,
                }
            },
            BackupEvent::Failed { message } => {
                let _ = self.fail_backup(job, message);
                BackupAction::Stop
            },
        }
    }
}

/// A pending backup whose background task reports, in turn, that it has
/// taken the job up, that the directory is there, that the dump has ended
/// well and that the file is measured, has completed, with the file
/// recorded; and its operation, if the engine knows it, has completed at
/// progress 100.
pub proof fn lemma_backup_completes(
    s0: BackupService,
    s1: BackupService,
    s2: BackupService,
    s3: BackupService,
    s4: BackupService,
    job: BackupJob,
    database_url: Seq<char>,
    pg_dump: ProcessReport,
    gzip: Option<ProcessReport>,
    file_path: String,
    file_size: i64,
    now: Timestamp,
    a1: BackupAction,
    a2: BackupAction,
    a3: BackupAction,
    a4: BackupAction,
)
    requires
        s0.wf(),
        s1.wf(),
        s2.wf(),
        s3.wf(),
        status_of(s0.backups(), job.backup_id) == Some(BackupStatus::Pending),
        url_parts(database_url) is Some,
        dump_failure(pg_dump, gzip) is None,
        s0.advanced(&s1, job, BackupEvent::Started, database_url, now, a1),
        s1.advanced(&s2, job, BackupEvent::DirectoryReady, database_url, now, a2),
        s2.advanced(&s3, job, BackupEvent::DumpFinished { pg_dump, gzip }, database_url, now, a3),
        s3.advanced(
            &s4,
            job,
            BackupEvent::FileMeasured { file_path, file_size },
            database_url,
            now,
            a4,
        ),
    ensures
        a1 == BackupAction::CreateDirectory,
        a2 is RunDump,
        a3 == BackupAction::MeasureFile,
        a4 is WriteAudit,
        holds(s4.backups(), job.backup_id),
        s4.backups()[position_of(s4.backups(), job.backup_id)] == (BackupMetadata {
            status: BackupStatus::Completed,
            file_path: Some(file_path),
            file_size: Some(file_size),
            completed_at: Some(now),
            ..s0.backups()[position_of(s0.backups(), job.backup_id)]
        }),
        s0.operations().contains_key(job.operation_id@) ==> s4.operations().contains_key(
            job.operation_id@,
        ) && s4.operations()[job.operation_id@].status == BackupStatus::Completed
            && s4.operations()[job.operation_id@].progress == Some(100i32),
{
    s0.lemma_wf();
    s1.lemma_wf();
    s2.lemma_wf();
    s3.lemma_wf();
    let id = job.backup_id;
    let place = position_of(s0.backups(), id);
    assert(s1.backups()[place].id == id);
    assert(s1.backups()[place].status == BackupStatus::Running);
    lemma_status_at(s1.backups(), s1.next_backup_id(), id, place);
    assert(s2.backups() == s1.backups());
    assert(s3.backups() == s2.backups());
    lemma_status_at(s3.backups(), s3.next_backup_id(), id, place);
    assert(s4.backups()[place].id == id);
    assert(s4.backups()[place].status == BackupStatus::Completed);
    assert(s4.backups().len() == s0.backups().len());
    assert forall|i: int| 0 <= i < s4.backups().len() && (#[trigger] s4.backups()[i]).id
        == id implies i == place by {
        assert(s3.backups()[i].id == id);
    }
}

/// In a well-formed catalog, the backup that stands at `place` under
/// `backup_id` is the one that `position_of` finds.
pub proof fn lemma_status_at(rows: Seq<BackupMetadata>, next_id: int, backup_id: i32, place: int)
    requires
        catalog_wf(rows, next_id),
        0 <= place < rows.len(),
        rows[place].id == backup_id,
    ensures
        holds(rows, backup_id),
        position_of(rows, backup_id) == place,
        status_of(rows, backup_id) == Some(rows[place].status),
{
}

/// A backup that has failed is never completed: a file that is reported
/// for it afterwards changes nothing and brings no audit entry.
pub proof fn lemma_no_completion_after_failure(
    before: BackupService,
    after: BackupService,
    job: BackupJob,
    file_path: String,
    file_size: i64,
    now: Timestamp,
    audit: Option<BackupAudit>,
)
    requires
        before.wf(),
        status_of(before.backups(), job.backup_id) == Some(BackupStatus::Failed),
        before.complete_step(&after, job, file_path, file_size, now, audit),
    ensures
        audit is None,
        after.backups() == before.backups(),
        after.operations() == before.operations(),
{
    before.lemma_wf();
    let rows = before.backups();
    let place = position_of(rows, job.backup_id);
    assert forall|i: int| 0 <= i < rows.len() && (#[trigger] rows[i]).id == job.backup_id implies i
        == place by {}
    assert(after.backups() =~= rows);
}

/// Once a request for a backup has been accepted, the next one is turned
/// down: whatever it asks for, and for as long as the accepted backup is
/// pending, it is told that another operation is in progress (or that its
/// type is no backup type).
pub proof fn lemma_second_request_refused(
    before: BackupService,
    after: BackupService,
    admin_id: i32,
    admin_email: Seq<char>,
    request: CreateBackupRequest,
    now: Timestamp,
    job: BackupJob,
    next_request: CreateBackupRequest,
)
    requires
        before.accepted(&after, admin_id, admin_email, request, now, job),
    ensures
        after.admission(next_request) is Err,
        BackupType::from_text(next_request.backup_type_text()) is Some ==> after.admission(
            next_request,
        ) == Err::<BackupType, BackupError>(BackupError::OperationInProgress),
        after.restoration(RestoreBackupRequest {
            backup_id: job.backup_id,
            drop_existing_tables: None,
            create_pre_restore_backup: None,
        }) is Err,
{
    let rows = after.backups();
    assert(rows[rows.len() - 1].status.is_active());
}

impl BackupService {
    /// What becomes of a request to restore: the place in the catalog of
    /// the backup to restore from, or why the request is turned down. A
    /// backup under way is found first, then a backup that is not there or
    /// has not completed.
    pub open spec fn restoration(&self, request: RestoreBackupRequest) -> Result<int, BackupError> {
        if has_active(self.backups()) {
            Err(BackupError::OperationInProgress)
        } else if status_of(self.backups(), request.backup_id) != Some(BackupStatus::Completed) {
            Err(BackupError::BackupNotCompleted)
        } else {
            Ok(position_of(self.backups(), request.backup_id))
        }
    }

    /// Accepts or turns down a request to restore from a backup,
    /// registering the operation under `operation_id` where it accepts: as
    /// pending, at progress 0. The restore itself is the caller's to carry
    /// out; the engine never marks it as done. The catalog stays as it is
    /// either way.
    pub fn restore_backup_as(
        &mut self,
        request: RestoreBackupRequest,
        now: &Timestamp,
        operation_id: String,
    ) -> (outcome: Result<RestoreJob, BackupError>)
        requires
            old(self).wf(),
            now.wf(),
        ensures
            final(self).wf(),
            final(self).backups() == old(self).backups(),
            final(self).schedules() == old(self).schedules(),
            final(self).next_backup_id() == old(self).next_backup_id(),
            final(self).next_schedule_id() == old(self).next_schedule_id(),
            match old(self).restoration(request) {
                Ok(place) => {
                    &&& outcome matches Ok(job)
                    &&& job.operation_id == operation_id
                    &&& job.backup_id == request.backup_id
                    &&& job.backup_name == old(self).backups()[place].name
                    &&& job.drop_existing_tables == match request.drop_existing_tables {
                        Some(d) => d,
                        None => false,
                    }
                    &&& job.create_pre_restore_backup == match request.create_pre_restore_backup {
                        Some(b) => b,
                        None => true,
                    }
                    &&& final(self).operations().contains_key(operation_id@)
                    &&& final(self).operations() == old(self).operations().insert(
                        operation_id@,
                        final(self).operations()[operation_id@],
                    )
                    &&& is_new_operation(
                        final(self).operations()[operation_id@],
                        operation_id@,
                        OperationType::Restore,
                        "Restoring backup: "@ + old(self).backups()[place].name@,
                        10,
                        *now,
                    )
                },
                Err(e) => outcome == Err::<RestoreJob, BackupError>(e) && final(self).operations()
                    == old(self).operations(),
            },
    {
        if self.backup_in_progress() {
            return Err(BackupError::OperationInProgress);
        }
        let status = self.backup_status(request.backup_id);
        let place = match self.backup_position(request.backup_id) {
            Some(i) => i,
            None => {
                return Err(BackupError::BackupNotCompleted);
            },
        };
        assert(position_of(self.backups@, request.backup_id) == place);
        if !self.backups[place].is_completed() {
            return Err(BackupError::BackupNotCompleted);
        }
        let name = self.backups[place].name.clone();
        let entry = BackupOperationStatus {
            operation_id: operation_id.clone(),
            operation_type: OperationType::Restore,
            status: BackupStatus::Pending,
            progress: Some(0),
            description: Some("Restoring backup: ".to_string().concat(name.as_str())),
            started_at: *now,
            estimated_completion: add_minutes(now, 10),
            error_message: None,
        };
        self.operations.put(entry);
        Ok(
            RestoreJob {
                operation_id,
                backup_id: request.backup_id,
                backup_name: name,
                drop_existing_tables: request.get_drop_existing_tables(),
                create_pre_restore_backup: request.get_create_pre_restore_backup(),
            },
        )
    }

    /// Accepts or turns down a request to restore, as `restore_backup_as`
    /// does, under an operation id made for the occasion.
    pub fn restore_backup(&mut self, request: RestoreBackupRequest, now: &Timestamp) -> (outcome:
        Result<RestoreJob, BackupError>)
        requires
            old(self).wf(),
            now.wf(),
        ensures
            final(self).wf(),
            final(self).backups() == old(self).backups(),
            final(self).schedules() == old(self).schedules(),
            final(self).next_backup_id() == old(self).next_backup_id(),
            final(self).next_schedule_id() == old(self).next_schedule_id(),
            match old(self).restoration(request) {
                Ok(place) => {
                    &&& outcome matches Ok(job)
                    &&& job.backup_id == request.backup_id
                    &&& job.backup_name == old(self).backups()[place].name
                    &&& job.drop_existing_tables == match request.drop_existing_tables {
                        Some(d) => d,
                        None => false,
                    }
                    &&& job.create_pre_restore_backup == match request.create_pre_restore_backup {
                        Some(b) => b,
                        None => true,
                    }
                    &&& final(self).operations().contains_key(job.operation_id@)
                    &&& final(self).operations() == old(self).operations().insert(
                        job.operation_id@,
                        final(self).operations()[job.operation_id@],
                    )
                    &&& is_new_operation(
                        final(self).operations()[job.operation_id@],
                        job.operation_id@,
                        OperationType::Restore,
                        "Restoring backup: "@ + old(self).backups()[place].name@,
                        10,
                        *now,
                    )
                },
                Err(e) => outcome == Err::<RestoreJob, BackupError>(e) && final(self).operations()
                    == old(self).operations(),
            },
    {
        let operation_id = fresh_operation_id();
        self.restore_backup_as(request, now, operation_id)
    }

    /// Takes a backup out of the catalog. A backup that is not there cannot
    /// be deleted, nor one that is pending or running; either request
    /// leaves the engine as it was. What comes back names the file that the
    /// caller is to remove.
    pub fn delete_backup(&mut self, admin_id: i32, request: DeleteBackupRequest) -> (outcome:
        Result<DeletedBackup, BackupError>)
        requires
            old(self).wf(),
        ensures
            final(self).wf(),
            final(self).operations() == old(self).operations(),
            final(self).schedules() == old(self).schedules(),
            final(self).next_backup_id() == old(self).next_backup_id(),
            final(self).next_schedule_id() == old(self).next_schedule_id(),
            match status_of(old(self).backups(), request.backup_id) {
                None => outcome == Err::<DeletedBackup, BackupError>(BackupError::BackupNotFound)
                    && final(self).backups() == old(self).backups(),
                Some(status) => if status.is_active() {
                    outcome == Err::<DeletedBackup, BackupError>(BackupError::BackupRunning)
                        && final(self).backups() == old(self).backups()
                } else {
                    let place = position_of(old(self).backups(), request.backup_id);
                    &&& outcome matches Ok(deleted)
                    &&& deleted.backup_id == request.backup_id
                    &&& deleted.backup_name == old(self).backups()[place].name
                    &&& deleted.file_path == old(self).backups()[place].file_path
                    &&& deleted.deleted_by == admin_id
                    &&& final(self).backups() == old(self).backups().remove(place)
                    &&& !holds(final(self).backups(), request.backup_id)
                },
            },
    {
        let status = self.backup_status(request.backup_id);
        let place = match self.backup_position(request.backup_id) {
            Some(i) => i,
            None => {
                return Err(BackupError::BackupNotFound);
            },
        };
        assert(position_of(self.backups@, request.backup_id) == place);
        if self.backups[place].is_running() {
            return Err(BackupError::BackupRunning);
        }
        let row = self.backups.remove(place);
        Ok(
            DeletedBackup {
                backup_id: request.backup_id,
                backup_name: row.name,
                file_path: row.file_path,
                deleted_by: admin_id,
            },
        )
    }

    /// Where the file of a completed backup lies.
    pub fn get_backup_file_path(&self, backup_id: i32) -> (path: Result<String, BackupError>)
        requires
            self.wf(),
        ensures
            match status_of(self.backups(), backup_id) {
                Some(BackupStatus::Completed) => match self.backups()[position_of(
                    self.backups(),
                    backup_id,
                )].file_path {
                    Some(p) => path == Ok::<String, BackupError>(p),
                    None => path == Err::<String, BackupError>(BackupError::FilePathUnavailable),
                },
                _ => path == Err::<String, BackupError>(BackupError::BackupNotCompleted),
            },
    {
        let status = self.backup_status(backup_id);
        let place = match self.backup_position(backup_id) {
            Some(i) => i,
            None => {
                return Err(BackupError::BackupNotCompleted);
            },
        };
        assert(position_of(self.backups@, backup_id) == place);
        if !self.backups[place].is_completed() {
            return Err(BackupError::BackupNotCompleted);
        }
        match &self.backups[place].file_path {
            Some(p) => Ok(p.clone()),
            None => Err(BackupError::FilePathUnavailable),
        }
    }
}

/// The text of a filter's name, if one is given.
pub open spec fn filter_text(filter: Option<String>) -> Option<Seq<char>> {
    match filter {
        Some(f) => Some(f@),
        None => None,
    }
}

/// Whether `schedule` is the schedule that `request` asks for, made by
/// `admin_id` at the time `now` under `id`.
pub open spec fn is_new_schedule(
    schedule: BackupSchedule,
    id: int,
    admin_id: i32,
    request: CreateScheduleRequest,
    now: Timestamp,
) -> bool {
    &&& schedule.id == id
    &&& schedule.name == request.name
    &&& Some(schedule.frequency) == Frequency::from_text(request.frequency@)
    &&& Some(schedule.schedule_time) == schedule_time_of(request.schedule_time@)
    &&& schedule.schedule_day == request.schedule_day
    &&& schedule.schedule_date == request.schedule_date
    &&& schedule.retention_count == match request.retention_count {
        Some(c) => c,
        None => 7,
    }
    &&& schedule.enabled == match request.enabled {
        Some(e) => e,
        None => true,
    }
    &&& schedule.last_run_at is None
    &&& schedule.is_next_run(now, schedule.next_run_at)
    &&& schedule.last_backup_id is None
    &&& schedule.created_by_id == admin_id
    &&& schedule.created_at == now
    &&& schedule.updated_at == now
}

/// Whether the schedules `rows` hold one under `schedule_id`.
pub open spec fn holds_schedule(rows: Seq<BackupSchedule>, schedule_id: i32) -> bool {
    exists|i: int| 0 <= i < rows.len() && (#[trigger] rows[i]).id == schedule_id
}

/// Where in `rows` the schedule `schedule_id` stands, if it is there.
pub open spec fn schedule_position(rows: Seq<BackupSchedule>, schedule_id: i32) -> int {
    choose|i: int| 0 <= i < rows.len() && (#[trigger] rows[i]).id == schedule_id
}

impl BackupService {
    /// One page of the backups that `filter` lets through at the time
    /// `now`, newest first, with the count of all that it lets through.
    pub fn list_backups(
        &self,
        pagination: AdminPaginationQuery,
        filter: Option<String>,
        now: &Timestamp,
    ) -> (response: BackupListResponse)
        requires
            self.wf(),
            now.wf(),
        ensures
            response.backups@ == page_of(
                listed(self.backups(), BackupFilter::from_text(filter_text(filter)), *now),
                pagination,
            ),
            response.total_count == clamped(
                listed(self.backups(), BackupFilter::from_text(filter_text(filter)), *now).len() as int,
            ),
            response.page == pagination.page_number(),
            response.limit == pagination.page_length(),
    {
        let chosen = match &filter {
            Some(f) => BackupFilter::parse(Some(f.as_str())),
            None => BackupFilter::parse(None),
        };
        let all = select_backups(&self.backups, chosen, now);
        paginate(&all, pagination)
    }

    /// Figures over the completed backups at the time `now`: how many there
    /// are, what they hold in all, on average and at most, when the newest
    /// was created and what that says of the backups' health, and how many
    /// backups to keep.
    pub fn get_backup_stats(&self, now: &Timestamp) -> (stats: BackupStatsResponse)
        requires
            self.wf(),
            now.wf(),
        ensures
            stats.total_backups == clamped(completed_count(self.backups())),
            stats.storage_used == clamped(total_size(self.backups())),
            stats.storage_total == STORAGE_TOTAL,
            stats.last_backup_time == latest_completed(self.backups()),
            stats.backup_status@ == health_text(hours_since_latest(self.backups(), *now)),
            stats.avg_backup_size == Some(clamped(average_size(self.backups())) as i64),
            stats.max_backup_size == Some(
                match largest_size(self.backups()) {
                    Some(m) => m as i64,
                    None => 0i64,
                },
            ),
            stats.retention_policy == retention_of(self.schedules()),
    {
        backup_stats(&self.backups, &self.schedules, now)
    }

    fn find_schedule(&self, schedule_id: i32) -> (found: Option<usize>)
        ensures
            found matches Some(i) ==> i < self.schedules@.len() && self.schedules@[i as int].id
                == schedule_id,
            found is None ==> forall|i: int|
                0 <= i < self.schedules@.len() ==> (#[trigger] self.schedules@[i]).id
                    != schedule_id,
    {
        let mut i: usize = 0;
        while i < self.schedules.len()
            invariant
                i <= self.schedules@.len(),
                forall|k: int| 0 <= k < i ==> (#[trigger] self.schedules@[k]).id != schedule_id,
            decreases self.schedules@.len() - i,
        {
            if self.schedules[i].id == schedule_id {
                return Some(i);
            }
            i = i + 1;
        }
        None
    }

    /// Every schedule, most recently created first.
    pub fn list_schedules(&self) -> (all: Vec<BackupSchedule>)
        ensures
            all@ == self.schedules(),
    {
        let mut all: Vec<BackupSchedule> = Vec::new();
        let mut i: usize = 0;
        while i < self.schedules.len()
            invariant
                i <= self.schedules@.len(),
                all@ == self.schedules@.subrange(0, i as int),
            decreases self.schedules@.len() - i,
        {
            all.push(self.schedules[i].clone());
            assert(all@ =~= self.schedules@.subrange(0, i + 1));
            i = i + 1;
        }
        assert(all@ =~= self.schedules@);
        all
    }

    /// The schedule `schedule_id`.
    pub fn get_schedule(&self, schedule_id: i32) -> (schedule: Result<BackupSchedule, ScheduleError>)
        requires
            self.wf(),
        ensures
            holds_schedule(self.schedules(), schedule_id) ==> schedule == Ok::<
                BackupSchedule,
                ScheduleError,
            >(self.schedules()[schedule_position(self.schedules(), schedule_id)]),
            !holds_schedule(self.schedules(), schedule_id) ==> schedule == Err::<
                BackupSchedule,
                ScheduleError,
            >(ScheduleError::NotFound),
    {
        match self.find_schedule(schedule_id) {
            Some(i) => {
                assert(schedule_position(self.schedules@, schedule_id) == i);
                Ok(self.schedules[i].clone())
            },
            None => Err(ScheduleError::NotFound),
        }
    }

    /// Records a new schedule and works out when it runs first, seen from
    /// `now`. The request is turned down, and nothing recorded, where its
    /// frequency and days do not go together, where its time of day cannot
    /// be read, and where no further schedule can be numbered: in that order.
    pub fn create_schedule(&mut self, admin_id: i32, request: CreateScheduleRequest, now: &Timestamp) -> (outcome:
        Result<i32, ScheduleError>)
        requires
            old(self).wf(),
            now.wf(),
        ensures
            final(self).wf(),
            final(self).backups() == old(self).backups(),
            final(self).operations() == old(self).operations(),
            final(self).next_backup_id() == old(self).next_backup_id(),
            match request.constraint_violation() {
                Some(reason) => outcome matches Err(ScheduleError::Validation(e)) && e@ == reason
                    && final(self).schedules() == old(self).schedules(),
                None => match schedule_time_of(request.schedule_time@) {
                    None => outcome matches Err(ScheduleError::TimeFormat(e)) && e@
                        == "Invalid time format. Use HH:MM format."@ && final(self).schedules()
                        == old(self).schedules(),
                    Some(_) => if old(self).next_schedule_id() >= i32::MAX {
                        outcome == Err::<i32, ScheduleError>(ScheduleError::CatalogFull) && final(self).schedules() == old(self).schedules()
                    } else {
                        &&& outcome == Ok::<i32, ScheduleError>(old(self).next_schedule_id() as i32)
                        &&& final(self).next_schedule_id() == old(self).next_schedule_id() + 1
                        &&& final(self).schedules().len() == old(self).schedules().len() + 1
                        &&& final(self).schedules().drop_first() == old(self).schedules()
                        &&& is_new_schedule(
                            final(self).schedules()[0],
                            old(self).next_schedule_id(),
                            admin_id,
                            request,
                            *now,
                        )
                    },
                },
            },
    {
        let frequency = match request.checked_frequency() {
            Ok(f) => f,
            Err(reason) => {
                return Err(ScheduleError::Validation(reason));
            },
        };
        let schedule_time = match request.parse_schedule_time() {
            Ok(t) => t,
            Err(reason) => {
                return Err(ScheduleError::TimeFormat(reason));
            },
        };
        if self.next_schedule_id >= i32::MAX {
            return Err(ScheduleError::CatalogFull);
        }
        let id = self.next_schedule_id;
        let retention_count = request.get_retention_count();
        let enabled = request.get_enabled();
        let mut schedule = BackupSchedule {
            id,
            name: request.name,
            frequency,
            schedule_time,
            schedule_day: request.schedule_day,
            schedule_date: request.schedule_date,
            retention_count,
            enabled,
            last_run_at: None,
            next_run_at: None,
            last_backup_id: None,
            created_by_id: admin_id,
            created_at: *now,
            updated_at: *now,
        };
        let next = schedule.calculate_next_run(now);
        let ghost bare = schedule;
        schedule.next_run_at = next;
        assert(schedule.next_run_day(*now) == bare.next_run_day(*now));
        let ghost before = self.schedules@;
        self.schedules.insert(0, schedule);
        self.next_schedule_id = id + 1;
        assert(self.schedules@.drop_first() =~= before);
        Ok(id)
    }

    /// Removes the schedule `schedule_id`; says whether there was one.
    pub fn delete_schedule(&mut self, schedule_id: i32) -> (removed: bool)
        requires
            old(self).wf(),
        ensures
            final(self).wf(),
            final(self).backups() == old(self).backups(),
            final(self).operations() == old(self).operations(),
            final(self).next_backup_id() == old(self).next_backup_id(),
            final(self).next_schedule_id() == old(self).next_schedule_id(),
            removed == holds_schedule(old(self).schedules(), schedule_id),
            removed ==> final(self).schedules() == old(self).schedules().remove(
                schedule_position(old(self).schedules(), schedule_id),
            ),
            !removed ==> final(self).schedules() == old(self).schedules(),
            !holds_schedule(final(self).schedules(), schedule_id),
    {
        match self.find_schedule(schedule_id) {
            Some(i) => {
                assert(schedule_position(self.schedules@, schedule_id) == i);
                let _ = self.schedules.remove(i);
                true
            },
            None => false,
        }
    }

    /// Switches the schedule `schedule_id` on or off as of `now`; says
    /// whether there is such a schedule.
    pub fn toggle_schedule(&mut self, schedule_id: i32, enabled: bool, now: &Timestamp) -> (found:
        bool)
        requires
            old(self).wf(),
        ensures
            final(self).wf(),
            final(self).backups() == old(self).backups(),
            final(self).operations() == old(self).operations(),
            final(self).next_backup_id() == old(self).next_backup_id(),
            final(self).next_schedule_id() == old(self).next_schedule_id(),
            found == holds_schedule(old(self).schedules(), schedule_id),
            final(self).schedules() == old(self).schedules().map_values(
                |schedule: BackupSchedule|
                    if schedule.id == schedule_id {
                        BackupSchedule { enabled, updated_at: *now, ..schedule }
                    } else {
                        schedule
                    },
            ),
    {
        let ghost before = self.schedules@;
        let ghost change = |schedule: BackupSchedule|
            if schedule.id == schedule_id {
                BackupSchedule { enabled, updated_at: *now, ..schedule }
            } else {
                schedule
            };
        match self.find_schedule(schedule_id) {
            Some(i) => {
                let mut schedule = self.schedules[i].clone();
                schedule.enabled = enabled;
                schedule.updated_at = *now;
                self.schedules.set(i, schedule);
                assert(self.schedules@ =~= before.map_values(change));
                true
            },
            None => {
                assert(self.schedules@ =~= before.map_values(change));
                false
            },
        }
    }

    /// Takes a backup that was recorded earlier into the catalog, as when
    /// the catalog is read back from where it is kept. A record that is not
    /// well formed, or whose id the catalog holds already or cannot count
    /// beyond, is not taken, and says so.
    pub fn load_backup(&mut self, row: BackupMetadata) -> (taken: bool)
        requires
            old(self).wf(),
        ensures
            final(self).wf(),
            final(self).schedules() == old(self).schedules(),
            final(self).operations() == old(self).operations(),
            final(self).next_schedule_id() == old(self).next_schedule_id(),
            taken == (row.wf() && row.id < i32::MAX && !holds(old(self).backups(), row.id)),
            taken ==> final(self).backups() == old(self).backups().push(row) && final(self).next_backup_id() == if row.id < old(self).next_backup_id() {
                old(self).next_backup_id()
            } else {
                row.id + 1
            },
            !taken ==> final(self).backups() == old(self).backups() && final(self).next_backup_id() == old(self).next_backup_id(),
    {
        if !row.is_valid() || row.id >= i32::MAX {
            return false;
        }
        match self.backup_position(row.id) {
            Some(_) => false,
            None => {
                if row.id >= self.next_backup_id {
                    self.next_backup_id = row.id + 1;
                }
                self.backups.push(row);
                true
            },
        }
    }

    /// Takes a schedule that was recorded earlier, as `load_backup` takes a
    /// backup; it comes to stand before the schedules taken so far.
    pub fn load_schedule(&mut self, schedule: BackupSchedule) -> (taken: bool)
        requires
            old(self).wf(),
        ensures
            final(self).wf(),
            final(self).backups() == old(self).backups(),
            final(self).operations() == old(self).operations(),
            final(self).next_backup_id() == old(self).next_backup_id(),
            taken == (schedule.wf() && schedule.id < i32::MAX && !holds_schedule(
                old(self).schedules(),
                schedule.id,
            )),
            taken ==> final(self).schedules() == old(self).schedules().insert(0, schedule)
                && final(self).next_schedule_id() == if schedule.id < old(self).next_schedule_id() {
                old(self).next_schedule_id()
            } else {
                schedule.id + 1
            },
            !taken ==> final(self).schedules() == old(self).schedules() && final(self).next_schedule_id() == old(self).next_schedule_id(),
    {
        if !schedule.is_valid() || schedule.id >= i32::MAX {
            return false;
        }
        match self.find_schedule(schedule.id) {
            Some(_) => false,
            None => {
                if schedule.id >= self.next_schedule_id {
                    self.next_schedule_id = schedule.id + 1;
                }
                self.schedules.insert(0, schedule);
                true
            },
        }
    }
}

} // verus!
