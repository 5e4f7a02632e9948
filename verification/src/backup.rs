//! Records of the backup engine: what a backup is, how far it has come, and
//! what a caller may ask for.

use crate::calendar::{compact_stamp, span_between, stamp_text, Span, Timestamp};
use crate::text::str_eq;
use vstd::prelude::*;

verus! {

/// What a backup holds.
#[derive(Clone, Copy, Debug, PartialEq, Eq, Structural)]
pub enum BackupType {
    Full,
    Data,
    Schema,
}

/// Where a backup, or an operation on one, stands.
#[derive(Clone, Copy, Debug, PartialEq, Eq, Structural)]
pub enum BackupStatus {
    Pending,
    Running,
    Completed,
    Failed,
}

/// What an operation does.
#[derive(Clone, Copy, Debug, PartialEq, Eq, Structural)]
pub enum OperationType {
    Create,
    Restore,
}

impl BackupType {
    pub open spec fn text(self) -> Seq<char> {
        match self {
            BackupType::Full => "full"@,
            BackupType::Data => "data"@,
            BackupType::Schema => "schema"@,
        }
    }

    pub fn as_str(&self) -> (name: &'static str)
        ensures
            name@ == self.text(),
    {
        match self {
            BackupType::Full => "full",
            BackupType::Data => "data",
            BackupType::Schema => "schema",
        }
    }

    /// The backup type that `name` names, if it names one.
    pub open spec fn from_text(name: Seq<char>) -> Option<BackupType> {
        if name == "full"@ {
            Some(BackupType::Full)
        } else if name == "data"@ {
            Some(BackupType::Data)
        } else if name == "schema"@ {
            Some(BackupType::Schema)
        } else {
            None
        }
    }

    /// Reads a backup type by its name; any other text is no backup type.
    pub fn parse(name: &str) -> (parsed: Option<BackupType>)
        ensures
            parsed == BackupType::from_text(name@),
    {
        if str_eq(name, "full") {
            Some(BackupType::Full)
        } else if str_eq(name, "data") {
            Some(BackupType::Data)
        } else if str_eq(name, "schema") {
            Some(BackupType::Schema)
        } else {
            None
        }
    }

    /// A backup type is read back from its own name, and from no other.
    pub proof fn lemma_text_round_trip(a: BackupType, name: Seq<char>)
        ensures
            BackupType::from_text(a.text()) == Some(a),
            BackupType::from_text(name) == Some(a) ==> name == a.text(),
    {
        reveal_strlit("full");
        reveal_strlit("data");
        reveal_strlit("schema");
        assert("full"@.len() == 4 && "full"@[0] == 'f');
        assert("data"@.len() == 4 && "data"@[0] == 'd');
        assert("schema"@.len() == 6);
    }
}

impl BackupStatus {
    pub open spec fn text(self) -> Seq<char> {
        match self {
            BackupStatus::Pending => "pending"@,
            BackupStatus::Running => "running"@,
            BackupStatus::Completed => "completed"@,
            BackupStatus::Failed => "failed"@,
        }
    }

    /// How far along a status is: a backup only ever moves to a higher rank.
    pub open spec fn rank(self) -> int {
        match self {
            BackupStatus::Pending => 0,
            BackupStatus::Running => 1,
            BackupStatus::Completed => 2,
            BackupStatus::Failed => 2,
        }
    }

    /// Pending or running: the backup still occupies the engine.
    pub open spec fn is_active(self) -> bool {
        self == BackupStatus::Pending || self == BackupStatus::Running
    }

    /// Whether a backup in status `self` may next be in status `next`:
    /// it stays where it is, or moves strictly forward.
    pub open spec fn may_become(self, next: BackupStatus) -> bool {
        self == next || self.rank() < next.rank()
    }

    pub fn as_str(&self) -> (name: &'static str)
        ensures
            name@ == self.text(),
    {
        match self {
            BackupStatus::Pending => "pending",
            BackupStatus::Running => "running",
            BackupStatus::Completed => "completed",
            BackupStatus::Failed => "failed",
        }
    }

    /// The status that `name` names, if it names one.
    pub open spec fn from_text(name: Seq<char>) -> Option<BackupStatus> {
        if name == "pending"@ {
            Some(BackupStatus::Pending)
        } else if name == "running"@ {
            Some(BackupStatus::Running)
        } else if name == "completed"@ {
            Some(BackupStatus::Completed)
        } else if name == "failed"@ {
            Some(BackupStatus::Failed)
        } else {
            None
        }
    }

    /// Reads a status by its name; any other text is no status.
    pub fn parse(name: &str) -> (parsed: Option<BackupStatus>)
        ensures
            parsed == BackupStatus::from_text(name@),
    {
        if str_eq(name, "pending") {
            Some(BackupStatus::Pending)
        } else if str_eq(name, "running") {
            Some(BackupStatus::Running)
        } else if str_eq(name, "completed") {
            Some(BackupStatus::Completed)
        } else if str_eq(name, "failed") {
            Some(BackupStatus::Failed)
        } else {
            None
        }
    }

    /// A status is read back from its own name, and from no other.
    pub proof fn lemma_text_round_trip(a: BackupStatus, name: Seq<char>)
        ensures
            BackupStatus::from_text(a.text()) == Some(a),
            BackupStatus::from_text(name) == Some(a) ==> name == a.text(),
    {
        reveal_strlit("pending");
        reveal_strlit("running");
        reveal_strlit("completed");
        reveal_strlit("failed");
        assert("pending"@.len() == 7 && "pending"@[0] == 'p');
        assert("running"@.len() == 7 && "running"@[0] == 'r');
        assert("completed"@.len() == 9);
        assert("failed"@.len() == 6);
    }
}

impl OperationType {
    pub open spec fn text(self) -> Seq<char> {
        match self {
            OperationType::Create => "create"@,
            OperationType::Restore => "restore"@,
        }
    }

    pub fn as_str(&self) -> (name: &'static str)
        ensures
            name@ == self.text(),
    {
        match self {
            OperationType::Create => "create",
            OperationType::Restore => "restore",
        }
    }
}

/// Why the engine turned a request down.
#[derive(Clone, Copy, Debug, PartialEq, Eq, Structural)]
pub enum BackupError {
    /// The requested backup type is none of full, data, schema.
    InvalidBackupType,
    /// A backup is pending or running already.
    OperationInProgress,
    /// No backup has the requested id.
    BackupNotFound,
    /// The backup is not there or has not completed.
    BackupNotCompleted,
    /// The backup is pending or running and cannot be deleted.
    BackupRunning,
    /// The completed backup has no file recorded.
    FilePathUnavailable,
    /// The catalog cannot number another backup.
    CatalogFull,
}

impl BackupError {
    pub open spec fn text(self) -> Seq<char> {
        match self {
            BackupError::InvalidBackupType => "Invalid backup type"@,
            BackupError::OperationInProgress => "Another backup operation is already in progress"@,
            BackupError::BackupNotFound => "Backup not found"@,
            BackupError::BackupNotCompleted => "Backup not found or not completed"@,
            BackupError::BackupRunning => "Cannot delete a running backup"@,
            BackupError::FilePathUnavailable => "Backup file path not available"@,
            BackupError::CatalogFull => "Backup catalog is full"@,
        }
    }

    /// What the caller is told.
    pub fn message(&self) -> (text: String)
        ensures
            text@ == self.text(),
    {
        match self {
            BackupError::InvalidBackupType => "Invalid backup type".to_string(),
            BackupError::OperationInProgress => "Another backup operation is already in progress"
                .to_string(),
            BackupError::BackupNotFound => "Backup not found".to_string(),
            BackupError::BackupNotCompleted => "Backup not found or not completed".to_string(),
            BackupError::BackupRunning => "Cannot delete a running backup".to_string(),
            BackupError::FilePathUnavailable => "Backup file path not available".to_string(),
            BackupError::CatalogFull => "Backup catalog is full".to_string(),
        }
    }
}

/// One backup attempt, as the catalog records it.
#[derive(Debug, PartialEq, Eq)]
pub struct BackupMetadata {
    pub id: i32,
    pub name: String,
    pub description: Option<String>,
    pub backup_type: BackupType,
    pub status: BackupStatus,
    pub file_path: Option<String>,
    pub file_size: Option<i64>,
    /// The user who asked for the backup; none for a scheduled one.
    pub created_by_id: Option<i32>,
    pub created_by: String,
    pub created_at: Timestamp,
    pub completed_at: Option<Timestamp>,
    pub error_message: Option<String>,
    pub compressed: Option<bool>,
}

impl Clone for BackupMetadata {
    fn clone(&self) -> (copy: Self)
        ensures
            copy == *self,
    {
        BackupMetadata {
            id: self.id,
            name: self.name.clone(),
            description: self.description.clone(),
            backup_type: self.backup_type,
            status: self.status,
            file_path: self.file_path.clone(),
            file_size: self.file_size,
            created_by_id: self.created_by_id,
            created_by: self.created_by.clone(),
            created_at: self.created_at,
            completed_at: self.completed_at,
            error_message: self.error_message.clone(),
            compressed: self.compressed,
        }
    }
}

impl BackupMetadata {
    /// A file is recorded only for a completed backup, and the times are real times.
    pub open spec fn wf(&self) -> bool {
        &&& self.created_at.wf()
        &&& self.completed_at matches Some(t) ==> t.wf()
        &&& (self.file_path is Some || self.file_size is Some) ==> self.status
            == BackupStatus::Completed
    }

    /// Whether the record is well formed.
    pub fn is_valid(&self) -> (valid: bool)
        ensures
            valid == self.wf(),
    {
        let times = self.created_at.is_valid() && match &self.completed_at {
            Some(t) => t.is_valid(),
            None => true,
        };
        let file = self.file_path.is_some() || self.file_size.is_some();
        times && (!file || self.status == BackupStatus::Completed)
    }

    pub fn is_completed(&self) -> (completed: bool)
        ensures
            completed == (self.status == BackupStatus::Completed),
    {
        self.status == BackupStatus::Completed
    }

    /// Pending counts as running: the backup is not over yet.
    pub fn is_running(&self) -> (running: bool)
        ensures
            running == self.status.is_active(),
    {
        self.status == BackupStatus::Pending || self.status == BackupStatus::Running
    }

    pub fn is_failed(&self) -> (failed: bool)
        ensures
            failed == (self.status == BackupStatus::Failed),
    {
        self.status == BackupStatus::Failed
    }

    /// Time from creation to completion, once the backup has completed.
    pub fn get_duration(&self) -> (duration: Option<Span>)
        requires
            self.created_at.wf(),
            self.completed_at matches Some(t) ==> t.wf(),
        ensures
            duration is Some <==> self.completed_at is Some,
            duration matches Some(span) ==> span.wf() && span.total_nanos()
                == self.completed_at->0.instant() - self.created_at.instant(),
    {
        match &self.completed_at {
            Some(completed) => Some(span_between(completed, &self.created_at)),
            None => None,
        }
    }
}

/// Progress of one operation, kept only while the process lives.
#[derive(Debug, PartialEq, Eq)]
pub struct BackupOperationStatus {
    pub operation_id: String,
    pub operation_type: OperationType,
    pub status: BackupStatus,
    /// Percent done, 0 to 100.
    pub progress: Option<i32>,
    pub description: Option<String>,
    pub started_at: Timestamp,
    pub estimated_completion: Option<Timestamp>,
    pub error_message: Option<String>,
}

impl Clone for BackupOperationStatus {
    fn clone(&self) -> (copy: Self)
        ensures
            copy == *self,
    {
        BackupOperationStatus {
            operation_id: self.operation_id.clone(),
            operation_type: self.operation_type,
            status: self.status,
            progress: self.progress,
            description: self.description.clone(),
            started_at: self.started_at,
            estimated_completion: self.estimated_completion,
            error_message: self.error_message.clone(),
        }
    }
}

/// What is asked for when a backup is created.
#[derive(Clone, Debug)]
pub struct CreateBackupRequest {
    pub name: Option<String>,
    pub description: Option<String>,
    pub backup_type: Option<String>,
    pub compress: Option<bool>,
}

/// What is asked for when a backup is restored from.
#[derive(Clone, Debug)]
pub struct RestoreBackupRequest {
    pub backup_id: i32,
    pub drop_existing_tables: Option<bool>,
    pub create_pre_restore_backup: Option<bool>,
}

/// Which backup to delete.
#[derive(Clone, Debug)]
pub struct DeleteBackupRequest {
    pub backup_id: i32,
}

/// One page of a listing of backups.
#[derive(Clone, Debug)]
pub struct BackupListResponse {
    pub backups: Vec<BackupMetadata>,
    pub total_count: i64,
    pub page: i32,
    pub limit: i32,
}

/// Figures over the completed backups.
#[derive(Clone, Debug)]
pub struct BackupStatsResponse {
    pub total_backups: i64,
    pub storage_used: i64,
    pub storage_total: i64,
    pub last_backup_time: Option<Timestamp>,
    pub backup_status: String,
    pub avg_backup_size: Option<i64>,
    pub max_backup_size: Option<i64>,
    pub retention_policy: i32,
}

/// The name a backup gets when its request brings none.
pub open spec fn default_name_text(stamp: Seq<char>) -> Seq<char> {
    "backup_"@ + stamp
}

/// The name for a backup made at the time that `stamp` stands for.
pub fn default_backup_name(stamp: &str) -> (name: String)
    ensures
        name@ == default_name_text(stamp@),
{
    "backup_".to_string().concat(stamp)
}

impl CreateBackupRequest {
    /// The requested type's name as given, `full` where none was given.
    pub open spec fn backup_type_text(&self) -> Seq<char> {
        match self.backup_type {
            Some(t) => t@,
            None => "full"@,
        }
    }

    /// Whether the request brings no name, or an empty one.
    pub open spec fn name_missing(&self) -> bool {
        match self.name {
            Some(n) => n@.len() == 0,
            None => true,
        }
    }

    /// The name of the requested type as given; `full` where none is given.
    pub fn get_backup_type(&self) -> (name: String)
        ensures
            name@ == self.backup_type_text(),
    {
        match &self.backup_type {
            Some(t) => t.clone(),
            None => "full".to_string(),
        }
    }

    /// Whether to compress; yes unless the request says no.
    pub fn get_compress(&self) -> (compress: bool)
        ensures
            compress == match self.compress {
                Some(c) => c,
                None => true,
            },
    {
        match self.compress {
            Some(c) => c,
            None => true,
        }
    }

    /// Gives the request a name made of the current time where it has none
    /// or an empty one; a request with a name keeps it.
    pub fn generate_name_if_empty(&mut self, now: &Timestamp)
        requires
            now.wf(),
        ensures
            final(self).description == old(self).description,
            final(self).backup_type == old(self).backup_type,
            final(self).compress == old(self).compress,
            final(self).name is Some,
            old(self).name_missing() ==> final(self).name->0@ == default_name_text(stamp_text(*now)),
            !old(self).name_missing() ==> final(self).name == old(self).name,
    {
        let missing = match &self.name {
            Some(n) => n.as_str().is_empty(),
            None => true,
        };
        if missing {
            let stamp = compact_stamp(now);
            self.name = Some(default_backup_name(stamp.as_str()));
        }
    }
}

impl RestoreBackupRequest {
    /// Whether existing tables are to be dropped first; no unless asked for.
    pub fn get_drop_existing_tables(&self) -> (drop_tables: bool)
        ensures
            drop_tables == match self.drop_existing_tables {
                Some(d) => d,
                None => false,
            },
    {
        match self.drop_existing_tables {
            Some(d) => d,
            None => false,
        }
    }

    /// Whether to take a backup before restoring; yes unless the request says no.
    pub fn get_create_pre_restore_backup(&self) -> (backup_first: bool)
        ensures
            backup_first == match self.create_pre_restore_backup {
                Some(b) => b,
                None => true,
            },
    {
        match self.create_pre_restore_backup {
            Some(b) => b,
            None => true,
        }
    }
}

} // verus!
