use marketplace_core::backup::{
    default_backup_name, BackupError, BackupMetadata, BackupStatus, BackupType,
    CreateBackupRequest, OperationType, RestoreBackupRequest,
};
use marketplace_core::calendar::{CalendarDate, Span, TimeOfDay, Timestamp};

fn time(y: i32, m: u32, d: u32, h: u32, mi: u32, s: u32) -> Timestamp {
    Timestamp {
        date: CalendarDate::new(y, m, d).unwrap(),
        time: TimeOfDay::from_hms(h, mi, s).unwrap(),
    }
}

fn record(status: BackupStatus) -> BackupMetadata {
    BackupMetadata {
        id: 1,
        name: "nightly".to_string(),
        description: None,
        backup_type: BackupType::Full,
        status,
        file_path: None,
        file_size: None,
        created_by_id: Some(1),
        created_by: "admin@example.com".to_string(),
        created_at: time(2024, 5, 1, 12, 0, 0),
        completed_at: None,
        error_message: None,
        compressed: Some(true),
    }
}

#[test]
fn backup_types_are_read_by_name() {
    assert_eq!(BackupType::parse("full"), Some(BackupType::Full));
    assert_eq!(BackupType::parse("data"), Some(BackupType::Data));
    assert_eq!(BackupType::parse("schema"), Some(BackupType::Schema));
    assert_eq!(BackupType::parse("Full"), None);
    assert_eq!(BackupType::parse(""), None);
    assert_eq!(BackupType::parse("full "), None);
    for t in [BackupType::Full, BackupType::Data, BackupType::Schema] {
        assert_eq!(BackupType::parse(t.as_str()), Some(t));
    }
}

#[test]
fn statuses_are_read_by_name() {
    assert_eq!(BackupStatus::parse("pending"), Some(BackupStatus::Pending));
    assert_eq!(BackupStatus::parse("running"), Some(BackupStatus::Running));
    assert_eq!(BackupStatus::parse("completed"), Some(BackupStatus::Completed));
    assert_eq!(BackupStatus::parse("failed"), Some(BackupStatus::Failed));
    assert_eq!(BackupStatus::parse("done"), None);
    for s in [
        BackupStatus::Pending,
        BackupStatus::Running,
        BackupStatus::Completed,
        BackupStatus::Failed,
    ] {
        assert_eq!(BackupStatus::parse(s.as_str()), Some(s));
    }
    assert_eq!(OperationType::Create.as_str(), "create");
    assert_eq!(OperationType::Restore.as_str(), "restore");
}

#[test]
fn every_error_has_its_message() {
    assert_eq!(BackupError::InvalidBackupType.message(), "Invalid backup type");
    assert_eq!(
        BackupError::OperationInProgress.message(),
        "Another backup operation is already in progress"
    );
    assert_eq!(BackupError::BackupNotFound.message(), "Backup not found");
    assert_eq!(BackupError::BackupNotCompleted.message(), "Backup not found or not completed");
    assert_eq!(BackupError::BackupRunning.message(), "Cannot delete a running backup");
    assert_eq!(BackupError::FilePathUnavailable.message(), "Backup file path not available");
    assert_eq!(BackupError::CatalogFull.message(), "Backup catalog is full");
}

#[test]
fn status_questions_go_by_the_status() {
    let pending = record(BackupStatus::Pending);
    assert!(pending.is_running() && !pending.is_completed() && !pending.is_failed());
    let running = record(BackupStatus::Running);
    assert!(running.is_running() && !running.is_completed() && !running.is_failed());
    let completed = record(BackupStatus::Completed);
    assert!(!completed.is_running() && completed.is_completed() && !completed.is_failed());
    let failed = record(BackupStatus::Failed);
    assert!(!failed.is_running() && !failed.is_completed() && failed.is_failed());
}

#[test]
fn duration_runs_from_creation_to_completion() {
    let mut backup = record(BackupStatus::Completed);
    assert_eq!(backup.get_duration(), None);
    backup.completed_at = Some(time(2024, 5, 1, 12, 3, 20));
    assert_eq!(backup.get_duration(), Some(Span { secs: 200, subsec_nanos: 0 }));
    backup.completed_at = Some(time(2024, 5, 2, 12, 0, 0));
    assert_eq!(backup.get_duration(), Some(Span { secs: 86400, subsec_nanos: 0 }));
    let mut fraction = time(2024, 5, 1, 12, 0, 1);
    fraction.time.nanos = 500;
    backup.completed_at = Some(fraction);
    assert_eq!(backup.get_duration(), Some(Span { secs: 1, subsec_nanos: 500 }));
    // completion before creation gives a negative span
    backup.completed_at = Some(time(2024, 4, 30, 12, 0, 0));
    assert_eq!(backup.get_duration(), Some(Span { secs: -86400, subsec_nanos: 0 }));
    // across the end of February in a leap year
    backup.created_at = time(2024, 2, 28, 0, 0, 0);
    backup.completed_at = Some(time(2024, 3, 1, 0, 0, 0));
    assert_eq!(backup.get_duration(), Some(Span { secs: 2 * 86400, subsec_nanos: 0 }));
}

#[test]
fn record_is_well_formed_or_not() {
    assert!(record(BackupStatus::Pending).is_valid());
    let mut with_file = record(BackupStatus::Running);
    with_file.file_path = Some("/x".to_string());
    assert!(!with_file.is_valid());
    with_file.status = BackupStatus::Completed;
    assert!(with_file.is_valid());
    let mut sized = record(BackupStatus::Failed);
    sized.file_size = Some(1);
    assert!(!sized.is_valid());
    let mut odd = record(BackupStatus::Pending);
    odd.completed_at = Some(Timestamp {
        date: CalendarDate { year: 2024, month: 2, day: 30 },
        time: TimeOfDay { secs: 0, nanos: 0 },
    });
    assert!(!odd.is_valid());
}

#[test]
fn request_defaults() {
    let bare = CreateBackupRequest { name: None, description: None, backup_type: None, compress: None };
    assert_eq!(bare.get_backup_type(), "full");
    assert!(bare.get_compress());
    let asked = CreateBackupRequest {
        name: Some("x".to_string()),
        description: None,
        backup_type: Some("schema".to_string()),
        compress: Some(false),
    };
    assert_eq!(asked.get_backup_type(), "schema");
    assert!(!asked.get_compress());
    let odd = CreateBackupRequest {
        name: None,
        description: None,
        backup_type: Some("anything".to_string()),
        compress: None,
    };
    assert_eq!(odd.get_backup_type(), "anything");
    let restore = RestoreBackupRequest {
        backup_id: 1,
        drop_existing_tables: None,
        create_pre_restore_backup: None,
    };
    assert!(!restore.get_drop_existing_tables());
    assert!(restore.get_create_pre_restore_backup());
}

#[test]
fn name_is_generated_only_where_it_is_missing() {
    let now = time(2024, 5, 1, 7, 8, 9);
    let mut bare = CreateBackupRequest {
        name: None,
        description: Some("d".to_string()),
        backup_type: Some("data".to_string()),
        compress: Some(false),
    };
    bare.generate_name_if_empty(&now);
    assert_eq!(bare.name, Some("backup_20240501_070809".to_string()));
    assert_eq!(bare.description, Some("d".to_string()));
    assert_eq!(bare.backup_type, Some("data".to_string()));
    assert_eq!(bare.compress, Some(false));
    let mut empty = CreateBackupRequest {
        name: Some(String::new()),
        description: None,
        backup_type: None,
        compress: None,
    };
    empty.generate_name_if_empty(&now);
    assert_eq!(empty.name, Some("backup_20240501_070809".to_string()));
    let mut named = CreateBackupRequest {
        name: Some("nightly".to_string()),
        description: None,
        backup_type: None,
        compress: None,
    };
    named.generate_name_if_empty(&now);
    assert_eq!(named.name, Some("nightly".to_string()));
    assert_eq!(default_backup_name("20240501_070809"), "backup_20240501_070809");
    assert_eq!(default_backup_name(""), "backup_");
}
