use marketplace_core::backup::{BackupOperationStatus, BackupStatus, OperationType};
use marketplace_core::calendar::{CalendarDate, TimeOfDay, Timestamp};
use marketplace_core::registry::{OperationRegistry, OperationUpdate};

fn noon() -> Timestamp {
    Timestamp {
        date: CalendarDate::new(2024, 5, 1).unwrap(),
        time: TimeOfDay::from_hms(12, 0, 0).unwrap(),
    }
}

fn operation(id: &str) -> BackupOperationStatus {
    BackupOperationStatus {
        operation_id: id.to_string(),
        operation_type: OperationType::Create,
        status: BackupStatus::Pending,
        progress: Some(0),
        description: Some("Creating backup: nightly".to_string()),
        started_at: noon(),
        estimated_completion: None,
        error_message: None,
    }
}

#[test]
fn new_registry_knows_nothing() {
    let registry = OperationRegistry::new();
    assert_eq!(registry.get("a"), None);
    assert!(registry.list().is_empty());
}

#[test]
fn put_then_get_returns_what_was_put() {
    let mut registry = OperationRegistry::new();
    registry.put(operation("a"));
    registry.put(operation("b"));
    assert_eq!(registry.get("a"), Some(operation("a")));
    assert_eq!(registry.get("b"), Some(operation("b")));
    assert_eq!(registry.get("c"), None);
    assert_eq!(registry.get(""), None);
}

#[test]
fn put_overwrites_the_entry_of_the_same_id() {
    let mut registry = OperationRegistry::new();
    registry.put(operation("a"));
    registry.put(operation("b"));
    let mut changed = operation("a");
    changed.status = BackupStatus::Failed;
    changed.error_message = Some("disk full".to_string());
    registry.put(changed.clone());
    assert_eq!(registry.get("a"), Some(changed));
    assert_eq!(registry.get("b"), Some(operation("b")));
    assert_eq!(registry.list().len(), 2);
}

#[test]
fn update_replaces_only_the_given_fields() {
    let mut registry = OperationRegistry::new();
    registry.put(operation("a"));
    registry.update(
        "a",
        OperationUpdate {
            status: Some(BackupStatus::Running),
            progress: Some(10),
            description: None,
            error_message: None,
        },
    );
    let mut expected = operation("a");
    expected.status = BackupStatus::Running;
    expected.progress = Some(10);
    assert_eq!(registry.get("a"), Some(expected.clone()));
    registry.update(
        "a",
        OperationUpdate {
            status: None,
            progress: None,
            description: Some("Dumping database...".to_string()),
            error_message: Some("warning".to_string()),
        },
    );
    expected.description = Some("Dumping database...".to_string());
    expected.error_message = Some("warning".to_string());
    assert_eq!(registry.get("a"), Some(expected));
}

#[test]
fn update_of_an_unknown_operation_changes_nothing() {
    let mut registry = OperationRegistry::new();
    registry.put(operation("a"));
    registry.update(
        "zzz",
        OperationUpdate {
            status: Some(BackupStatus::Failed),
            progress: Some(99),
            description: None,
            error_message: None,
        },
    );
    assert_eq!(registry.get("a"), Some(operation("a")));
    assert_eq!(registry.get("zzz"), None);
    assert_eq!(registry.list().len(), 1);
}

#[test]
fn list_holds_every_entry_once() {
    let mut registry = OperationRegistry::new();
    for id in ["c", "a", "b", "a", "c"] {
        registry.put(operation(id));
    }
    let mut ids: Vec<String> = registry.list().into_iter().map(|o| o.operation_id).collect();
    ids.sort();
    assert_eq!(ids, vec!["a".to_string(), "b".to_string(), "c".to_string()]);
}
