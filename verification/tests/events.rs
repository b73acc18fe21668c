use promo::events::{
    BackboneCreated, BackboneDeleted, BackboneMetadataChanged, BackboneStatusChanged, BackboneTagsChanged,
    BackboneUpdated, DomainEvent, EventStore,
};
use promo::value_objects::{BackboneId, BackboneStatus, Metadata};

fn test_id() -> BackboneId {
    BackboneId::new("123e4567-e89b-12d3-a456-426614174000").unwrap()
}

#[test]
fn test_backbone_created_event() {
    let backbone_id = test_id();
    let metadata = Metadata::from_map(vec![("key".to_string(), "value".to_string())]).unwrap();

    let event = BackboneCreated::new(
        backbone_id.clone(),
        "Test Backbone".to_string(),
        "Test Description".to_string(),
        BackboneStatus::Active,
        vec!["test".to_string()],
        metadata,
        "test_user".to_string(),
    );

    assert_eq!(event.event_type(), "BackboneCreated");
    assert_eq!(event.aggregate_id(), &backbone_id);
    assert_eq!(event.name, "Test Backbone");
    assert!(event.occurred_at.secs <= chrono::Utc::now().timestamp());
}

#[test]
fn test_backbone_updated_event() {
    let backbone_id = test_id();
    let changes = vec![("name".to_string(), "Old -> New".to_string())];

    let event = BackboneUpdated::new(backbone_id.clone(), changes, 1, 2, "test_user".to_string());

    assert_eq!(event.event_type(), "BackboneUpdated");
    assert_eq!(event.aggregate_id(), &backbone_id);
    assert!(event.has_changes());
    assert_eq!(event.new_version, 2);
}

#[test]
fn test_backbone_status_changed_event() {
    let backbone_id = test_id();

    let event = BackboneStatusChanged::new(
        backbone_id.clone(),
        BackboneStatus::Inactive,
        BackboneStatus::Active,
        "User activation".to_string(),
        "admin".to_string(),
        2,
    );

    assert_eq!(event.event_type(), "BackboneStatusChanged");
    assert_eq!(event.aggregate_id(), &backbone_id);
    assert!(event.is_activation());
    assert!(!event.is_deactivation());
}

#[test]
fn test_backbone_tags_changed_event() {
    let backbone_id = test_id();

    let event = BackboneTagsChanged::new(
        backbone_id.clone(),
        vec!["new_tag".to_string()],
        vec!["old_tag".to_string()],
        "user".to_string(),
        3,
    );

    assert_eq!(event.event_type(), "BackboneTagsChanged");
    assert_eq!(event.aggregate_id(), &backbone_id);
    assert!(event.has_changes());
    assert_eq!(event.total_changes(), 2);
}

#[test]
fn test_backbone_metadata_changed_event() {
    let backbone_id = test_id();
    let old_metadata = Metadata::from_map(vec![("old".to_string(), "value".to_string())]).unwrap();
    let new_metadata = Metadata::from_map(vec![("new".to_string(), "value".to_string())]).unwrap();

    let event = BackboneMetadataChanged::new(
        backbone_id.clone(),
        old_metadata.clone(),
        new_metadata.clone(),
        "user".to_string(),
        4,
    );

    assert_eq!(event.event_type(), "BackboneMetadataChanged");
    assert_eq!(event.aggregate_id(), &backbone_id);
    assert!(event.has_changes());
}

#[test]
fn test_backbone_deleted_event() {
    let backbone_id = test_id();

    let soft_event = BackboneDeleted::new(backbone_id.clone(), false, "Soft delete".to_string(), "user".to_string(), 5);

    assert!(soft_event.is_soft_delete());
    assert!(!soft_event.is_hard_delete());

    let hard_event = BackboneDeleted::new(backbone_id, true, "Hard delete".to_string(), "admin".to_string(), 6);

    assert!(!hard_event.is_soft_delete());
    assert!(hard_event.is_hard_delete());
}

#[test]
fn test_event_store() {
    let mut store = EventStore::new();
    assert!(store.is_empty());

    let event = BackboneCreated::new(
        test_id(),
        "Test".to_string(),
        "Desc".to_string(),
        BackboneStatus::Active,
        vec![],
        Metadata::new(),
        "user".to_string(),
    );

    store.add_event(event);
    assert_eq!(store.len(), 1);
    assert_eq!(store.get_latest_version(), 1);

    let events = store.get_events_by_type("BackboneCreated");
    assert_eq!(events.len(), 1);

    store.clear();
    assert!(store.is_empty());
}

#[test]
fn metadata_diff_reports_added_removed_and_modified_keys() {
    let old_metadata = Metadata::from_map(vec![
        ("keep".to_string(), "1".to_string()),
        ("gone".to_string(), "2".to_string()),
        ("edit".to_string(), "3".to_string()),
    ])
    .unwrap();
    let new_metadata = Metadata::from_map(vec![
        ("edit".to_string(), "4".to_string()),
        ("keep".to_string(), "1".to_string()),
        ("fresh".to_string(), "5".to_string()),
    ])
    .unwrap();
    let event = BackboneMetadataChanged::new(test_id(), old_metadata, new_metadata, "user".to_string(), 2);
    assert!(event.has_changes());
    assert_eq!(event.get_added_keys(), vec!["fresh".to_string()]);
    assert_eq!(event.get_removed_keys(), vec!["gone".to_string()]);
    assert_eq!(event.get_modified_keys(), vec!["edit".to_string()]);
}

#[test]
fn metadata_with_same_entries_in_another_order_is_unchanged() {
    let a = Metadata::from_map(vec![("x".to_string(), "1".to_string()), ("y".to_string(), "2".to_string())]).unwrap();
    let b = Metadata::from_map(vec![("y".to_string(), "2".to_string()), ("x".to_string(), "1".to_string())]).unwrap();
    let event = BackboneMetadataChanged::new(test_id(), a, b, "user".to_string(), 2);
    assert!(!event.has_changes());
    assert!(event.get_added_keys().is_empty());
    assert!(event.get_modified_keys().is_empty());
}

#[test]
fn update_event_records_each_field_once() {
    let mut event = BackboneUpdated::new(test_id(), vec![], 1, 2, "u".to_string());
    assert!(!event.has_changes());
    event.add_change("name".to_string(), "A".to_string(), "B".to_string());
    event.add_change("name".to_string(), "B".to_string(), "C".to_string());
    assert_eq!(event.changes, vec![("name".to_string(), "B -> C".to_string())]);
}

#[test]
fn store_reports_the_highest_version_and_filters_by_type() {
    let mut store = EventStore::default();
    assert_eq!(store.get_latest_version(), 0);
    store.add_event(BackboneDeleted::new(test_id(), false, "r".to_string(), "u".to_string(), 7));
    store.add_event(BackboneTagsChanged::new(test_id(), vec![], vec![], "u".to_string(), 3));
    store.add_event(BackboneDeleted::new(test_id(), true, "r".to_string(), "u".to_string(), 5));
    assert_eq!(store.get_latest_version(), 7);
    assert_eq!(store.get_events_by_type("BackboneDeleted").len(), 2);
    assert_eq!(store.get_events_by_type("BackboneCreated").len(), 0);
    assert_eq!(store.get_events().len(), 3);
}
