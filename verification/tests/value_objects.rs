use promo::value_objects::{
    BackboneId, BackboneIdError, BackboneName, BackboneNameError, BackboneStatus, BackboneVersion,
    BackboneVersionError, Metadata, MetadataError,
};

#[test]
fn test_backbone_id() {
    // Valid UUID
    let id = BackboneId::new("123e4567-e89b-12d3-a456-426614174000").unwrap();
    assert_eq!(id.value(), "123e4567-e89b-12d3-a456-426614174000");

    // Invalid UUID format
    assert!(matches!(BackboneId::new("invalid-uuid"), Err(BackboneIdError::InvalidFormat)));

    // Empty ID
    assert!(matches!(BackboneId::new(""), Err(BackboneIdError::Empty)));
}

#[test]
fn test_backbone_name() {
    // Valid names
    let name = BackboneName::new("Test Backbone").unwrap();
    assert_eq!(name.value(), "Test Backbone");
    assert_eq!(name.length(), 13);

    let name = BackboneName::new("backbone-test_123").unwrap();
    assert_eq!(name.value(), "backbone-test_123");

    // Empty name
    assert!(matches!(BackboneName::new(""), Err(BackboneNameError::Empty)));

    // Too long name
    let long_name = "a".repeat(101);
    assert!(matches!(BackboneName::new(&long_name), Err(BackboneNameError::TooLong)));

    // Invalid characters
    assert!(matches!(
        BackboneName::new("test@backbone"),
        Err(BackboneNameError::InvalidCharacters)
    ));
}

#[test]
fn test_backbone_status() {
    let status = BackboneStatus::Active;
    assert!(status.is_active());
    assert!(!status.is_inactive());

    // Test transitions
    assert!(status.can_transition_to(&BackboneStatus::Inactive));
    assert!(status.can_transition_to(&BackboneStatus::Suspended));
    assert!(status.can_transition_to(&BackboneStatus::Archived));
    assert!(!BackboneStatus::Archived.can_transition_to(&BackboneStatus::Active));
}

#[test]
fn test_backbone_version() {
    let version = BackboneVersion::initial();
    assert!(version.is_first());
    assert_eq!(version.value(), 1);

    let next = version.next();
    assert_eq!(next.value(), 2);
    assert!(next._greater_than(&version));
}

#[test]
fn test_metadata() {
    let mut metadata = Metadata::new();
    assert!(metadata.is_empty());

    metadata.insert("key".to_string(), "value".to_string()).unwrap();
    assert_eq!(metadata.len(), 1);
    assert_eq!(metadata.get("key"), Some(&"value".to_string()));

    // Test invalid key
    assert!(matches!(
        metadata.insert("".to_string(), "value".to_string()),
        Err(MetadataError::EmptyKey)
    ));

    // Test invalid value
    let long_value = "a".repeat(501);
    assert!(matches!(metadata.insert("key".to_string(), long_value), Err(MetadataError::ValueTooLong)));
}

#[test]
fn backbone_name_is_trimmed_and_counts_bytes() {
    let name = BackboneName::new("  padded name \t").unwrap();
    assert_eq!(name.value(), "padded name");
    // 100 bytes is accepted, 101 is not, and multi-byte letters count by bytes.
    assert!(BackboneName::new(&"b".repeat(100)).is_ok());
    assert!(matches!(BackboneName::new(&"é".repeat(51)), Err(BackboneNameError::TooLong)));
    assert!(matches!(BackboneName::new("   "), Err(BackboneNameError::Empty)));
}

#[test]
fn backbone_id_needs_exactly_five_parts() {
    assert!(matches!(BackboneId::new("a-b-c-d"), Err(BackboneIdError::InvalidFormat)));
    assert!(matches!(BackboneId::new("a-b-c-d-e-f"), Err(BackboneIdError::InvalidFormat)));
    assert_eq!(BackboneId::new("a-b-c-d-e").unwrap().into_string(), "a-b-c-d-e");
    let generated = BackboneId::generate();
    assert!(BackboneId::new(generated.value()).is_ok());
    assert_eq!(generated.value().len(), 36);
    assert_eq!(generated.value().matches('-').count(), 4);
}

#[test]
fn status_lifecycle_from_archived_and_parsing() {
    assert!(BackboneStatus::Archived.can_transition_to(&BackboneStatus::Inactive));
    assert!(BackboneStatus::Archived.can_transition_to(&BackboneStatus::Archived));
    assert!(!BackboneStatus::Archived.can_transition_to(&BackboneStatus::Suspended));
    assert!(BackboneStatus::Suspended.can_transition_to(&BackboneStatus::Active));
    assert_eq!(BackboneStatus::from_text("suspended"), BackboneStatus::Suspended);
    assert_eq!(BackboneStatus::from_text("Archived"), BackboneStatus::Archived);
    assert_eq!(BackboneStatus::from_text("bogus"), BackboneStatus::Active);
    assert_eq!(BackboneStatus::Inactive.value(), "INACTIVE");
    assert_eq!(BackboneStatus::all_statuses(), vec!["ACTIVE", "INACTIVE", "SUSPENDED", "ARCHIVED"]);
}

#[test]
fn version_rules() {
    assert!(matches!(BackboneVersion::new(-1), Err(BackboneVersionError::Negative)));
    assert_eq!(BackboneVersion::new(0).unwrap().value(), 0);
    assert_eq!(BackboneVersion::from_i64(-5).value(), 0);
    assert_eq!(BackboneVersion::from_i64(7).value(), 7);
}

#[test]
fn metadata_map_rules() {
    assert!(matches!(Metadata::from_map(vec![]), Err(MetadataError::Empty)));
    assert!(matches!(
        Metadata::from_map(vec![("k".repeat(51), "v".to_string())]),
        Err(MetadataError::KeyTooLong)
    ));
    let m = Metadata::from_map(vec![("a".to_string(), "1".to_string()), ("b".to_string(), "2".to_string())])
        .unwrap();
    assert_eq!(m.len(), 2);
    let mut m = m;
    m.insert("a".to_string(), "3".to_string()).unwrap();
    assert_eq!(m.len(), 2);
    assert_eq!(m.get("a"), Some(&"3".to_string()));
    assert_eq!(m.remove("b"), Some("2".to_string()));
    assert!(!m.contains_key("b"));
    assert_eq!(m.keys(), vec!["a".to_string()]);
    assert_eq!(m.values(), vec!["3".to_string()]);
}

#[test]
fn names_are_trimmed_of_unicode_white_space() {
    let name = BackboneName::new("\u{3000}Café\u{2003}\t").unwrap();
    assert_eq!(name.value(), "Café");
    assert!(BackboneName::new("\u{00A0}\u{2028}").is_err());
}

#[test]
fn an_accepted_name_is_already_trimmed() {
    let name = BackboneName::new("  Test Backbone  ").unwrap();
    assert_eq!(name.value(), "Test Backbone");
    assert!(!name.is_empty());
    assert_eq!(name.length(), 13);
    let again = BackboneName::new(name.value()).unwrap();
    assert_eq!(again.value(), name.value());
}
