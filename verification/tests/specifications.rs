use promo::backbone::Backbone;
use promo::specifications::{
    BackboneCanArchiveSpecification, BackboneCanSuspendSpecification, BackboneInDateRangeSpecification,
    BackboneIsActiveSpecification, BackboneMustBeRecentSpecification,
    BackboneMustNotBeOlderThanSpecification, BackboneNameMustBeValidSpecification,
    BackboneTaggedWithSpecification, BackboneTagsMustBeUniqueSpecification,
    BackboneWithMetadataKeySpecification, Specification, SpecificationOps,
};
use promo::specifications::{SpecificationEvaluator, last_path_segment};
use promo::timestamp::BackboneTimestamp;
use promo::value_objects::{BackboneName, BackboneStatus, Metadata};

fn create_test_backbone() -> Backbone {
    Backbone::create(
        BackboneName::new("Test Backbone").unwrap(),
        "Test Description".to_string(),
        vec!["test".to_string(), "production".to_string()],
        {
            let mut metadata = Metadata::new();
            metadata.insert("env".to_string(), "production".to_string()).unwrap();
            metadata
        },
        "test_user".to_string(),
    )
    .unwrap()
}

#[test]
fn test_backbone_name_specification() {
    let spec = BackboneNameMustBeValidSpecification::new();
    let valid_backbone = create_test_backbone();

    assert!(spec.is_satisfied_by(&valid_backbone).unwrap());

    // Test with invalid name (empty): built without validation, since validation happens at creation.
    let invalid_backbone = Backbone::create(
        BackboneName::from_string(String::new()),
        "Test".to_string(),
        vec![],
        Metadata::new(),
        "user".to_string(),
    )
    .unwrap();

    assert!(!spec.is_satisfied_by(&invalid_backbone).unwrap());
}

#[test]
fn test_tags_unique_specification() {
    let spec = BackboneTagsMustBeUniqueSpecification::new();
    let valid_backbone = create_test_backbone();

    assert!(spec.is_satisfied_by(&valid_backbone).unwrap());
}

#[test]
fn test_is_active_specification() {
    let spec = BackboneIsActiveSpecification::new();
    let active_backbone = create_test_backbone();

    assert!(spec.is_satisfied_by(&active_backbone).unwrap());
}

#[test]
fn test_tagged_with_specification() {
    let spec_match_all =
        BackboneTaggedWithSpecification::new(vec!["test".to_string(), "production".to_string()], true);

    let spec_match_any =
        BackboneTaggedWithSpecification::new(vec!["test".to_string(), "nonexistent".to_string()], false);

    let backbone = create_test_backbone();

    assert!(spec_match_all.is_satisfied_by(&backbone).unwrap());
    assert!(spec_match_any.is_satisfied_by(&backbone).unwrap());
}

#[test]
fn test_composite_specifications() {
    let name_spec = BackboneNameMustBeValidSpecification::new();
    let tags_spec = BackboneTagsMustBeUniqueSpecification::new();

    let combined_and = name_spec.and(tags_spec);
    let backbone = create_test_backbone();

    assert!(combined_and.is_satisfied_by(&backbone).unwrap());
}

#[test]
fn test_not_specification() {
    let active_spec = BackboneIsActiveSpecification::new();
    let not_active = active_spec.not();

    let active_backbone = create_test_backbone();
    assert!(active_backbone.status().is_active());

    // The not specification should return false for an active backbone
    assert!(!not_active.is_satisfied_by(&active_backbone).unwrap());
}

#[test]
fn test_metadata_specification() {
    let spec_has_key = BackboneWithMetadataKeySpecification::new("env".to_string(), None);

    let spec_has_key_value =
        BackboneWithMetadataKeySpecification::new("env".to_string(), Some("production".to_string()));

    let spec_wrong_value =
        BackboneWithMetadataKeySpecification::new("env".to_string(), Some("development".to_string()));

    let backbone = create_test_backbone();

    assert!(spec_has_key.is_satisfied_by(&backbone).unwrap());
    assert!(spec_has_key_value.is_satisfied_by(&backbone).unwrap());
    assert!(!spec_wrong_value.is_satisfied_by(&backbone).unwrap());
}

#[test]
fn test_temporal_specifications() {
    let recent_spec = BackboneMustBeRecentSpecification::new(30);
    let backbone = create_test_backbone();

    assert!(recent_spec.is_satisfied_by(&backbone).unwrap());

    let old_spec = BackboneMustNotBeOlderThanSpecification::new(1);
    assert!(old_spec.is_satisfied_by(&backbone).unwrap());
}

#[test]
fn duplicate_and_oversized_tags_fail() {
    let spec = BackboneTagsMustBeUniqueSpecification::new();
    let mut b = create_test_backbone();
    b.tags = vec!["x".to_string(), "y".to_string(), "x".to_string()];
    assert!(!spec.is_satisfied_by(&b).unwrap());
    b.tags = vec!["t".repeat(51)];
    assert!(!spec.is_satisfied_by(&b).unwrap());
    b.tags = (0..51).map(|i| format!("tag{}", i)).collect();
    assert!(!spec.is_satisfied_by(&b).unwrap());
}

#[test]
fn lifecycle_rules() {
    let mut b = create_test_backbone();
    assert!(BackboneCanSuspendSpecification::new().is_satisfied_by(&b).unwrap());
    // Recently updated inactive backbones cannot be archived; old ones can.
    b.status = BackboneStatus::Inactive;
    assert!(!BackboneCanArchiveSpecification::new().is_satisfied_by(&b).unwrap());
    b.updated_at = b.updated_at.add_days(-31);
    assert!(BackboneCanArchiveSpecification::new().is_satisfied_by(&b).unwrap());
    b.status = BackboneStatus::Suspended;
    assert!(!BackboneCanSuspendSpecification::new().is_satisfied_by(&b).unwrap());
    // A cutoff outside the representable calendar is an evaluation error.
    assert!(BackboneMustBeRecentSpecification::new(i64::MAX).is_satisfied_by(&b).is_err());
}

#[test]
fn or_and_date_range() {
    let b = create_test_backbone();
    let either = BackboneTaggedWithSpecification::new(vec!["nope".to_string()], true)
        .or(BackboneNameMustBeValidSpecification::new());
    assert!(either.is_satisfied_by(&b).unwrap());
    let c = *b.created_at();
    let exclusive = BackboneInDateRangeSpecification::new(c, c, false, true);
    assert!(!exclusive.is_satisfied_by(&b).unwrap());
    let inclusive = BackboneInDateRangeSpecification::new(c, c, true, true);
    assert!(inclusive.is_satisfied_by(&b).unwrap());
    let later = BackboneTimestamp::from_timestamp(c.timestamp() + 10).unwrap();
    assert!(later.is_future());
}

#[test]
fn test_specification_evaluator() {
    let spec = BackboneNameMustBeValidSpecification::new();
    let backbone = create_test_backbone();

    let result = SpecificationEvaluator::evaluate(
        &spec,
        &backbone,
        "promo::specifications::BackboneNameMustBeValidSpecification",
    )
    .unwrap();
    assert!(result.satisfied);
    assert!(result.specification_name.contains("BackboneNameMustBeValidSpecification"));
    assert_eq!(result.message, "Specification 'BackboneNameMustBeValidSpecification' is satisfied");
}

#[test]
fn evaluator_reports_each_candidate_and_records_details() {
    let spec = BackboneIsActiveSpecification::new();
    let results = SpecificationEvaluator::evaluate_batch(&spec, &vec![create_test_backbone(), create_test_backbone()], "a::b::IsActive");
    assert_eq!(results.len(), 2);
    let first = results.into_iter().next().unwrap().unwrap();
    assert_eq!(first.specification_name, "IsActive");
    let with = first.with_details("k".to_string(), "1".to_string()).with_details("k".to_string(), "2".to_string());
    assert_eq!(with.details, vec![("k".to_string(), "2".to_string())]);
    assert_eq!(last_path_segment("no_separator"), "no_separator");
    assert_eq!(last_path_segment("a:::b"), ":b");
}
