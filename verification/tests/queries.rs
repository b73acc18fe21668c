use promo::commands::CreateBackboneCommand;
use promo::queries::{BackboneFilters, GetBackboneQuery, ListBackbonesQuery, SearchBackbonesQuery};

#[test]
fn test_create_backbone_command_validation() {
    let valid_command = CreateBackboneCommand::new(
        "Test Backbone".to_string(),
        "Test Description".to_string(),
        vec!["test".to_string()],
        vec![],
        "test_user".to_string(),
    );
    assert!(valid_command.validate().is_ok());

    let invalid_command = CreateBackboneCommand::new(
        "".to_string(),
        "Test Description".to_string(),
        vec![],
        vec![],
        "test_user".to_string(),
    );
    assert!(invalid_command.validate().is_err());

    let long_name = "a".repeat(101);
    let invalid_command =
        CreateBackboneCommand::new(long_name, "Test Description".to_string(), vec![], vec![], "test_user".to_string());
    assert!(invalid_command.validate().is_err());
}

#[test]
fn test_get_backbone_query_validation() {
    let valid_query = GetBackboneQuery::new("123e4567-e89b-12d3-a456-426614174000".to_string());
    assert!(valid_query.validate().is_ok());

    let invalid_query = GetBackboneQuery::new("".to_string());
    assert!(invalid_query.validate().is_err());

    let invalid_query = GetBackboneQuery::new("invalid-uuid".to_string());
    assert!(invalid_query.validate().is_err());
}

#[test]
fn test_list_backbones_query_validation() {
    let valid_query = ListBackbonesQuery::new().with_pagination(1, 20).with_sort("name".to_string(), "asc".to_string());
    assert!(valid_query.validate().is_ok());

    let invalid_query = ListBackbonesQuery::new().with_pagination(0, 20);
    assert!(invalid_query.validate().is_err());

    let invalid_query = ListBackbonesQuery::new().with_pagination(1, 0);
    assert!(invalid_query.validate().is_err());

    let invalid_query = ListBackbonesQuery::new().with_pagination(1, 101);
    assert!(invalid_query.validate().is_err());

    let invalid_query = ListBackbonesQuery::new().with_sort("invalid_field".to_string(), "asc".to_string());
    assert!(invalid_query.validate().is_err());

    let invalid_query = ListBackbonesQuery::new().with_sort("name".to_string(), "invalid".to_string());
    assert!(invalid_query.validate().is_err());
}

#[test]
fn test_backbone_filters_validation() {
    let valid_filters = BackboneFilters::new()
        .with_status("ACTIVE".to_string())
        .with_tags(vec!["test".to_string()])
        .with_created_by("user".to_string());
    assert!(valid_filters.validate().is_ok());

    let invalid_filters = BackboneFilters::new().with_status("INVALID".to_string());
    assert!(invalid_filters.validate().is_err());

    let too_many_tags: Vec<String> = (0..51).map(|i| format!("tag{}", i)).collect();
    let invalid_filters = BackboneFilters::new().with_tags(too_many_tags);
    assert!(invalid_filters.validate().is_err());

    let invalid_filters = BackboneFilters::new().with_tags(vec!["".to_string()]);
    assert!(invalid_filters.validate().is_err());

    let invalid_filters = BackboneFilters::new().with_date_range(Some("invalid-date".to_string()), None);
    assert!(invalid_filters.validate().is_err());
}

#[test]
fn test_search_backbones_query_validation() {
    let valid_query = SearchBackbonesQuery::new("test".to_string()).with_pagination(1, 20);
    assert!(valid_query.validate().is_ok());

    let invalid_query = SearchBackbonesQuery::new("".to_string());
    assert!(invalid_query.validate().is_err());

    let long_query = "a".repeat(1001);
    let invalid_query = SearchBackbonesQuery::new(long_query);
    assert!(invalid_query.validate().is_err());
}
