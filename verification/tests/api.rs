use promo::api::{
    BackboneDto, BackboneListResponse, CreateBackboneRequest, GetBackboneResponse, ListBackbonesRequest,
    ListBackbonesResponse, PaginatedResult, SearchBackbonesRequest, get_outcome,
};
use promo::backbone::Backbone;
use promo::errors::DomainError;
use promo::queries::GetBackboneQuery;
use promo::value_objects::{BackboneName, Metadata};

fn sample_backbone() -> Backbone {
    Backbone::create(
        BackboneName::new("Test Backbone").unwrap(),
        "Test Description".to_string(),
        vec!["test".to_string()],
        {
            let mut metadata = Metadata::new();
            metadata.insert("env".to_string(), "test".to_string()).unwrap();
            metadata
        },
        "test_user".to_string(),
    )
    .unwrap()
}

#[test]
fn test_create_backbone_request_conversion() {
    let request = CreateBackboneRequest {
        name: "Test Backbone".to_string(),
        description: "Test Description".to_string(),
        tags: vec!["test".to_string()],
        metadata: vec![],
    };

    let command = request.into_command();

    assert_eq!(command.name, "Test Backbone");
    assert_eq!(command.description, "Test Description");
    assert_eq!(command.tags, vec!["test"]);
    assert!(command.metadata.is_empty());
    assert_eq!(command.created_by, "system");
}

#[test]
fn test_backbone_dto_conversion() {
    let backbone = sample_backbone();
    let dto = BackboneDto::from_backbone(&backbone);

    assert_eq!(dto.name, "Test Backbone");
    assert_eq!(dto.description, "Test Description");
    assert_eq!(dto.status, "ACTIVE");
    assert_eq!(dto.tags, vec!["test"]);
    assert_eq!(dto.created_by, "test_user");
    assert!(dto.metadata.iter().any(|(k, _)| k == "env"));
    assert_eq!(dto.version, 1);
}

#[test]
fn list_request_defaults_paging_and_drops_a_half_sort() {
    let request = ListBackbonesRequest {
        page: None,
        page_size: None,
        sort_by: Some("name".to_string()),
        sort_direction: None,
        status: None,
        tags: None,
        created_by: None,
        search: None,
    };
    let q = request.into_query();
    assert_eq!(q.page, Some(1));
    assert_eq!(q.page_size, Some(20));
    assert!(q.sort_by.is_none());
    assert!(q.filters.is_none());
}

#[test]
fn list_request_carries_sort_and_filters() {
    let request = ListBackbonesRequest {
        page: Some(3),
        page_size: Some(5),
        sort_by: Some("name".to_string()),
        sort_direction: Some("desc".to_string()),
        status: Some("ACTIVE".to_string()),
        tags: Some(vec!["a".to_string()]),
        created_by: None,
        search: Some("ignored".to_string()),
    };
    let q = request.into_query();
    assert_eq!(q.page, Some(3));
    assert_eq!(q.page_size, Some(5));
    assert_eq!(q.sort_by.as_deref(), Some("name"));
    assert_eq!(q.sort_direction.as_deref(), Some("desc"));
    let f = q.filters.unwrap();
    assert_eq!(f.status.as_deref(), Some("ACTIVE"));
    assert_eq!(f.tags, Some(vec!["a".to_string()]));
    assert!(f.created_by.is_none());
}

#[test]
fn search_request_becomes_a_search_query() {
    let request = SearchBackbonesRequest {
        query: "needle".to_string(),
        page: None,
        page_size: Some(50),
        sort_by: None,
        sort_direction: Some("asc".to_string()),
    };
    let q = request.into_query();
    assert_eq!(q.query, "needle");
    assert_eq!(q.page, Some(1));
    assert_eq!(q.page_size, Some(50));
    assert!(q.sort_direction.is_none());
}

#[test]
fn lookup_outcomes_map_to_responses() {
    let q = GetBackboneQuery::new("123e4567-e89b-12d3-a456-426614174000".to_string());
    let found = get_outcome(q.clone(), Ok(Some(sample_backbone()))).unwrap();
    assert!(found.success);
    assert!(found.backbone.is_some());
    assert_eq!(found.message, "Backbone retrieved successfully");

    let missing = get_outcome(q.clone(), Ok(None)).unwrap();
    assert!(!missing.success);
    assert!(missing.backbone.is_none());
    assert_eq!(missing.message, "Backbone with ID '123e4567-e89b-12d3-a456-426614174000' not found");
    assert!(missing.message.contains("not found"));

    let failed = get_outcome(q, Err(DomainError::RepositoryError { message: "down".to_string() }));
    assert!(failed.is_err());

    let e = GetBackboneResponse::error("boom".to_string());
    assert!(!e.success && e.message == "boom");
}

#[test]
fn listing_responses_carry_the_page() {
    let page = PaginatedResult {
        items: vec![sample_backbone(), sample_backbone()],
        total: 12,
        page: 2,
        page_size: 2,
        total_pages: 6,
        has_next: true,
        has_previous: true,
    };
    let r = ListBackbonesResponse::success(page);
    assert!(r.success);
    assert_eq!(r.backbones.len(), 2);
    assert_eq!(r.total, 12);
    assert_eq!(r.message, "Backbones retrieved successfully");
    let body = BackboneListResponse::from_response(r);
    assert_eq!(body.pagination.page, 2);
    assert_eq!(body.pagination.total_pages, 6);
    assert!(body.filters.is_none());

    let e = ListBackbonesResponse::error("nope".to_string());
    assert!(!e.success);
    assert_eq!((e.page, e.page_size, e.total, e.total_pages), (1, 20, 0, 0));
}
