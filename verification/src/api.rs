//! The HTTP surface's request and response shapes, and the decisions the handlers make
//! around a repository call: turning a request into a command or query, and a lookup's outcome
//! into a response.

use vstd::prelude::*;
use crate::backbone::{Backbone, strings_view, clone_strings};
use crate::commands::CreateBackboneCommand;
use crate::errors::DomainError;
use crate::queries::{
    BackboneFilters, ListBackbonesQuery, SearchBackbonesQuery, GetBackboneQuery, opt_view,
    opt_strings_view,
};
use crate::timestamp::BackboneTimestamp;
use crate::value_objects::{pairs_view, status_text};

verus! {

/// A request to create a backbone.
#[derive(Debug, Clone)]
pub struct CreateBackboneRequest {
    pub name: String,
    pub description: String,
    pub tags: Vec<String>,
    pub metadata: Vec<(String, String)>,
}

impl CreateBackboneRequest {
    /// The creation command; the creator is the system account.
    pub fn into_command(self) -> (r: CreateBackboneCommand)
        ensures
            r.name@ == self.name@,
            r.description@ == self.description@,
            r.tags@ == self.tags@,
            r.metadata@ == self.metadata@,
            r.created_by@ == "system"@,
    {
        CreateBackboneCommand {
            name: self.name,
            description: self.description,
            tags: self.tags,
            metadata: self.metadata,
            created_by: String::from_str("system"),
        }
    }
}

/// A listing request: page, sort and filter parameters as they arrive.
#[derive(Debug, Clone)]
pub struct ListBackbonesRequest {
    pub page: Option<usize>,
    pub page_size: Option<usize>,
    pub sort_by: Option<String>,
    pub sort_direction: Option<String>,
    pub status: Option<String>,
    pub tags: Option<Vec<String>>,
    pub created_by: Option<String>,
    pub search: Option<String>,
}

pub open spec fn or_default(o: Option<usize>, d: usize) -> usize {
    match o {
        Some(v) => v,
        None => d,
    }
}

impl ListBackbonesRequest {
    /// The listing query: page 1 and 20 per page by default; the sort only when both its field
    /// and direction are given; filters only when a status, tags or a creator is given.
    pub fn into_query(self) -> (r: ListBackbonesQuery)
        ensures
            r.page == Some(or_default(self.page, 1)),
            r.page_size == Some(or_default(self.page_size, 20)),
            (self.sort_by is Some && self.sort_direction is Some) ==> (opt_view(r.sort_by) == opt_view(self.sort_by)
                && opt_view(r.sort_direction) == opt_view(self.sort_direction)),
            !(self.sort_by is Some && self.sort_direction is Some) ==> (r.sort_by is None && r.sort_direction is None),
            r.filters is Some <==> (self.status is Some || self.tags is Some || self.created_by is Some),
            r.filters matches Some(f) ==> {
                &&& opt_view(f.status) == opt_view(self.status)
                &&& f.tags == self.tags
                &&& opt_view(f.created_by) == opt_view(self.created_by)
                &&& f.created_after is None
                &&& f.created_before is None
                &&& f.metadata is None
            },
    {
        let mut filters: Option<BackboneFilters> = None;
        if self.status.is_some() || self.tags.is_some() || self.created_by.is_some() {
            let mut f = BackboneFilters::new();
            if let Some(status) = self.status {
                f = f.with_status(status);
            }
            if let Some(tags) = self.tags {
                f = f.with_tags(tags);
            }
            if let Some(created_by) = self.created_by {
                f = f.with_created_by(created_by);
            }
            filters = Some(f);
        }
        let page = match self.page {
            Some(p) => p,
            None => 1,
        };
        let page_size = match self.page_size {
            Some(p) => p,
            None => 20,
        };
        let mut query = ListBackbonesQuery::new().with_pagination(page, page_size);
        if let Some(sort_by) = self.sort_by {
            if let Some(sort_direction) = self.sort_direction {
                query = query.with_sort(sort_by, sort_direction);
            }
        }
        if let Some(f) = filters {
            query = query.with_filters(f);
        }
        query
    }
}

/// A search request.
#[derive(Debug, Clone)]
pub struct SearchBackbonesRequest {
    pub query: String,
    pub page: Option<usize>,
    pub page_size: Option<usize>,
    pub sort_by: Option<String>,
    pub sort_direction: Option<String>,
}

impl SearchBackbonesRequest {
    /// The search query: page 1 and 20 per page by default; the sort only when both its field
    /// and direction are given.
    pub fn into_query(self) -> (r: SearchBackbonesQuery)
        ensures
            r.query@ == self.query@,
            r.page == Some(or_default(self.page, 1)),
            r.page_size == Some(or_default(self.page_size, 20)),
            (self.sort_by is Some && self.sort_direction is Some) ==> (opt_view(r.sort_by) == opt_view(self.sort_by)
                && opt_view(r.sort_direction) == opt_view(self.sort_direction)),
            !(self.sort_by is Some && self.sort_direction is Some) ==> (r.sort_by is None && r.sort_direction is None),
    {
        let page = match self.page {
            Some(p) => p,
            None => 1,
        };
        let page_size = match self.page_size {
            Some(p) => p,
            None => 20,
        };
        let mut query = SearchBackbonesQuery::new(self.query).with_pagination(page, page_size);
        if let Some(sort_by) = self.sort_by {
            if let Some(sort_direction) = self.sort_direction {
                query = query.with_sort(sort_by, sort_direction);
            }
        }
        query
    }
}

/// A partial update request.
#[derive(Debug, Clone)]
pub struct UpdateBackboneRequest {
    pub name: Option<String>,
    pub description: Option<String>,
    pub tags: Option<Vec<String>>,
    pub metadata: Option<Vec<(String, String)>>,
    pub status: Option<String>,
}

/// A status change request.
#[derive(Debug, Clone)]
pub struct BackboneStatusRequest {
    pub status: String,
    pub reason: Option<String>,
}

/// A backbone as the API shows it.
#[derive(Debug, Clone)]
pub struct BackboneDto {
    pub id: String,
    pub name: String,
    pub description: String,
    pub status: String,
    pub tags: Vec<String>,
    pub metadata: Vec<(String, String)>,
    pub created_by: String,
    pub created_at: BackboneTimestamp,
    pub updated_at: BackboneTimestamp,
    pub deleted_at: Option<BackboneTimestamp>,
    pub version: i64,
}

impl BackboneDto {
    /// The API view of a backbone.
    pub fn from_backbone(backbone: &Backbone) -> (r: BackboneDto)
        ensures
            r.id@ == backbone.id.0@,
            r.name@ == backbone.name.0@,
            r.description@ == backbone.description@,
            r.status@ == status_text(backbone.status),
            strings_view(r.tags@) == strings_view(backbone.tags@),
            pairs_view(r.metadata@) == backbone.metadata@,
            r.created_by@ == backbone.created_by@,
            r.created_at == backbone.created_at,
            r.updated_at == backbone.updated_at,
            r.deleted_at == backbone.deleted_at,
            r.version == backbone.version.0,
    {
        BackboneDto {
            id: String::from_str(backbone.id().value()),
            name: String::from_str(backbone.name()),
            description: String::from_str(backbone.description()),
            status: String::from_str(backbone.status().value()),
            tags: clone_strings(backbone.tags()),
            metadata: backbone.metadata().to_map(),
            created_by: String::from_str(backbone.created_by()),
            created_at: *backbone.created_at(),
            updated_at: *backbone.updated_at(),
            deleted_at: backbone.deleted_at(),
            version: backbone.version().value(),
        }
    }
}

/// The answer to a single-backbone lookup.
#[derive(Debug, Clone)]
pub struct GetBackboneResponse {
    pub success: bool,
    pub backbone: Option<BackboneDto>,
    pub message: String,
}

impl GetBackboneResponse {
    pub fn success(backbone: Backbone) -> (r: Self)
        ensures
            r.success,
            r.backbone is Some,
            r.backbone.unwrap().id@ == backbone.id.0@,
            r.message@ == "Backbone retrieved successfully"@,
    {
        GetBackboneResponse {
            success: true,
            backbone: Some(BackboneDto::from_backbone(&backbone)),
            message: String::from_str("Backbone retrieved successfully"),
        }
    }

    pub fn not_found(id: String) -> (r: Self)
        ensures
            !r.success,
            r.backbone is None,
            r.message@ == "Backbone with ID '"@ + id@ + "' not found"@,
    {
        let m = String::from_str("Backbone with ID '").concat(id.as_str()).concat("' not found");
        GetBackboneResponse { success: false, backbone: None, message: m }
    }

    pub fn error(message: String) -> (r: Self)
        ensures
            !r.success,
            r.backbone is None,
            r.message@ == message@,
    {
        GetBackboneResponse { success: false, backbone: None, message }
    }
}

/// One page of backbones as the store returns it.
#[derive(Debug, Clone)]
pub struct PaginatedResult {
    pub items: Vec<Backbone>,
    pub total: u64,
    pub page: usize,
    pub page_size: usize,
    pub total_pages: usize,
    pub has_next: bool,
    pub has_previous: bool,
}

/// The answer to a listing or search.
#[derive(Debug, Clone)]
pub struct ListBackbonesResponse {
    pub success: bool,
    pub backbones: Vec<BackboneDto>,
    pub total: u64,
    pub page: usize,
    pub page_size: usize,
    pub total_pages: usize,
    pub has_next: bool,
    pub has_previous: bool,
    pub message: String,
}

impl ListBackbonesResponse {
    pub fn success(result: PaginatedResult) -> (r: Self)
        ensures
            r.success,
            r.backbones.len() == result.items.len(),
            forall|i: int| 0 <= i < result.items.len() ==> (#[trigger] r.backbones@[i]).id@ == result.items@[i].id.0@,
            r.total == result.total,
            r.page == result.page,
            r.page_size == result.page_size,
            r.total_pages == result.total_pages,
            r.has_next == result.has_next,
            r.has_previous == result.has_previous,
            r.message@ == "Backbones retrieved successfully"@,
    {
        let mut backbones: Vec<BackboneDto> = Vec::new();
        let mut i: usize = 0;
        while i < result.items.len()
            invariant
                i <= result.items.len(),
                backbones.len() == i,
                forall|k: int| 0 <= k < i ==> (#[trigger] backbones@[k]).id@ == result.items@[k].id.0@,
            decreases result.items.len() - i,
        {
            backbones.push(BackboneDto::from_backbone(&result.items[i]));
            i = i + 1;
        }
        ListBackbonesResponse {
            success: true,
            backbones,
            total: result.total,
            page: result.page,
            page_size: result.page_size,
            total_pages: result.total_pages,
            has_next: result.has_next,
            has_previous: result.has_previous,
            message: String::from_str("Backbones retrieved successfully"),
        }
    }

    pub fn error(message: String) -> (r: Self)
        ensures
            !r.success,
            r.backbones.len() == 0,
            r.total == 0,
            r.page == 1,
            r.page_size == 20,
            r.total_pages == 0,
            !r.has_next,
            !r.has_previous,
            r.message@ == message@,
    {
        ListBackbonesResponse {
            success: false,
            backbones: Vec::new(),
            total: 0,
            page: 1,
            page_size: 20,
            total_pages: 0,
            has_next: false,
            has_previous: false,
            message,
        }
    }
}

/// Paging details of a listing response.
#[derive(Debug, Clone, Copy)]
pub struct PaginationInfo {
    pub page: usize,
    pub page_size: usize,
    pub total: u64,
    pub total_pages: usize,
    pub has_next: bool,
    pub has_previous: bool,
}

/// Filters echoed back with a listing.
#[derive(Debug, Clone)]
pub struct AppliedFilters {
    pub status: Option<String>,
    pub tags: Option<Vec<String>>,
    pub created_by: Option<String>,
}

/// The listing body the API sends.
#[derive(Debug, Clone)]
pub struct BackboneListResponse {
    pub data: Vec<BackboneDto>,
    pub pagination: PaginationInfo,
    pub filters: Option<AppliedFilters>,
}

impl BackboneListResponse {
    /// The body for a listing or search result (no filters echoed).
    pub fn from_response(response: ListBackbonesResponse) -> (r: Self)
        ensures
            r.data@ == response.backbones@,
            r.pagination.page == response.page,
            r.pagination.page_size == response.page_size,
            r.pagination.total == response.total,
            r.pagination.total_pages == response.total_pages,
            r.pagination.has_next == response.has_next,
            r.pagination.has_previous == response.has_previous,
            r.filters is None,
    {
        BackboneListResponse {
            data: response.backbones,
            pagination: PaginationInfo {
                page: response.page,
                page_size: response.page_size,
                total: response.total,
                total_pages: response.total_pages,
                has_next: response.has_next,
                has_previous: response.has_previous,
            },
            filters: None,
        }
    }
}

/// Map a lookup's outcome to the response: found, not found (with the requested id), or the
/// store's error.
pub fn get_outcome(query: GetBackboneQuery, found: Result<Option<Backbone>, DomainError>) -> (r: Result<GetBackboneResponse, DomainError>)
    ensures
        found matches Ok(Some(b)) ==> (r matches Ok(resp) && resp.success && resp.backbone is Some),
        found matches Ok(None) ==> (r matches Ok(resp) && !resp.success && resp.message@ == "Backbone with ID '"@
            + query.id@ + "' not found"@),
        found is Err ==> r is Err,
{
    match found {
        Ok(Some(b)) => Ok(GetBackboneResponse::success(b)),
        Ok(None) => Ok(GetBackboneResponse::not_found(query.id)),
        Err(e) => Err(e),
    }
}

// ---- handlers -------------------------------------------------------------------------------

/// Looks up one backbone in the store `R`.
pub struct DefaultGetBackboneHandler<R> {
    pub repository: R,
}

impl<R> DefaultGetBackboneHandler<R> {
    pub fn new(repository: R) -> (r: Self)
        ensures
            r.repository == repository,
    {
        DefaultGetBackboneHandler { repository }
    }
}

/// Lists backbones from the store `R`.
pub struct DefaultListBackbonesHandler<R> {
    pub repository: R,
}

impl<R> DefaultListBackbonesHandler<R> {
    pub fn new(repository: R) -> (r: Self)
        ensures
            r.repository == repository,
    {
        DefaultListBackbonesHandler { repository }
    }
}

/// Searches backbones in the store `R`.
pub struct DefaultSearchBackbonesHandler<R> {
    pub repository: R,
}

impl<R> DefaultSearchBackbonesHandler<R> {
    pub fn new(repository: R) -> (r: Self)
        ensures
            r.repository == repository,
    {
        DefaultSearchBackbonesHandler { repository }
    }
}

/// Builds the query handlers over a store.
pub struct BackboneQueryHandlerFactory;

impl BackboneQueryHandlerFactory {
    pub fn create_get_handler<R>(repository: R) -> (r: DefaultGetBackboneHandler<R>)
        ensures
            r.repository == repository,
    {
        DefaultGetBackboneHandler::new(repository)
    }

    pub fn create_list_handler<R>(repository: R) -> (r: DefaultListBackbonesHandler<R>)
        ensures
            r.repository == repository,
    {
        DefaultListBackbonesHandler::new(repository)
    }

    pub fn create_search_handler<R>(repository: R) -> (r: DefaultSearchBackbonesHandler<R>)
        ensures
            r.repository == repository,
    {
        DefaultSearchBackbonesHandler::new(repository)
    }
}

/// Creates backbones in the store `R`, optionally consulting a validation service `V`.
pub struct DefaultCreateBackboneHandler<R, V> {
    pub repository: R,
    pub validation_service: Option<V>,
}

impl<R, V> DefaultCreateBackboneHandler<R, V> {
    pub fn new(repository: R) -> (r: Self)
        ensures
            r.repository == repository,
            r.validation_service is None,
    {
        DefaultCreateBackboneHandler { repository, validation_service: None }
    }

    pub fn with_validation_service(self, validation_service: V) -> (r: Self)
        ensures
            r.repository == self.repository,
            r.validation_service == Some(validation_service),
    {
        DefaultCreateBackboneHandler { repository: self.repository, validation_service: Some(validation_service) }
    }
}

/// Builds the creation handler over a store.
pub struct CreateBackboneHandlerFactory;

impl CreateBackboneHandlerFactory {
    /// A handler that consults `validation_service` when one is given.
    pub fn create_handler<R, V>(repository: R, validation_service: Option<V>) -> (r: DefaultCreateBackboneHandler<R, V>)
        ensures
            r.repository == repository,
            r.validation_service == validation_service,
    {
        let handler = DefaultCreateBackboneHandler::new(repository);
        match validation_service {
            Some(vs) => handler.with_validation_service(vs),
            None => handler,
        }
    }

    /// A handler without a validation service.
    pub fn create_simple_handler<R, V>(repository: R) -> (r: DefaultCreateBackboneHandler<R, V>)
        ensures
            r.repository == repository,
            r.validation_service is None,
    {
        DefaultCreateBackboneHandler::new(repository)
    }
}

} // verus!
