//! Read-side requests for backbones: fetching one by id, listing with pagination, sorting
//! and filters, and free-text search. Each request validates itself before it reaches storage.

use vstd::prelude::*;
use vstd::string::*;
use crate::backbone::{clone_strings, strings_view};
use crate::errors::{validation_error, DomainError};
use crate::text::{
    byte_len, spec_to_lowercase, spec_to_uppercase, str_byte_len, str_eq, str_to_lowercase,
    str_to_uppercase, trim, trim_spec,
};
use crate::timestamp::BackboneTimestamp;
use crate::value_objects::{
    clone_pairs, id_has_five_parts, pairs_view, status_from_upper_spec, BackboneId, BackboneStatus,
};

verus! {

// ------------------------------------------------------------------------------------------
// Outside parsing
// ------------------------------------------------------------------------------------------

/// The UTC instant (seconds, nanoseconds) an RFC 3339 text denotes, if it parses
/// (`chrono::DateTime::parse_from_rfc3339`).
pub uninterp spec fn spec_parse_rfc3339(s: Seq<char>) -> Option<(i64, u32)>;

/// `DateTime::parse_from_rfc3339`, converted to UTC; `None` when the text does not parse.
#[verifier::external_body]
fn parse_rfc3339(s: &str) -> (r: Option<(i64, u32)>)
    ensures
        r == spec_parse_rfc3339(s@),
{
    match chrono::DateTime::parse_from_rfc3339(s) {
        Ok(dt) => {
            let utc = dt.with_timezone(&chrono::Utc);
            Some((utc.timestamp(), utc.timestamp_subsec_nanos()))
        },
        Err(_) => None,
    }
}

/// `prefix` followed by `s`.
fn join(prefix: &str, s: &str) -> (r: String)
    ensures
        r@ == prefix@ + s@,
{
    String::from_str(prefix).concat(s)
}

// ------------------------------------------------------------------------------------------
// Pagination and sorting
// ------------------------------------------------------------------------------------------

/// A 1-based page request.
#[derive(Debug, Clone, Copy, PartialEq, Eq, Structural)]
pub struct PaginationParams {
    pub page: usize,
    pub page_size: usize,
}

impl PaginationParams {
    pub fn new(page: usize, page_size: usize) -> (r: Self)
        ensures
            r.page == page,
            r.page_size == page_size,
    {
        PaginationParams { page, page_size }
    }
}

/// A field backbones can be ordered by.
#[derive(Debug, Clone, Copy, PartialEq, Eq, Structural)]
pub enum SortField {
    Id,
    Name,
    Status,
    CreatedAt,
    UpdatedAt,
    CreatedBy,
}

/// Sort direction.
#[derive(Debug, Clone, Copy, PartialEq, Eq, Structural)]
pub enum SortDirection {
    Ascending,
    Descending,
}

/// An ordering request.
#[derive(Debug, Clone, Copy, PartialEq, Eq, Structural)]
pub struct SortParams {
    pub field: SortField,
    pub direction: SortDirection,
}

impl SortParams {
    pub fn new(field: SortField, direction: SortDirection) -> (r: Self)
        ensures
            r.field == field,
            r.direction == direction,
    {
        SortParams { field, direction }
    }
}

/// Whether `s` names a sortable field.
pub open spec fn is_sort_field(s: Seq<char>) -> bool {
    s == "id"@ || s == "name"@ || s == "status"@ || s == "created_at"@ || s == "updated_at"@ || s
        == "created_by"@
}

/// Whether `s` (already lower-cased) names a sort direction.
pub open spec fn is_sort_direction(s: Seq<char>) -> bool {
    s == "asc"@ || s == "ascending"@ || s == "desc"@ || s == "descending"@
}

/// The field a sort text selects; anything unknown (or absent) sorts by creation time.
pub open spec fn sort_field_of(s: Option<Seq<char>>) -> SortField {
    match s {
        Some(t) => if t == "id"@ {
            SortField::Id
        } else if t == "name"@ {
            SortField::Name
        } else if t == "status"@ {
            SortField::Status
        } else if t == "updated_at"@ {
            SortField::UpdatedAt
        } else if t == "created_by"@ {
            SortField::CreatedBy
        } else {
            SortField::CreatedAt
        },
        None => SortField::CreatedAt,
    }
}

/// The direction a sort text selects (case-insensitively); anything else is ascending.
pub open spec fn sort_direction_of(s: Option<Seq<char>>) -> SortDirection {
    match s {
        Some(t) => {
            let l = spec_to_lowercase(t);
            if l == "desc"@ || l == "descending"@ {
                SortDirection::Descending
            } else {
                SortDirection::Ascending
            }
        },
        None => SortDirection::Ascending,
    }
}

/// A sort direction is descending exactly when its lower-case form is `desc` or `descending`;
/// any other text, and no text, sorts ascending.
pub proof fn lemma_sort_direction(t: Seq<char>)
    ensures
        sort_direction_of(Some(t)) == SortDirection::Descending <==> (spec_to_lowercase(t) == "desc"@
            || spec_to_lowercase(t) == "descending"@),
        sort_direction_of(Some(t)) == SortDirection::Ascending <==> !(spec_to_lowercase(t) == "desc"@
            || spec_to_lowercase(t) == "descending"@),
        sort_direction_of(None) == SortDirection::Ascending,
{
}

/// The field a sort text selects: `id`, `name`, `status`, `updated_at` and `created_by` their
/// own fields, anything else (including `created_at`) and no text the creation time.
pub proof fn lemma_sort_field(t: Seq<char>)
    ensures
        t == "id"@ ==> sort_field_of(Some(t)) == SortField::Id,
        t == "name"@ ==> sort_field_of(Some(t)) == SortField::Name,
        t == "status"@ ==> sort_field_of(Some(t)) == SortField::Status,
        t == "updated_at"@ ==> sort_field_of(Some(t)) == SortField::UpdatedAt,
        t == "created_by"@ ==> sort_field_of(Some(t)) == SortField::CreatedBy,
        (t != "id"@ && t != "name"@ && t != "status"@ && t != "updated_at"@ && t != "created_by"@)
            ==> sort_field_of(Some(t)) == SortField::CreatedAt,
        sort_field_of(None) == SortField::CreatedAt,
{
    reveal_strlit("id");
    reveal_strlit("name");
    reveal_strlit("status");
    reveal_strlit("updated_at");
    reveal_strlit("created_by");
    assert("id"@.len() == 2);
    assert("name"@.len() == 4);
    assert("status"@.len() == 6);
    assert("updated_at"@.len() == 10);
    assert("created_by"@.len() == 10);
    assert("updated_at"@[0] != "created_by"@[0]);
}

fn check_sort_field(s: &str) -> (r: bool)
    ensures
        r == is_sort_field(s@),
{
    str_eq(s, "id") || str_eq(s, "name") || str_eq(s, "status") || str_eq(s, "created_at")
        || str_eq(s, "updated_at") || str_eq(s, "created_by")
}

fn check_sort_direction(s: &str) -> (r: bool)
    ensures
        r == is_sort_direction(s@),
{
    str_eq(s, "asc") || str_eq(s, "ascending") || str_eq(s, "desc") || str_eq(s, "descending")
}

/// The text view of an optional string.
pub open spec fn opt_view(o: Option<String>) -> Option<Seq<char>> {
    match o {
        Some(s) => Some(s@),
        None => None,
    }
}

/// The first problem with a page / sort request, as its message.
pub open spec fn paging_error(
    page: Option<usize>,
    page_size: Option<usize>,
    sort_by: Option<Seq<char>>,
    sort_direction: Option<Seq<char>>,
) -> Option<Seq<char>> {
    if page == Some(0usize) {
        Some("Page number must be greater than 0"@)
    } else if page_size == Some(0usize) {
        Some("Page size must be greater than 0"@)
    } else if page_size matches Some(ps) && ps > 100 {
        Some("Page size cannot exceed 100"@)
    } else if sort_by is Some && !is_sort_field(sort_by->0) {
        Some("Invalid sort field: "@ + sort_by->0)
    } else if sort_direction is Some && !is_sort_direction(spec_to_lowercase(sort_direction->0)) {
        Some("Invalid sort direction: "@ + sort_direction->0)
    } else {
        None
    }
}

/// Validate a page / sort request.
pub fn validate_paging(
    page: Option<usize>,
    page_size: Option<usize>,
    sort_by: &Option<String>,
    sort_direction: &Option<String>,
) -> (r: Result<(), DomainError>)
    ensures
        match paging_error(page, page_size, opt_view(*sort_by), opt_view(*sort_direction)) {
            Some(m) => r matches Err(e) && e.is_validation(m),
            None => r is Ok,
        },
{
    if let Some(p) = page {
        if p == 0 {
            return Err(validation_error(String::from_str("Page number must be greater than 0")));
        }
    }
    if let Some(ps) = page_size {
        if ps == 0 {
            return Err(validation_error(String::from_str("Page size must be greater than 0")));
        }
        if ps > 100 {
            return Err(validation_error(String::from_str("Page size cannot exceed 100")));
        }
    }
    if let Some(f) = sort_by {
        if !check_sort_field(f.as_str()) {
            return Err(validation_error(join("Invalid sort field: ", f.as_str())));
        }
    }
    if let Some(d) = sort_direction {
        let lower = str_to_lowercase(d.as_str());
        if !check_sort_direction(lower.as_str()) {
            return Err(validation_error(join("Invalid sort direction: ", d.as_str())));
        }
    }
    Ok(())
}

/// The pagination a request asks for, defaulting to page 1 of 20.
pub fn pagination_of(page: Option<usize>, page_size: Option<usize>) -> (r: PaginationParams)
    ensures
        r.page == match page {
            Some(p) => p,
            None => 1usize,
        },
        r.page_size == match page_size {
            Some(p) => p,
            None => 20usize,
        },
{
    let p = match page {
        Some(p) => p,
        None => 1,
    };
    let ps = match page_size {
        Some(p) => p,
        None => 20,
    };
    PaginationParams::new(p, ps)
}

/// The ordering a request asks for.
pub fn sort_of(sort_by: &Option<String>, sort_direction: &Option<String>) -> (r: SortParams)
    ensures
        r.field == sort_field_of(opt_view(*sort_by)),
        r.direction == sort_direction_of(opt_view(*sort_direction)),
{
    let field = match sort_by {
        Some(t) => {
            let t = t.as_str();
            if str_eq(t, "id") {
                SortField::Id
            } else if str_eq(t, "name") {
                SortField::Name
            } else if str_eq(t, "status") {
                SortField::Status
            } else if str_eq(t, "updated_at") {
                SortField::UpdatedAt
            } else if str_eq(t, "created_by") {
                SortField::CreatedBy
            } else {
                SortField::CreatedAt
            }
        },
        None => SortField::CreatedAt,
    };
    let direction = match sort_direction {
        Some(d) => {
            let l = str_to_lowercase(d.as_str());
            if str_eq(l.as_str(), "desc") || str_eq(l.as_str(), "descending") {
                SortDirection::Descending
            } else {
                SortDirection::Ascending
            }
        },
        None => SortDirection::Ascending,
    };
    SortParams::new(field, direction)
}

// ------------------------------------------------------------------------------------------
// GetBackboneQuery
// ------------------------------------------------------------------------------------------

/// Fetch one backbone by id.
#[derive(Debug, Clone)]
pub struct GetBackboneQuery {
    pub id: String,
}

impl GetBackboneQuery {
    pub fn new(id: String) -> (r: Self)
        ensures
            r.id@ == id@,
    {
        GetBackboneQuery { id }
    }

    /// The id must be non-blank and well formed.
    pub open spec fn error(&self) -> Option<Seq<char>> {
        if trim_spec(self.id@).len() == 0 {
            Some("Backbone ID cannot be empty"@)
        } else if !id_has_five_parts(self.id@) {
            Some("Invalid Backbone ID format"@)
        } else {
            None
        }
    }

    pub fn validate(&self) -> (r: Result<(), DomainError>)
        ensures
            match self.error() {
                Some(m) => r matches Err(e) && e.is_validation(m),
                None => r is Ok,
            },
    {
        let t = trim(self.id.as_str());
        if t.as_str().unicode_len() == 0 {
            return Err(validation_error(String::from_str("Backbone ID cannot be empty")));
        }
        match BackboneId::new(self.id.as_str()) {
            Ok(_) => Ok(()),
            Err(_) => Err(validation_error(String::from_str("Invalid Backbone ID format"))),
        }
    }
}

// ------------------------------------------------------------------------------------------
// BackboneFilters
// ------------------------------------------------------------------------------------------

/// Optional filters on a listing; dates are RFC 3339 texts.
#[derive(Debug, Clone)]
pub struct BackboneFilters {
    pub status: Option<String>,
    pub tags: Option<Vec<String>>,
    pub created_by: Option<String>,
    pub created_after: Option<String>,
    pub created_before: Option<String>,
    pub updated_after: Option<String>,
    pub updated_before: Option<String>,
    pub metadata: Option<Vec<(String, String)>>,
}

/// Whether an upper-cased text names a status.
pub open spec fn is_status_text(s: Seq<char>) -> bool {
    s == "ACTIVE"@ || s == "INACTIVE"@ || s == "SUSPENDED"@ || s == "ARCHIVED"@
}

/// The first problem among `tags`: a blank tag reports `empty_msg`, one over 50 bytes
/// reports `long_msg`.
pub open spec fn tag_list_error(tags: Seq<Seq<char>>, empty_msg: Seq<char>, long_msg: Seq<char>) -> Option<
    Seq<char>,
>
    decreases tags.len(),
{
    if tags.len() == 0 {
        None
    } else if trim_spec(tags[0]).len() == 0 {
        Some(empty_msg)
    } else if byte_len(tags[0]) > 50 {
        Some(long_msg)
    } else {
        tag_list_error(tags.drop_first(), empty_msg, long_msg)
    }
}

/// The first problem among key/value pairs: an empty key, a key over 50 bytes, or a value
/// over 500 bytes, reported with the matching message.
pub open spec fn pair_list_error(
    pairs: Seq<(Seq<char>, Seq<char>)>,
    empty_key: Seq<char>,
    long_key: Seq<char>,
    long_value: Seq<char>,
) -> Option<Seq<char>>
    decreases pairs.len(),
{
    if pairs.len() == 0 {
        None
    } else if pairs[0].0.len() == 0 {
        Some(empty_key)
    } else if byte_len(pairs[0].0) > 50 {
        Some(long_key)
    } else if byte_len(pairs[0].1) > 500 {
        Some(long_value)
    } else {
        pair_list_error(pairs.drop_first(), empty_key, long_key, long_value)
    }
}

/// The first problem among filter tags.
pub open spec fn filter_tag_error(tags: Seq<Seq<char>>) -> Option<Seq<char>> {
    tag_list_error(tags, "Filter tags cannot be empty"@, "Filter tag cannot exceed 50 characters"@)
}

/// The first problem among metadata filter pairs.
pub open spec fn filter_pair_error(pairs: Seq<(Seq<char>, Seq<char>)>) -> Option<Seq<char>> {
    pair_list_error(
        pairs,
        "Metadata filter keys cannot be empty"@,
        "Metadata filter key cannot exceed 50 characters"@,
        "Metadata filter value cannot exceed 500 characters"@,
    )
}

/// The message for a date text that does not parse.
pub open spec fn date_error(d: Option<Seq<char>>) -> Option<Seq<char>> {
    match d {
        Some(t) => if spec_parse_rfc3339(t) is None {
            Some("Invalid date format: "@ + t + ". Expected ISO 8601 format"@)
        } else {
            None
        },
        None => None,
    }
}

/// The first problem among `tags`, as its message.
pub fn check_tag_list(tags: &Vec<String>, empty_msg: &str, long_msg: &str) -> (r: Option<String>)
    ensures
        opt_view(r) == tag_list_error(strings_view(tags@), empty_msg@, long_msg@),
{
    let n = tags.len();
    let mut i: usize = 0;
    assert(strings_view(tags@).subrange(0, n as int) =~= strings_view(tags@));
    while i < n
        invariant
            n == tags@.len(),
            i <= n,
            tag_list_error(strings_view(tags@), empty_msg@, long_msg@) == tag_list_error(
                strings_view(tags@).subrange(i as int, n as int),
                empty_msg@,
                long_msg@,
            ),
        decreases n - i,
    {
        let t = tags[i].as_str();
        proof {
            let s = strings_view(tags@).subrange(i as int, n as int);
            assert(s[0] == t@);
            assert(s.drop_first() =~= strings_view(tags@).subrange(i + 1, n as int));
        }
        let tt = trim(t);
        if tt.as_str().unicode_len() == 0 {
            return Some(String::from_str(empty_msg));
        }
        if str_byte_len(t) > 50 {
            return Some(String::from_str(long_msg));
        }
        i = i + 1;
    }
    None
}

/// The first problem among key/value pairs, as its message.
pub fn check_pair_list(
    pairs: &Vec<(String, String)>,
    empty_key: &str,
    long_key: &str,
    long_value: &str,
) -> (r: Option<String>)
    ensures
        opt_view(r) == pair_list_error(pairs_view(pairs@), empty_key@, long_key@, long_value@),
{
    let n = pairs.len();
    let mut i: usize = 0;
    assert(pairs_view(pairs@).subrange(0, n as int) =~= pairs_view(pairs@));
    while i < n
        invariant
            n == pairs@.len(),
            i <= n,
            pair_list_error(pairs_view(pairs@), empty_key@, long_key@, long_value@)
                == pair_list_error(
                pairs_view(pairs@).subrange(i as int, n as int),
                empty_key@,
                long_key@,
                long_value@,
            ),
        decreases n - i,
    {
        let k = pairs[i].0.as_str();
        let v = pairs[i].1.as_str();
        proof {
            let s = pairs_view(pairs@).subrange(i as int, n as int);
            assert(s[0] == (k@, v@));
            assert(s.drop_first() =~= pairs_view(pairs@).subrange(i + 1, n as int));
        }
        if k.unicode_len() == 0 {
            return Some(String::from_str(empty_key));
        }
        if str_byte_len(k) > 50 {
            return Some(String::from_str(long_key));
        }
        if str_byte_len(v) > 500 {
            return Some(String::from_str(long_value));
        }
        i = i + 1;
    }
    None
}

fn check_date(d: &Option<String>) -> (r: Option<String>)
    ensures
        opt_view(r) == date_error(opt_view(*d)),
{
    match d {
        Some(t) => {
            match parse_rfc3339(t.as_str()) {
                Some(_) => None,
                None => {
                    let m = join("Invalid date format: ", t.as_str()).concat(
                        ". Expected ISO 8601 format",
                    );
                    Some(m)
                },
            }
        },
        None => None,
    }
}

/// The instant a date filter text denotes, when it parses.
pub open spec fn date_instant(d: Option<Seq<char>>) -> Option<BackboneTimestamp> {
    match d {
        Some(t) => match spec_parse_rfc3339(t) {
            Some(p) => Some(BackboneTimestamp { secs: p.0, nanos: p.1 }),
            None => None,
        },
        None => None,
    }
}

/// The text view of an optional list of strings.
pub open spec fn opt_strings_view(o: Option<Vec<String>>) -> Option<Seq<Seq<char>>> {
    match o {
        Some(v) => Some(strings_view(v@)),
        None => None,
    }
}

/// The text view of an optional list of string pairs.
pub open spec fn opt_pairs_view(o: Option<Vec<(String, String)>>) -> Option<
    Seq<(Seq<char>, Seq<char>)>,
> {
    match o {
        Some(v) => Some(pairs_view(v@)),
        None => None,
    }
}

/// Filters in the storage layer's terms.
#[derive(Debug, Clone)]
pub struct RepositoryFilters {
    pub status: Option<BackboneStatus>,
    pub tags: Option<Vec<String>>,
    pub created_by: Option<String>,
    pub created_after: Option<BackboneTimestamp>,
    pub created_before: Option<BackboneTimestamp>,
    pub updated_after: Option<BackboneTimestamp>,
    pub updated_before: Option<BackboneTimestamp>,
    pub metadata: Option<Vec<(String, String)>>,
}

fn instant_of(d: &Option<String>) -> (r: Option<BackboneTimestamp>)
    ensures
        r == date_instant(opt_view(*d)),
{
    match d {
        Some(t) => match parse_rfc3339(t.as_str()) {
            Some(p) => Some(BackboneTimestamp { secs: p.0, nanos: p.1 }),
            None => None,
        },
        None => None,
    }
}

fn clone_opt(o: &Option<String>) -> (r: Option<String>)
    ensures
        opt_view(r) == opt_view(*o),
{
    match o {
        Some(s) => Some(s.clone()),
        None => None,
    }
}

impl BackboneFilters {
    pub fn new() -> (r: Self)
        ensures
            r.status is None,
            r.tags is None,
            r.created_by is None,
            r.created_after is None,
            r.created_before is None,
            r.updated_after is None,
            r.updated_before is None,
            r.metadata is None,
    {
        BackboneFilters {
            status: None,
            tags: None,
            created_by: None,
            created_after: None,
            created_before: None,
            updated_after: None,
            updated_before: None,
            metadata: None,
        }
    }

    pub fn with_status(self, status: String) -> (r: Self)
        ensures
            opt_view(r.status) == Some(status@),
            r.tags == self.tags,
            r.created_by == self.created_by,
            r.metadata == self.metadata,
            r.created_after == self.created_after,
            r.created_before == self.created_before,
            r.updated_after == self.updated_after,
            r.updated_before == self.updated_before,
    {
        BackboneFilters { status: Some(status), ..self }
    }

    pub fn with_tags(self, tags: Vec<String>) -> (r: Self)
        ensures
            r.tags == Some(tags),
            r.status == self.status,
            r.created_by == self.created_by,
            r.metadata == self.metadata,
            r.created_after == self.created_after,
            r.created_before == self.created_before,
            r.updated_after == self.updated_after,
            r.updated_before == self.updated_before,
    {
        BackboneFilters { tags: Some(tags), ..self }
    }

    pub fn with_created_by(self, created_by: String) -> (r: Self)
        ensures
            opt_view(r.created_by) == Some(created_by@),
            r.status == self.status,
            r.tags == self.tags,
            r.metadata == self.metadata,
            r.created_after == self.created_after,
            r.created_before == self.created_before,
            r.updated_after == self.updated_after,
            r.updated_before == self.updated_before,
    {
        BackboneFilters { created_by: Some(created_by), ..self }
    }

    pub fn with_date_range(self, created_after: Option<String>, created_before: Option<String>) -> (r: Self)
        ensures
            r.created_after == created_after,
            r.created_before == created_before,
            r.status == self.status,
            r.tags == self.tags,
            r.created_by == self.created_by,
            r.metadata == self.metadata,
            r.updated_after == self.updated_after,
            r.updated_before == self.updated_before,
    {
        BackboneFilters { created_after, created_before, ..self }
    }

    pub fn with_metadata(self, metadata: Vec<(String, String)>) -> (r: Self)
        ensures
            r.metadata == Some(metadata),
            r.status == self.status,
            r.tags == self.tags,
            r.created_by == self.created_by,
            r.created_after == self.created_after,
            r.created_before == self.created_before,
            r.updated_after == self.updated_after,
            r.updated_before == self.updated_before,
    {
        BackboneFilters { metadata: Some(metadata), ..self }
    }

    /// The first problem with the filters, as its message.
    pub open spec fn error(&self) -> Option<Seq<char>> {
        if self.status is Some && !is_status_text(spec_to_uppercase(self.status->0@)) {
            Some("Invalid status: "@ + self.status->0@)
        } else if self.tags matches Some(t) && t@.len() > 50 {
            Some("Cannot filter by more than 50 tags"@)
        } else if self.tags matches Some(t) && filter_tag_error(strings_view(t@)) is Some {
            filter_tag_error(strings_view(self.tags->0@))
        } else if date_error(opt_view(self.created_after)) is Some {
            date_error(opt_view(self.created_after))
        } else if date_error(opt_view(self.created_before)) is Some {
            date_error(opt_view(self.created_before))
        } else if date_error(opt_view(self.updated_after)) is Some {
            date_error(opt_view(self.updated_after))
        } else if date_error(opt_view(self.updated_before)) is Some {
            date_error(opt_view(self.updated_before))
        } else if self.metadata matches Some(m) && m@.len() > 20 {
            Some("Cannot filter by more than 20 metadata key-value pairs"@)
        } else if self.metadata is Some {
            filter_pair_error(pairs_view(self.metadata->0@))
        } else {
            None
        }
    }

    pub fn validate(&self) -> (r: Result<(), DomainError>)
        ensures
            match self.error() {
                Some(m) => r matches Err(e) && e.is_validation(m),
                None => r is Ok,
            },
    {
        if let Some(s) = &self.status {
            let up = str_to_uppercase(s.as_str());
            let u = up.as_str();
            if !(str_eq(u, "ACTIVE") || str_eq(u, "INACTIVE") || str_eq(u, "SUSPENDED") || str_eq(
                u,
                "ARCHIVED",
            )) {
                return Err(validation_error(join("Invalid status: ", s.as_str())));
            }
        }
        if let Some(t) = &self.tags {
            if t.len() > 50 {
                return Err(validation_error(String::from_str("Cannot filter by more than 50 tags")));
            }
            if let Some(m) = check_tag_list(
                t,
                "Filter tags cannot be empty",
                "Filter tag cannot exceed 50 characters",
            ) {
                return Err(validation_error(m));
            }
        }
        if let Some(m) = check_date(&self.created_after) {
            return Err(validation_error(m));
        }
        if let Some(m) = check_date(&self.created_before) {
            return Err(validation_error(m));
        }
        if let Some(m) = check_date(&self.updated_after) {
            return Err(validation_error(m));
        }
        if let Some(m) = check_date(&self.updated_before) {
            return Err(validation_error(m));
        }
        if let Some(md) = &self.metadata {
            if md.len() > 20 {
                return Err(
                    validation_error(
                        String::from_str("Cannot filter by more than 20 metadata key-value pairs"),
                    ),
                );
            }
            if let Some(m) = check_pair_list(
                md,
                "Metadata filter keys cannot be empty",
                "Metadata filter key cannot exceed 50 characters",
                "Metadata filter value cannot exceed 500 characters",
            ) {
                return Err(validation_error(m));
            }
        }
        Ok(())
    }

    /// The filters in storage terms: the status parsed case-insensitively (unknown text
    /// selects Active), dates converted to instants (unparseable ones dropped).
    pub fn to_repository_filters(&self) -> (r: RepositoryFilters)
        ensures
            r.status == match self.status {
                Some(s) => Some(status_from_upper_spec(spec_to_uppercase(s@))),
                None => None,
            },
            opt_strings_view(r.tags) == opt_strings_view(self.tags),
            opt_view(r.created_by) == opt_view(self.created_by),
            r.created_after == date_instant(opt_view(self.created_after)),
            r.created_before == date_instant(opt_view(self.created_before)),
            r.updated_after == date_instant(opt_view(self.updated_after)),
            r.updated_before == date_instant(opt_view(self.updated_before)),
            opt_pairs_view(r.metadata) == opt_pairs_view(self.metadata),
    {
        let status = match &self.status {
            Some(s) => Some(BackboneStatus::from_text(s.as_str())),
            None => None,
        };
        RepositoryFilters {
            status,
            tags: match &self.tags {
                Some(t) => Some(clone_strings(t)),
                None => None,
            },
            created_by: clone_opt(&self.created_by),
            created_after: instant_of(&self.created_after),
            created_before: instant_of(&self.created_before),
            updated_after: instant_of(&self.updated_after),
            updated_before: instant_of(&self.updated_before),
            metadata: match &self.metadata {
                Some(m) => Some(clone_pairs(m)),
                None => None,
            },
        }
    }
}

// ------------------------------------------------------------------------------------------
// ListBackbonesQuery / SearchBackbonesQuery
// ------------------------------------------------------------------------------------------

/// List backbones, optionally paged, sorted and filtered.
#[derive(Debug, Clone)]
pub struct ListBackbonesQuery {
    pub page: Option<usize>,
    pub page_size: Option<usize>,
    pub sort_by: Option<String>,
    pub sort_direction: Option<String>,
    pub filters: Option<BackboneFilters>,
}

impl ListBackbonesQuery {
    pub fn new() -> (r: Self)
        ensures
            r.page is None,
            r.page_size is None,
            r.sort_by is None,
            r.sort_direction is None,
            r.filters is None,
    {
        ListBackbonesQuery { page: None, page_size: None, sort_by: None, sort_direction: None, filters: None }
    }

    pub fn with_pagination(self, page: usize, page_size: usize) -> (r: Self)
        ensures
            r.page == Some(page),
            r.page_size == Some(page_size),
            r.sort_by == self.sort_by,
            r.sort_direction == self.sort_direction,
            r.filters == self.filters,
    {
        ListBackbonesQuery { page: Some(page), page_size: Some(page_size), ..self }
    }

    pub fn with_sort(self, sort_by: String, sort_direction: String) -> (r: Self)
        ensures
            opt_view(r.sort_by) == Some(sort_by@),
            opt_view(r.sort_direction) == Some(sort_direction@),
            r.page == self.page,
            r.page_size == self.page_size,
            r.filters == self.filters,
    {
        ListBackbonesQuery { sort_by: Some(sort_by), sort_direction: Some(sort_direction), ..self }
    }

    pub fn with_filters(self, filters: BackboneFilters) -> (r: Self)
        ensures
            r.filters == Some(filters),
            r.page == self.page,
            r.page_size == self.page_size,
            r.sort_by == self.sort_by,
            r.sort_direction == self.sort_direction,
    {
        ListBackbonesQuery { filters: Some(filters), ..self }
    }

    pub fn validate(&self) -> (r: Result<(), DomainError>)
        ensures
            match paging_error(
                self.page,
                self.page_size,
                opt_view(self.sort_by),
                opt_view(self.sort_direction),
            ) {
                Some(m) => r matches Err(e) && e.is_validation(m),
                None => r is Ok,
            },
    {
        validate_paging(self.page, self.page_size, &self.sort_by, &self.sort_direction)
    }

    pub fn get_pagination_params(&self) -> (r: PaginationParams)
        ensures
            r.page == match self.page {
                Some(p) => p,
                None => 1usize,
            },
            r.page_size == match self.page_size {
                Some(p) => p,
                None => 20usize,
            },
    {
        pagination_of(self.page, self.page_size)
    }

    pub fn get_sort_params(&self) -> (r: SortParams)
        ensures
            r.field == sort_field_of(opt_view(self.sort_by)),
            r.direction == sort_direction_of(opt_view(self.sort_direction)),
    {
        sort_of(&self.sort_by, &self.sort_direction)
    }
}

/// Free-text search over backbones, optionally paged and sorted.
#[derive(Debug, Clone)]
pub struct SearchBackbonesQuery {
    pub query: String,
    pub page: Option<usize>,
    pub page_size: Option<usize>,
    pub sort_by: Option<String>,
    pub sort_direction: Option<String>,
}

impl SearchBackbonesQuery {
    pub fn new(query: String) -> (r: Self)
        ensures
            r.query@ == query@,
            r.page is None,
            r.page_size is None,
            r.sort_by is None,
            r.sort_direction is None,
    {
        SearchBackbonesQuery { query, page: None, page_size: None, sort_by: None, sort_direction: None }
    }

    pub fn with_pagination(self, page: usize, page_size: usize) -> (r: Self)
        ensures
            r.page == Some(page),
            r.page_size == Some(page_size),
            r.query == self.query,
            r.sort_by == self.sort_by,
            r.sort_direction == self.sort_direction,
    {
        SearchBackbonesQuery { page: Some(page), page_size: Some(page_size), ..self }
    }

    pub fn with_sort(self, sort_by: String, sort_direction: String) -> (r: Self)
        ensures
            opt_view(r.sort_by) == Some(sort_by@),
            opt_view(r.sort_direction) == Some(sort_direction@),
            r.query == self.query,
            r.page == self.page,
            r.page_size == self.page_size,
    {
        SearchBackbonesQuery { sort_by: Some(sort_by), sort_direction: Some(sort_direction), ..self }
    }

    /// The first problem with the search, as its message.
    pub open spec fn error(&self) -> Option<Seq<char>> {
        if trim_spec(self.query@).len() == 0 {
            Some("Search query cannot be empty"@)
        } else if byte_len(self.query@) > 1000 {
            Some("Search query cannot exceed 1000 characters"@)
        } else {
            paging_error(
                self.page,
                self.page_size,
                opt_view(self.sort_by),
                opt_view(self.sort_direction),
            )
        }
    }

    pub fn validate(&self) -> (r: Result<(), DomainError>)
        ensures
            match self.error() {
                Some(m) => r matches Err(e) && e.is_validation(m),
                None => r is Ok,
            },
    {
        let t = trim(self.query.as_str());
        if t.as_str().unicode_len() == 0 {
            return Err(validation_error(String::from_str("Search query cannot be empty")));
        }
        if str_byte_len(self.query.as_str()) > 1000 {
            return Err(validation_error(String::from_str("Search query cannot exceed 1000 characters")));
        }
        validate_paging(self.page, self.page_size, &self.sort_by, &self.sort_direction)
    }

    pub fn get_pagination_params(&self) -> (r: PaginationParams)
        ensures
            r.page == match self.page {
                Some(p) => p,
                None => 1usize,
            },
            r.page_size == match self.page_size {
                Some(p) => p,
                None => 20usize,
            },
    {
        pagination_of(self.page, self.page_size)
    }

    pub fn get_sort_params(&self) -> (r: SortParams)
        ensures
            r.field == sort_field_of(opt_view(self.sort_by)),
            r.direction == sort_direction_of(opt_view(self.sort_direction)),
    {
        sort_of(&self.sort_by, &self.sort_direction)
    }
}

} // verus!
