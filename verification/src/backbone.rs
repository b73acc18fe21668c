//! The backbone aggregate: a named, tagged catalogue entry with metadata and a lifecycle.

use vstd::prelude::*;
use crate::timestamp::BackboneTimestamp;
use crate::value_objects::{BackboneId, BackboneName, BackboneStatus, BackboneVersion, Metadata};

verus! {

/// The text view of a list of strings.
pub open spec fn strings_view(v: Seq<String>) -> Seq<Seq<char>> {
    v.map_values(|s: String| s@)
}

/// A backbone catalogue entry.
#[derive(Debug, Clone)]
pub struct Backbone {
    pub id: BackboneId,
    pub name: BackboneName,
    pub description: String,
    pub status: BackboneStatus,
    pub tags: Vec<String>,
    pub metadata: Metadata,
    pub created_by: String,
    pub created_at: BackboneTimestamp,
    pub updated_at: BackboneTimestamp,
    pub deleted_at: Option<BackboneTimestamp>,
    pub version: BackboneVersion,
}

impl Backbone {
    /// Metadata keys are distinct and every instant is representable.
    pub open spec fn wf(&self) -> bool {
        &&& self.metadata.wf()
        &&& self.created_at.wf()
        &&& self.updated_at.wf()
        &&& (self.deleted_at matches Some(d) ==> d.wf())
    }

    /// The tags as texts.
    pub open spec fn tags_view(&self) -> Seq<Seq<char>> {
        strings_view(self.tags@)
    }

    /// A new, active, undeleted backbone at version 1, created and updated now.
    pub fn create(
        name: BackboneName,
        description: String,
        tags: Vec<String>,
        metadata: Metadata,
        created_by: String,
    ) -> (r: Result<Backbone, String>)
        requires
            metadata.wf(),
        ensures
            r is Ok,
            r matches Ok(b) && {
                &&& b.wf()
                &&& b.name == name
                &&& b.description@ == description@
                &&& b.tags@ == tags@
                &&& b.metadata@ == metadata@
                &&& b.created_by@ == created_by@
                &&& b.status == BackboneStatus::Active
                &&& b.deleted_at is None
                &&& b.version.0 == 1
                &&& b.updated_at == b.created_at
            },
    {
        let now = BackboneTimestamp::now();
        Ok(
            Backbone {
                id: BackboneId::generate(),
                name,
                description,
                status: BackboneStatus::Active,
                tags,
                metadata,
                created_by,
                created_at: now,
                updated_at: now,
                deleted_at: None,
                version: BackboneVersion::initial(),
            },
        )
    }

    pub fn id(&self) -> (r: &BackboneId)
        ensures
            *r == self.id,
    {
        &self.id
    }

    /// The name text.
    pub fn name(&self) -> (r: &str)
        ensures
            r@ == self.name.0@,
    {
        self.name.value()
    }

    pub fn description(&self) -> (r: &str)
        ensures
            r@ == self.description@,
    {
        self.description.as_str()
    }

    pub fn status(&self) -> (r: BackboneStatus)
        ensures
            r == self.status,
    {
        self.status
    }

    pub fn tags(&self) -> (r: &Vec<String>)
        ensures
            r@ == self.tags@,
    {
        &self.tags
    }

    pub fn metadata(&self) -> (r: &Metadata)
        ensures
            r@ == self.metadata@,
            r.wf() == self.metadata.wf(),
    {
        &self.metadata
    }

    pub fn created_by(&self) -> (r: &str)
        ensures
            r@ == self.created_by@,
    {
        self.created_by.as_str()
    }

    pub fn created_at(&self) -> (r: &BackboneTimestamp)
        ensures
            *r == self.created_at,
    {
        &self.created_at
    }

    pub fn updated_at(&self) -> (r: &BackboneTimestamp)
        ensures
            *r == self.updated_at,
    {
        &self.updated_at
    }

    pub fn deleted_at(&self) -> (r: Option<BackboneTimestamp>)
        ensures
            r == self.deleted_at,
    {
        self.deleted_at
    }

    pub fn version(&self) -> (r: BackboneVersion)
        ensures
            r == self.version,
    {
        self.version
    }

    /// Whether the backbone has been soft-deleted.
    pub fn is_deleted(&self) -> (r: bool)
        ensures
            r == (self.deleted_at is Some),
    {
        self.deleted_at.is_some()
    }
}

} // verus!

verus! {

/// A copy of a list of strings.
pub fn clone_strings(v: &Vec<String>) -> (r: Vec<String>)
    ensures
        strings_view(r@) == strings_view(v@),
        r@.len() == v@.len(),
{
    let n = v.len();
    let mut out: Vec<String> = Vec::new();
    let mut i: usize = 0;
    while i < n
        invariant
            n == v@.len(),
            i <= n,
            out@.len() == i,
            forall|k: int| 0 <= k < i ==> #[trigger] out@[k]@ == v@[k]@,
        decreases n - i,
    {
        out.push(v[i].clone());
        i = i + 1;
    }
    assert(strings_view(out@) =~= strings_view(v@));
    out
}

} // verus!
