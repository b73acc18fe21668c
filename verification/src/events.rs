//! Domain events of the backbone aggregate, and an in-memory store of them.

use vstd::prelude::*;
use crate::specifications::{detail_of, upsert_pair};
use crate::text::str_eq;
use crate::timestamp::BackboneTimestamp;
use crate::value_objects::{
    BackboneId, BackboneStatus, Metadata, keys_distinct, lookup, new_uuid_v4_text,
};

verus! {

/// What every backbone event tells.
pub trait DomainEvent {
    fn event_id(&self) -> &str;

    fn aggregate_id(&self) -> &BackboneId;

    fn event_type(&self) -> &'static str;

    fn occurred_at(&self) -> BackboneTimestamp;

    fn version(&self) -> i64;
}

/// A backbone was created.
#[derive(Debug, Clone)]
pub struct BackboneCreated {
    pub event_id: String,
    pub backbone_id: BackboneId,
    pub name: String,
    pub description: String,
    pub status: BackboneStatus,
    pub tags: Vec<String>,
    pub metadata: Metadata,
    pub created_by: String,
    pub occurred_at: BackboneTimestamp,
    pub version: i64,
}

impl BackboneCreated {
    /// The creation event, with a fresh id, stamped now, at version 1.
    pub fn new(
        backbone_id: BackboneId,
        name: String,
        description: String,
        status: BackboneStatus,
        tags: Vec<String>,
        metadata: Metadata,
        created_by: String,
    ) -> (r: Self)
        ensures
            r.backbone_id == backbone_id,
            r.name == name,
            r.description == description,
            r.status == status,
            r.tags == tags,
            r.metadata == metadata,
            r.created_by == created_by,
            r.occurred_at.wf(),
            r.version == 1,
    {
        BackboneCreated {
            event_id: new_uuid_v4_text(),
            backbone_id,
            name,
            description,
            status,
            tags,
            metadata,
            created_by,
            occurred_at: BackboneTimestamp::now(),
            version: 1,
        }
    }
}

impl DomainEvent for BackboneCreated {
    fn event_id(&self) -> &str {
        self.event_id.as_str()
    }

    fn aggregate_id(&self) -> &BackboneId {
        &self.backbone_id
    }

    fn event_type(&self) -> &'static str {
        "BackboneCreated"
    }

    fn occurred_at(&self) -> BackboneTimestamp {
        self.occurred_at
    }

    fn version(&self) -> i64 {
        self.version
    }
}

/// Fields of a backbone were changed; `changes` maps each field to `"old -> new"`.
#[derive(Debug, Clone)]
pub struct BackboneUpdated {
    pub event_id: String,
    pub backbone_id: BackboneId,
    pub changes: Vec<(String, String)>,
    pub previous_version: i64,
    pub new_version: i64,
    pub updated_by: String,
    pub occurred_at: BackboneTimestamp,
}

impl BackboneUpdated {
    pub fn new(
        backbone_id: BackboneId,
        changes: Vec<(String, String)>,
        previous_version: i64,
        new_version: i64,
        updated_by: String,
    ) -> (r: Self)
        ensures
            r.backbone_id == backbone_id,
            r.changes == changes,
            r.previous_version == previous_version,
            r.new_version == new_version,
            r.updated_by == updated_by,
            r.occurred_at.wf(),
    {
        BackboneUpdated {
            event_id: new_uuid_v4_text(),
            backbone_id,
            changes,
            previous_version,
            new_version,
            updated_by,
            occurred_at: BackboneTimestamp::now(),
        }
    }

    /// Record that `field` went from `old_value` to `new_value` (replacing an earlier record of
    /// the same field).
    pub fn add_change(&mut self, field: String, old_value: String, new_value: String)
        ensures
            detail_of(final(self).changes@, field@) == Some(old_value@ + " -> "@ + new_value@),
            forall|k: Seq<char>| k != field@ ==> detail_of(final(self).changes@, k) == detail_of(old(self).changes@, k),
            final(self).backbone_id == old(self).backbone_id,
            final(self).new_version == old(self).new_version,
    {
        let text = old_value.concat(" -> ").concat(new_value.as_str());
        let mut changes: Vec<(String, String)> = Vec::new();
        std::mem::swap(&mut changes, &mut self.changes);
        self.changes = upsert_pair(changes, field, text);
    }

    /// Whether any change is recorded.
    pub fn has_changes(&self) -> (r: bool)
        ensures
            r == (self.changes.len() > 0),
    {
        self.changes.len() > 0
    }
}

impl DomainEvent for BackboneUpdated {
    fn event_id(&self) -> &str {
        self.event_id.as_str()
    }

    fn aggregate_id(&self) -> &BackboneId {
        &self.backbone_id
    }

    fn event_type(&self) -> &'static str {
        "BackboneUpdated"
    }

    fn occurred_at(&self) -> BackboneTimestamp {
        self.occurred_at
    }

    fn version(&self) -> i64 {
        self.new_version
    }
}

/// A backbone moved between lifecycle statuses.
#[derive(Debug, Clone)]
pub struct BackboneStatusChanged {
    pub event_id: String,
    pub backbone_id: BackboneId,
    pub previous_status: BackboneStatus,
    pub new_status: BackboneStatus,
    pub reason: String,
    pub changed_by: String,
    pub occurred_at: BackboneTimestamp,
    pub version: i64,
}

impl BackboneStatusChanged {
    pub fn new(
        backbone_id: BackboneId,
        previous_status: BackboneStatus,
        new_status: BackboneStatus,
        reason: String,
        changed_by: String,
        version: i64,
    ) -> (r: Self)
        ensures
            r.backbone_id == backbone_id,
            r.previous_status == previous_status,
            r.new_status == new_status,
            r.reason == reason,
            r.changed_by == changed_by,
            r.version == version,
            r.occurred_at.wf(),
    {
        BackboneStatusChanged {
            event_id: new_uuid_v4_text(),
            backbone_id,
            previous_status,
            new_status,
            reason,
            changed_by,
            occurred_at: BackboneTimestamp::now(),
            version,
        }
    }

    /// The backbone became active.
    pub fn is_activation(&self) -> (r: bool)
        ensures
            r == (self.new_status == BackboneStatus::Active && self.previous_status != BackboneStatus::Active),
    {
        self.new_status.is_active() && !self.previous_status.is_active()
    }

    /// The backbone stopped being active.
    pub fn is_deactivation(&self) -> (r: bool)
        ensures
            r == (self.new_status != BackboneStatus::Active && self.previous_status == BackboneStatus::Active),
    {
        !self.new_status.is_active() && self.previous_status.is_active()
    }

    /// The backbone became suspended.
    pub fn is_suspension(&self) -> (r: bool)
        ensures
            r == (self.new_status == BackboneStatus::Suspended && self.previous_status != BackboneStatus::Suspended),
    {
        self.new_status.is_suspended() && !self.previous_status.is_suspended()
    }

    /// The backbone became archived.
    pub fn is_archival(&self) -> (r: bool)
        ensures
            r == (self.new_status == BackboneStatus::Archived && self.previous_status != BackboneStatus::Archived),
    {
        self.new_status.is_archived() && !self.previous_status.is_archived()
    }
}

impl DomainEvent for BackboneStatusChanged {
    fn event_id(&self) -> &str {
        self.event_id.as_str()
    }

    fn aggregate_id(&self) -> &BackboneId {
        &self.backbone_id
    }

    fn event_type(&self) -> &'static str {
        "BackboneStatusChanged"
    }

    fn occurred_at(&self) -> BackboneTimestamp {
        self.occurred_at
    }

    fn version(&self) -> i64 {
        self.version
    }
}

/// Tags were added to or removed from a backbone.
#[derive(Debug, Clone)]
pub struct BackboneTagsChanged {
    pub event_id: String,
    pub backbone_id: BackboneId,
    pub added_tags: Vec<String>,
    pub removed_tags: Vec<String>,
    pub changed_by: String,
    pub occurred_at: BackboneTimestamp,
    pub version: i64,
}

impl BackboneTagsChanged {
    pub fn new(
        backbone_id: BackboneId,
        added_tags: Vec<String>,
        removed_tags: Vec<String>,
        changed_by: String,
        version: i64,
    ) -> (r: Self)
        ensures
            r.backbone_id == backbone_id,
            r.added_tags == added_tags,
            r.removed_tags == removed_tags,
            r.changed_by == changed_by,
            r.version == version,
            r.occurred_at.wf(),
    {
        BackboneTagsChanged {
            event_id: new_uuid_v4_text(),
            backbone_id,
            added_tags,
            removed_tags,
            changed_by,
            occurred_at: BackboneTimestamp::now(),
            version,
        }
    }

    /// Whether any tag was added or removed.
    pub fn has_changes(&self) -> (r: bool)
        ensures
            r == (self.added_tags.len() > 0 || self.removed_tags.len() > 0),
    {
        self.added_tags.len() > 0 || self.removed_tags.len() > 0
    }

    /// Tags added plus tags removed.
    pub fn total_changes(&self) -> (r: usize)
        requires
            self.added_tags.len() + self.removed_tags.len() <= usize::MAX,
        ensures
            r == self.added_tags.len() + self.removed_tags.len(),
    {
        self.added_tags.len() + self.removed_tags.len()
    }
}

impl DomainEvent for BackboneTagsChanged {
    fn event_id(&self) -> &str {
        self.event_id.as_str()
    }

    fn aggregate_id(&self) -> &BackboneId {
        &self.backbone_id
    }

    fn event_type(&self) -> &'static str {
        "BackboneTagsChanged"
    }

    fn occurred_at(&self) -> BackboneTimestamp {
        self.occurred_at
    }

    fn version(&self) -> i64 {
        self.version
    }
}

/// Two metadata maps differ: some key maps to different values (or is present in only one).
pub open spec fn metadata_differs(a: Seq<(Seq<char>, Seq<char>)>, b: Seq<(Seq<char>, Seq<char>)>) -> bool {
    exists|k: Seq<char>| lookup(a, k) != lookup(b, k)
}

/// With distinct keys, the entry at `i` is what its key looks up.
pub proof fn lemma_lookup_at(s: Seq<(Seq<char>, Seq<char>)>, i: int)
    requires
        keys_distinct(s),
        0 <= i < s.len(),
    ensures
        lookup(s, s[i].0) == Some(s[i].1),
{
    assert(exists|j: int| 0 <= j < s.len() && s[j].0 == s[i].0);
    let c = choose|j: int| 0 <= j < s.len() && s[j].0 == s[i].0;
    if c != i {
        if c < i {
            assert(s[c].0 != s[i].0);
        } else {
            assert(s[i].0 != s[c].0);
        }
    }
}

/// A key looks something up exactly when some entry holds it.
pub proof fn lemma_lookup_some(s: Seq<(Seq<char>, Seq<char>)>, k: Seq<char>)
    requires
        keys_distinct(s),
    ensures
        lookup(s, k) is Some <==> exists|i: int| 0 <= i < s.len() && s[i].0 == k,
        lookup(s, k) is Some ==> exists|i: int| 0 <= i < s.len() && s[i].0 == k && lookup(s, k) == Some(s[i].1),
{
    if lookup(s, k) is Some {
        let c = choose|j: int| 0 <= j < s.len() && s[j].0 == k;
        lemma_lookup_at(s, c);
    }
}

/// Keys of `a` satisfying `keep`, in `a`'s order.
pub open spec fn keys_where(a: Seq<(Seq<char>, Seq<char>)>, keep: spec_fn(Seq<char>) -> bool) -> Seq<Seq<char>>
    decreases a.len(),
{
    if a.len() == 0 {
        Seq::<Seq<char>>::empty()
    } else {
        let rest = keys_where(a.drop_last(), keep);
        if keep(a.last().0) {
            rest.push(a.last().0)
        } else {
            rest
        }
    }
}

/// The metadata of a backbone was replaced.
#[derive(Debug, Clone)]
pub struct BackboneMetadataChanged {
    pub event_id: String,
    pub backbone_id: BackboneId,
    pub previous_metadata: Metadata,
    pub new_metadata: Metadata,
    pub changed_by: String,
    pub occurred_at: BackboneTimestamp,
    pub version: i64,
}

impl BackboneMetadataChanged {
    pub fn new(
        backbone_id: BackboneId,
        previous_metadata: Metadata,
        new_metadata: Metadata,
        changed_by: String,
        version: i64,
    ) -> (r: Self)
        ensures
            r.backbone_id == backbone_id,
            r.previous_metadata == previous_metadata,
            r.new_metadata == new_metadata,
            r.changed_by == changed_by,
            r.version == version,
            r.occurred_at.wf(),
    {
        BackboneMetadataChanged {
            event_id: new_uuid_v4_text(),
            backbone_id,
            previous_metadata,
            new_metadata,
            changed_by,
            occurred_at: BackboneTimestamp::now(),
            version,
        }
    }

    /// Whether the two maps differ (as maps: entry order does not matter).
    pub fn has_changes(&self) -> (r: bool)
        requires
            self.previous_metadata.wf(),
            self.new_metadata.wf(),
        ensures
            r == metadata_differs(self.previous_metadata@, self.new_metadata@),
    {
        let prev = &self.previous_metadata;
        let new = &self.new_metadata;
        let mut i: usize = 0;
        while i < prev.data.len()
            invariant
                i <= prev.data.len(),
                prev.wf(),
                new.wf(),
                prev == &self.previous_metadata,
                new == &self.new_metadata,
                forall|j: int| 0 <= j < i ==> lookup(new@, #[trigger] prev@[j].0) == Some(prev@[j].1),
            decreases prev.data.len() - i,
        {
            let k = prev.data[i].0.as_str();
            let same = match new.get(k) {
                Some(v) => str_eq(v.as_str(), prev.data[i].1.as_str()),
                None => false,
            };
            proof {
                assert(prev@[i as int].0 == k@);
                lemma_lookup_at(prev@, i as int);
            }
            if !same {
                return true;
            }
            i = i + 1;
        }
        let mut j: usize = 0;
        while j < new.data.len()
            invariant
                j <= new.data.len(),
                prev.wf(),
                new.wf(),
                prev == &self.previous_metadata,
                new == &self.new_metadata,
                forall|m: int| 0 <= m < prev@.len() ==> lookup(new@, #[trigger] prev@[m].0) == Some(prev@[m].1),
                forall|m: int| 0 <= m < j ==> lookup(prev@, #[trigger] new@[m].0) is Some,
            decreases new.data.len() - j,
        {
            let present = prev.contains_key(new.data[j].0.as_str());
            proof {
                assert(new@[j as int].0 == new.data@[j as int].0@);
                lemma_lookup_at(new@, j as int);
            }
            if !present {
                return true;
            }
            j = j + 1;
        }
        proof {
            assert forall|k: Seq<char>| lookup(self.previous_metadata@, k) == lookup(self.new_metadata@, k) by {
                lemma_lookup_some(prev@, k);
                lemma_lookup_some(new@, k);
                if lookup(new@, k) is Some {
                    let m = choose|m: int| 0 <= m < new@.len() && new@[m].0 == k && lookup(new@, k) == Some(new@[m].1);
                    assert(lookup(prev@, new@[m].0) is Some);
                }
            }
        }
        false
    }

    /// Keys present now but not before, in the new map's order.
    pub fn get_added_keys(&self) -> (r: Vec<String>)
        ensures
            r@.map_values(|s: String| s@) == keys_where(self.new_metadata@, |k: Seq<char>| lookup(self.previous_metadata@, k) is None),
    {
        let ghost keep = |k: Seq<char>| lookup(self.previous_metadata@, k) is None;
        let mut out: Vec<String> = Vec::new();
        let mut i: usize = 0;
        while i < self.new_metadata.data.len()
            invariant
                i <= self.new_metadata.data.len(),
                keep == (|k: Seq<char>| lookup(self.previous_metadata@, k) is None),
                out@.map_values(|s: String| s@) == keys_where(self.new_metadata@.subrange(0, i as int), keep),
            decreases self.new_metadata.data.len() - i,
        {
            let k = &self.new_metadata.data[i].0;
            proof {
                assert(self.new_metadata@.subrange(0, i + 1).drop_last() =~= self.new_metadata@.subrange(0, i as int));
                assert(self.new_metadata@[i as int].0 == k@);
            }
            if !self.previous_metadata.contains_key(k.as_str()) {
                let c = k.clone();
                out.push(c);
                proof {
                    assert(out@.map_values(|s: String| s@) =~= out@.drop_last().map_values(|s: String| s@).push(c@));
                }
            }
            i = i + 1;
        }
        proof {
            assert(self.new_metadata@.subrange(0, self.new_metadata.data.len() as int) =~= self.new_metadata@);
        }
        out
    }

    /// Keys present before but not now, in the previous map's order.
    pub fn get_removed_keys(&self) -> (r: Vec<String>)
        ensures
            r@.map_values(|s: String| s@) == keys_where(self.previous_metadata@, |k: Seq<char>| lookup(self.new_metadata@, k) is None),
    {
        let ghost keep = |k: Seq<char>| lookup(self.new_metadata@, k) is None;
        let mut out: Vec<String> = Vec::new();
        let mut i: usize = 0;
        while i < self.previous_metadata.data.len()
            invariant
                i <= self.previous_metadata.data.len(),
                keep == (|k: Seq<char>| lookup(self.new_metadata@, k) is None),
                out@.map_values(|s: String| s@) == keys_where(self.previous_metadata@.subrange(0, i as int), keep),
            decreases self.previous_metadata.data.len() - i,
        {
            let k = &self.previous_metadata.data[i].0;
            proof {
                assert(self.previous_metadata@.subrange(0, i + 1).drop_last() =~= self.previous_metadata@.subrange(0, i as int));
                assert(self.previous_metadata@[i as int].0 == k@);
            }
            if !self.new_metadata.contains_key(k.as_str()) {
                let c = k.clone();
                out.push(c);
                proof {
                    assert(out@.map_values(|s: String| s@) =~= out@.drop_last().map_values(|s: String| s@).push(c@));
                }
            }
            i = i + 1;
        }
        proof {
            assert(self.previous_metadata@.subrange(0, self.previous_metadata.data.len() as int) =~= self.previous_metadata@);
        }
        out
    }

    /// Keys present in both whose value changed, in the new map's order.
    pub fn get_modified_keys(&self) -> (r: Vec<String>)
        requires
            self.previous_metadata.wf(),
            self.new_metadata.wf(),
        ensures
            r@.map_values(|s: String| s@) == keys_where(
                self.new_metadata@,
                |k: Seq<char>| lookup(self.previous_metadata@, k) is Some && lookup(self.previous_metadata@, k) != lookup(self.new_metadata@, k),
            ),
    {
        let ghost keep = |k: Seq<char>| lookup(self.previous_metadata@, k) is Some && lookup(self.previous_metadata@, k) != lookup(self.new_metadata@, k);
        let mut out: Vec<String> = Vec::new();
        let mut i: usize = 0;
        while i < self.new_metadata.data.len()
            invariant
                i <= self.new_metadata.data.len(),
                self.previous_metadata.wf(),
                self.new_metadata.wf(),
                keep == (|k: Seq<char>| lookup(self.previous_metadata@, k) is Some && lookup(self.previous_metadata@, k) != lookup(self.new_metadata@, k)),
                out@.map_values(|s: String| s@) == keys_where(self.new_metadata@.subrange(0, i as int), keep),
            decreases self.new_metadata.data.len() - i,
        {
            let k = &self.new_metadata.data[i].0;
            proof {
                assert(self.new_metadata@.subrange(0, i + 1).drop_last() =~= self.new_metadata@.subrange(0, i as int));
                assert(self.new_metadata@[i as int].0 == k@);
            }
            let modified = match self.previous_metadata.get(k.as_str()) {
                Some(old_v) => match self.new_metadata.get(k.as_str()) {
                    Some(new_v) => !str_eq(old_v.as_str(), new_v.as_str()),
                    None => true,
                },
                None => false,
            };
            if modified {
                let c = k.clone();
                out.push(c);
                proof {
                    assert(out@.map_values(|s: String| s@) =~= out@.drop_last().map_values(|s: String| s@).push(c@));
                }
            }
            i = i + 1;
        }
        proof {
            assert(self.new_metadata@.subrange(0, self.new_metadata.data.len() as int) =~= self.new_metadata@);
        }
        out
    }
}

impl DomainEvent for BackboneMetadataChanged {
    fn event_id(&self) -> &str {
        self.event_id.as_str()
    }

    fn aggregate_id(&self) -> &BackboneId {
        &self.backbone_id
    }

    fn event_type(&self) -> &'static str {
        "BackboneMetadataChanged"
    }

    fn occurred_at(&self) -> BackboneTimestamp {
        self.occurred_at
    }

    fn version(&self) -> i64 {
        self.version
    }
}

/// A backbone was deleted, softly or for good.
#[derive(Debug, Clone)]
pub struct BackboneDeleted {
    pub event_id: String,
    pub backbone_id: BackboneId,
    pub hard_delete: bool,
    pub reason: String,
    pub deleted_by: String,
    pub occurred_at: BackboneTimestamp,
    pub version: i64,
}

impl BackboneDeleted {
    pub fn new(
        backbone_id: BackboneId,
        hard_delete: bool,
        reason: String,
        deleted_by: String,
        version: i64,
    ) -> (r: Self)
        ensures
            r.backbone_id == backbone_id,
            r.hard_delete == hard_delete,
            r.reason == reason,
            r.deleted_by == deleted_by,
            r.version == version,
            r.occurred_at.wf(),
    {
        BackboneDeleted {
            event_id: new_uuid_v4_text(),
            backbone_id,
            hard_delete,
            reason,
            deleted_by,
            occurred_at: BackboneTimestamp::now(),
            version,
        }
    }

    pub fn is_soft_delete(&self) -> (r: bool)
        ensures
            r == !self.hard_delete,
    {
        !self.hard_delete
    }

    pub fn is_hard_delete(&self) -> (r: bool)
        ensures
            r == self.hard_delete,
    {
        self.hard_delete
    }
}

impl DomainEvent for BackboneDeleted {
    fn event_id(&self) -> &str {
        self.event_id.as_str()
    }

    fn aggregate_id(&self) -> &BackboneId {
        &self.backbone_id
    }

    fn event_type(&self) -> &'static str {
        "BackboneDeleted"
    }

    fn occurred_at(&self) -> BackboneTimestamp {
        self.occurred_at
    }

    fn version(&self) -> i64 {
        self.version
    }
}

/// Any backbone event.
#[derive(Debug, Clone)]
pub enum BackboneEvent {
    Created(BackboneCreated),
    Updated(BackboneUpdated),
    StatusChanged(BackboneStatusChanged),
    TagsChanged(BackboneTagsChanged),
    MetadataChanged(BackboneMetadataChanged),
    Deleted(BackboneDeleted),
}

/// The type name an event reports.
pub open spec fn event_type_of(e: BackboneEvent) -> Seq<char> {
    match e {
        BackboneEvent::Created(_) => "BackboneCreated"@,
        BackboneEvent::Updated(_) => "BackboneUpdated"@,
        BackboneEvent::StatusChanged(_) => "BackboneStatusChanged"@,
        BackboneEvent::TagsChanged(_) => "BackboneTagsChanged"@,
        BackboneEvent::MetadataChanged(_) => "BackboneMetadataChanged"@,
        BackboneEvent::Deleted(_) => "BackboneDeleted"@,
    }
}

/// The version an event reports (the new version, for an update).
pub open spec fn event_version_of(e: BackboneEvent) -> i64 {
    match e {
        BackboneEvent::Created(x) => x.version,
        BackboneEvent::Updated(x) => x.new_version,
        BackboneEvent::StatusChanged(x) => x.version,
        BackboneEvent::TagsChanged(x) => x.version,
        BackboneEvent::MetadataChanged(x) => x.version,
        BackboneEvent::Deleted(x) => x.version,
    }
}

impl BackboneEvent {
    pub fn event_type(&self) -> (r: &'static str)
        ensures
            r@ == event_type_of(*self),
    {
        match self {
            BackboneEvent::Created(_) => "BackboneCreated",
            BackboneEvent::Updated(_) => "BackboneUpdated",
            BackboneEvent::StatusChanged(_) => "BackboneStatusChanged",
            BackboneEvent::TagsChanged(_) => "BackboneTagsChanged",
            BackboneEvent::MetadataChanged(_) => "BackboneMetadataChanged",
            BackboneEvent::Deleted(_) => "BackboneDeleted",
        }
    }

    pub fn version(&self) -> (r: i64)
        ensures
            r == event_version_of(*self),
    {
        match self {
            BackboneEvent::Created(x) => x.version,
            BackboneEvent::Updated(x) => x.new_version,
            BackboneEvent::StatusChanged(x) => x.version,
            BackboneEvent::TagsChanged(x) => x.version,
            BackboneEvent::MetadataChanged(x) => x.version,
            BackboneEvent::Deleted(x) => x.version,
        }
    }
}

/// An event type a store can hold.
pub trait IntoBackboneEvent {
    fn into_event(self) -> BackboneEvent;
}

impl IntoBackboneEvent for BackboneCreated {
    fn into_event(self) -> BackboneEvent {
        BackboneEvent::Created(self)
    }
}

impl IntoBackboneEvent for BackboneUpdated {
    fn into_event(self) -> BackboneEvent {
        BackboneEvent::Updated(self)
    }
}

impl IntoBackboneEvent for BackboneStatusChanged {
    fn into_event(self) -> BackboneEvent {
        BackboneEvent::StatusChanged(self)
    }
}

impl IntoBackboneEvent for BackboneTagsChanged {
    fn into_event(self) -> BackboneEvent {
        BackboneEvent::TagsChanged(self)
    }
}

impl IntoBackboneEvent for BackboneMetadataChanged {
    fn into_event(self) -> BackboneEvent {
        BackboneEvent::MetadataChanged(self)
    }
}

impl IntoBackboneEvent for BackboneDeleted {
    fn into_event(self) -> BackboneEvent {
        BackboneEvent::Deleted(self)
    }
}

/// The largest version among `es`, or 0.
pub open spec fn latest_version(es: Seq<BackboneEvent>) -> int
    decreases es.len(),
{
    if es.len() == 0 {
        0
    } else {
        let rest = latest_version(es.drop_last());
        let v = event_version_of(es.last()) as int;
        if es.len() == 1 {
            v
        } else if v > rest {
            v
        } else {
            rest
        }
    }
}

/// Events recorded in order.
#[derive(Debug, Clone)]
pub struct EventStore {
    pub events: Vec<BackboneEvent>,
}

impl EventStore {
    pub fn new() -> (r: Self)
        ensures
            r.events.len() == 0,
    {
        EventStore { events: Vec::new() }
    }

    /// Record `event` after the others.
    pub fn add_event<E: IntoBackboneEvent>(&mut self, event: E)
        ensures
            final(self).events.len() == old(self).events.len() + 1,
            final(self).events@.drop_last() == old(self).events@,
    {
        self.events.push(event.into_event());
    }

    pub fn get_events(&self) -> (r: &Vec<BackboneEvent>)
        ensures
            r == &self.events,
    {
        &self.events
    }

    /// The events of type `event_type`, in order.
    pub fn get_events_by_type(&self, event_type: &str) -> (r: Vec<&BackboneEvent>)
        ensures
            r@.map_values(|e: &BackboneEvent| *e) == self.events@.filter(|e: BackboneEvent| event_type_of(e) == event_type@),
    {
        let ghost keep = |e: BackboneEvent| event_type_of(e) == event_type@;
        let mut out: Vec<&BackboneEvent> = Vec::new();
        let mut i: usize = 0;
        proof {
            assert(self.events@.subrange(0, 0).filter(keep) =~= Seq::<BackboneEvent>::empty()) by {
                reveal(Seq::filter);
            }
        }
        while i < self.events.len()
            invariant
                i <= self.events.len(),
                keep == (|e: BackboneEvent| event_type_of(e) == event_type@),
                out@.map_values(|e: &BackboneEvent| *e) == self.events@.subrange(0, i as int).filter(keep),
            decreases self.events.len() - i,
        {
            let e = &self.events[i];
            proof {
                assert(self.events@.subrange(0, i + 1) =~= self.events@.subrange(0, i as int).push(*e));
                self.events@.subrange(0, i as int).lemma_filter_push(*e, keep);
            }
            if str_eq(e.event_type(), event_type) {
                out.push(e);
                proof {
                    assert(out@.map_values(|e: &BackboneEvent| *e) =~= out@.drop_last().map_values(|e: &BackboneEvent| *e).push(*e));
                }
            }
            i = i + 1;
        }
        proof {
            assert(self.events@.subrange(0, self.events.len() as int) =~= self.events@);
        }
        out
    }

    pub fn clear(&mut self)
        ensures
            final(self).events.len() == 0,
    {
        self.events.clear();
    }

    pub fn len(&self) -> (r: usize)
        ensures
            r == self.events.len(),
    {
        self.events.len()
    }

    pub fn is_empty(&self) -> (r: bool)
        ensures
            r == (self.events.len() == 0),
    {
        self.events.len() == 0
    }

    /// The largest version among the events, or 0 when there are none.
    pub fn get_latest_version(&self) -> (r: i64)
        ensures
            r == latest_version(self.events@),
    {
        let mut best: i64 = 0;
        let mut i: usize = 0;
        while i < self.events.len()
            invariant
                i <= self.events.len(),
                best == latest_version(self.events@.subrange(0, i as int)),
            decreases self.events.len() - i,
        {
            let v = self.events[i].version();
            proof {
                assert(self.events@.subrange(0, i + 1).drop_last() =~= self.events@.subrange(0, i as int));
            }
            if i == 0 || v > best {
                best = v;
            }
            i = i + 1;
        }
        proof {
            assert(self.events@.subrange(0, self.events.len() as int) =~= self.events@);
        }
        best
    }
}

impl Default for EventStore {
    fn default() -> (r: Self)
        ensures
            r.events.len() == 0,
    {
        EventStore::new()
    }
}

} // verus!
