//! One component of a promotional bundle: the stored record, its typed id, and its builder.

use vstd::prelude::*;
use crate::decimal::{Dec, unit};
use crate::timestamp::BackboneTimestamp;
use crate::entity_kinds::{ApplyOn};
use crate::records::{AuditMetadata, new_record_id};

verus! {

/// The typed id of a PromoBundleComponent record.
#[derive(Debug, Clone, Copy, PartialEq, Eq, Hash, Structural)]
pub struct PromoBundleComponentId(pub u128);

impl PromoBundleComponentId {
    pub fn new(id: u128) -> (r: Self)
        ensures
            r.0 == id,
    {
        PromoBundleComponentId(id)
    }

    /// A fresh random id.
    pub fn generate() -> (r: Self) {
        PromoBundleComponentId(new_record_id())
    }

    pub fn into_inner(self) -> (r: u128)
        ensures
            r == self.0,
    {
        self.0
    }
}

/// A stored PromoBundleComponent record.
#[derive(Debug, Clone)]
pub struct PromoBundleComponent {
    pub id: u128,
    pub company_id: u128,
    pub bundle_id: u128,
    pub apply_on: ApplyOn,
    pub item_id: Option<u128>,
    pub item_group_id: Option<u128>,
    pub brand_id: Option<u128>,
    pub min_qty: Dec,
    pub metadata: AuditMetadata,
}

impl PromoBundleComponent {
    /// An empty builder.
    pub fn builder() -> (r: PromoBundleComponentBuilder)
        ensures
            r.is_empty(),
    {
        PromoBundleComponentBuilder::default()
    }

    /// A record with the required fields, a fresh id and no audit trail.
    pub fn new(company_id: u128, bundle_id: u128, apply_on: ApplyOn, min_qty: Dec) -> (r: Self)
        ensures
            r.company_id == company_id,
            r.bundle_id == bundle_id,
            r.apply_on == apply_on,
            r.min_qty == min_qty,
            r.item_id is None,
            r.item_group_id is None,
            r.brand_id is None,
            r.metadata == AuditMetadata::blank(),
    {
        PromoBundleComponent {
            id: new_record_id(),
            company_id,
            bundle_id,
            apply_on,
            item_id: None,
            item_group_id: None,
            brand_id: None,
            min_qty,
            metadata: AuditMetadata::default(),
        }
    }

    pub fn id(&self) -> (r: &u128)
        ensures
            *r == self.id,
    {
        &self.id
    }

    pub fn typed_id(&self) -> (r: PromoBundleComponentId)
        ensures
            r.0 == self.id,
    {
        PromoBundleComponentId(self.id)
    }

    pub fn created_at(&self) -> (r: Option<&BackboneTimestamp>)
        ensures
            r is Some <==> self.metadata.created_at is Some,
            r is Some ==> *r.unwrap() == self.metadata.created_at.unwrap(),
    {
        self.metadata.created_at.as_ref()
    }

    pub fn updated_at(&self) -> (r: Option<&BackboneTimestamp>)
        ensures
            r is Some <==> self.metadata.updated_at is Some,
            r is Some ==> *r.unwrap() == self.metadata.updated_at.unwrap(),
    {
        self.metadata.updated_at.as_ref()
    }

    pub fn deleted_at(&self) -> (r: Option<&BackboneTimestamp>)
        ensures
            r is Some <==> self.metadata.deleted_at is Some,
            r is Some ==> *r.unwrap() == self.metadata.deleted_at.unwrap(),
    {
        self.metadata.deleted_at.as_ref()
    }

    pub fn created_by(&self) -> (r: Option<&u128>)
        ensures
            r is Some <==> self.metadata.created_by is Some,
            r is Some ==> *r.unwrap() == self.metadata.created_by.unwrap(),
    {
        self.metadata.created_by.as_ref()
    }

    pub fn updated_by(&self) -> (r: Option<&u128>)
        ensures
            r is Some <==> self.metadata.updated_by is Some,
            r is Some ==> *r.unwrap() == self.metadata.updated_by.unwrap(),
    {
        self.metadata.updated_by.as_ref()
    }

    pub fn deleted_by(&self) -> (r: Option<&u128>)
        ensures
            r is Some <==> self.metadata.deleted_by is Some,
            r is Some ==> *r.unwrap() == self.metadata.deleted_by.unwrap(),
    {
        self.metadata.deleted_by.as_ref()
    }

    /// Soft-deleted: a deletion instant is recorded.
    pub fn is_deleted(&self) -> (r: bool)
        ensures
            r == self.metadata.deleted_at is Some,
    {
        self.metadata.deleted_at.is_some()
    }

    /// Not soft-deleted.
    pub fn is_active(&self) -> (r: bool)
        ensures
            r == self.metadata.deleted_at is None,
    {
        self.metadata.deleted_at.is_none()
    }

    pub fn with_item_id(self, value: u128) -> (r: Self)
        ensures
            r == (PromoBundleComponent { item_id: Some(value), ..self }),
    {
        PromoBundleComponent { item_id: Some(value), ..self }
    }

    pub fn with_item_group_id(self, value: u128) -> (r: Self)
        ensures
            r == (PromoBundleComponent { item_group_id: Some(value), ..self }),
    {
        PromoBundleComponent { item_group_id: Some(value), ..self }
    }

    pub fn with_brand_id(self, value: u128) -> (r: Self)
        ensures
            r == (PromoBundleComponent { brand_id: Some(value), ..self }),
    {
        PromoBundleComponent { brand_id: Some(value), ..self }
    }
}

/// Builds a PromoBundleComponent field by field; `build` refuses a missing required field.
#[derive(Debug, Clone)]
pub struct PromoBundleComponentBuilder {
    pub company_id: Option<u128>,
    pub bundle_id: Option<u128>,
    pub apply_on: Option<ApplyOn>,
    pub item_id: Option<u128>,
    pub item_group_id: Option<u128>,
    pub brand_id: Option<u128>,
    pub min_qty: Option<Dec>,
}

impl PromoBundleComponentBuilder {
    /// No field is set.
    pub open spec fn is_empty(&self) -> bool {
        &&& self.company_id is None
        &&& self.bundle_id is None
        &&& self.apply_on is None
        &&& self.item_id is None
        &&& self.item_group_id is None
        &&& self.brand_id is None
        &&& self.min_qty is None
    }
}

impl Default for PromoBundleComponentBuilder {
    fn default() -> (r: PromoBundleComponentBuilder)
        ensures
            r.is_empty(),
    {
        PromoBundleComponentBuilder {
            company_id: None,
            bundle_id: None,
            apply_on: None,
            item_id: None,
            item_group_id: None,
            brand_id: None,
            min_qty: None,
        }
    }
}

impl PromoBundleComponentBuilder {
    pub fn company_id(self, value: u128) -> (r: Self)
        ensures
            r == (PromoBundleComponentBuilder { company_id: Some(value), ..self }),
    {
        PromoBundleComponentBuilder { company_id: Some(value), ..self }
    }

    pub fn bundle_id(self, value: u128) -> (r: Self)
        ensures
            r == (PromoBundleComponentBuilder { bundle_id: Some(value), ..self }),
    {
        PromoBundleComponentBuilder { bundle_id: Some(value), ..self }
    }

    pub fn apply_on(self, value: ApplyOn) -> (r: Self)
        ensures
            r == (PromoBundleComponentBuilder { apply_on: Some(value), ..self }),
    {
        PromoBundleComponentBuilder { apply_on: Some(value), ..self }
    }

    pub fn item_id(self, value: u128) -> (r: Self)
        ensures
            r == (PromoBundleComponentBuilder { item_id: Some(value), ..self }),
    {
        PromoBundleComponentBuilder { item_id: Some(value), ..self }
    }

    pub fn item_group_id(self, value: u128) -> (r: Self)
        ensures
            r == (PromoBundleComponentBuilder { item_group_id: Some(value), ..self }),
    {
        PromoBundleComponentBuilder { item_group_id: Some(value), ..self }
    }

    pub fn brand_id(self, value: u128) -> (r: Self)
        ensures
            r == (PromoBundleComponentBuilder { brand_id: Some(value), ..self }),
    {
        PromoBundleComponentBuilder { brand_id: Some(value), ..self }
    }

    pub fn min_qty(self, value: Dec) -> (r: Self)
        ensures
            r == (PromoBundleComponentBuilder { min_qty: Some(value), ..self }),
    {
        PromoBundleComponentBuilder { min_qty: Some(value), ..self }
    }

    /// The record, with a fresh id and no audit trail. The first missing required field (in the
    /// order `company_id`, `bundle_id`) is refused as `"<field> is required"`; an unset defaulted
    /// field takes its default.
    pub fn build(self) -> (r: Result<PromoBundleComponent, String>)
        ensures
            self.company_id is None ==> (r matches Err(e) && e@ == "company_id is required"@),
            self.company_id is Some && self.bundle_id is None ==> (r matches Err(e) && e@ == "bundle_id is required"@),
            (self.company_id is Some && self.bundle_id is Some) ==> (r matches Ok(x) && {
                &&& x.company_id == self.company_id.unwrap()
                &&& x.bundle_id == self.bundle_id.unwrap()
                &&& (self.apply_on is Some ==> x.apply_on == self.apply_on.unwrap())
                &&& (self.apply_on is None ==> x.apply_on == ApplyOn::Item)
                &&& x.item_id == self.item_id
                &&& x.item_group_id == self.item_group_id
                &&& x.brand_id == self.brand_id
                &&& (self.min_qty is Some ==> x.min_qty == self.min_qty.unwrap())
                &&& (self.min_qty is None ==> x.min_qty.units() == unit() && x.min_qty.scale == 0)
                &&& x.metadata == AuditMetadata::blank()
            }),
    {
        let company_id = match self.company_id {
            Some(v) => v,
            None => return Err(String::from_str("company_id is required")),
        };
        let bundle_id = match self.bundle_id {
            Some(v) => v,
            None => return Err(String::from_str("bundle_id is required")),
        };
        Ok(
            PromoBundleComponent {
                id: new_record_id(),
                company_id,
                bundle_id,
                apply_on: match self.apply_on {
                    Some(v) => v,
                    None => ApplyOn::default(),
                },
                item_id: self.item_id,
                item_group_id: self.item_group_id,
                brand_id: self.brand_id,
                min_qty: match self.min_qty {
                    Some(v) => v,
                    None => Dec::from_int(1),
                },
                metadata: AuditMetadata::default(),
            },
        )
    }
}

} // verus!
