//! One burn of a coupon: the stored record, its typed id, and its builder.

use vstd::prelude::*;
use crate::decimal::Dec;
use crate::timestamp::BackboneTimestamp;
use crate::records::{AuditMetadata, new_record_id};

verus! {

/// The typed id of a CouponRedemption record.
#[derive(Debug, Clone, Copy, PartialEq, Eq, Hash, Structural)]
pub struct CouponRedemptionId(pub u128);

impl CouponRedemptionId {
    pub fn new(id: u128) -> (r: Self)
        ensures
            r.0 == id,
    {
        CouponRedemptionId(id)
    }

    /// A fresh random id.
    pub fn generate() -> (r: Self) {
        CouponRedemptionId(new_record_id())
    }

    pub fn into_inner(self) -> (r: u128)
        ensures
            r == self.0,
    {
        self.0
    }
}

/// A stored CouponRedemption record.
#[derive(Debug, Clone)]
pub struct CouponRedemption {
    pub id: u128,
    pub company_id: u128,
    pub coupon_id: u128,
    pub pricing_rule_id: u128,
    pub source_type: String,
    pub source_id: u128,
    pub redeemed_at: BackboneTimestamp,
    pub metadata: AuditMetadata,
}

impl CouponRedemption {
    /// An empty builder.
    pub fn builder() -> (r: CouponRedemptionBuilder)
        ensures
            r.is_empty(),
    {
        CouponRedemptionBuilder::default()
    }

    /// A record with the required fields, a fresh id and no audit trail.
    pub fn new(company_id: u128, coupon_id: u128, pricing_rule_id: u128, source_type: String, source_id: u128, redeemed_at: BackboneTimestamp) -> (r: Self)
        ensures
            r.company_id == company_id,
            r.coupon_id == coupon_id,
            r.pricing_rule_id == pricing_rule_id,
            r.source_type == source_type,
            r.source_id == source_id,
            r.redeemed_at == redeemed_at,
            r.metadata == AuditMetadata::blank(),
    {
        CouponRedemption {
            id: new_record_id(),
            company_id,
            coupon_id,
            pricing_rule_id,
            source_type,
            source_id,
            redeemed_at,
            metadata: AuditMetadata::default(),
        }
    }

    pub fn id(&self) -> (r: &u128)
        ensures
            *r == self.id,
    {
        &self.id
    }

    pub fn typed_id(&self) -> (r: CouponRedemptionId)
        ensures
            r.0 == self.id,
    {
        CouponRedemptionId(self.id)
    }

    pub fn created_at(&self) -> (r: Option<&BackboneTimestamp>)
        ensures
            r is Some <==> self.metadata.created_at is Some,
            r is Some ==> *r.unwrap() == self.metadata.created_at.unwrap(),
    {
        self.metadata.created_at.as_ref()
    }

    pub fn updated_at(&self) -> (r: Option<&BackboneTimestamp>)
        ensures
            r is Some <==> self.metadata.updated_at is Some,
            r is Some ==> *r.unwrap() == self.metadata.updated_at.unwrap(),
    {
        self.metadata.updated_at.as_ref()
    }

    pub fn deleted_at(&self) -> (r: Option<&BackboneTimestamp>)
        ensures
            r is Some <==> self.metadata.deleted_at is Some,
            r is Some ==> *r.unwrap() == self.metadata.deleted_at.unwrap(),
    {
        self.metadata.deleted_at.as_ref()
    }

    pub fn created_by(&self) -> (r: Option<&u128>)
        ensures
            r is Some <==> self.metadata.created_by is Some,
            r is Some ==> *r.unwrap() == self.metadata.created_by.unwrap(),
    {
        self.metadata.created_by.as_ref()
    }

    pub fn updated_by(&self) -> (r: Option<&u128>)
        ensures
            r is Some <==> self.metadata.updated_by is Some,
            r is Some ==> *r.unwrap() == self.metadata.updated_by.unwrap(),
    {
        self.metadata.updated_by.as_ref()
    }

    pub fn deleted_by(&self) -> (r: Option<&u128>)
        ensures
            r is Some <==> self.metadata.deleted_by is Some,
            r is Some ==> *r.unwrap() == self.metadata.deleted_by.unwrap(),
    {
        self.metadata.deleted_by.as_ref()
    }

    /// Soft-deleted: a deletion instant is recorded.
    pub fn is_deleted(&self) -> (r: bool)
        ensures
            r == self.metadata.deleted_at is Some,
    {
        self.metadata.deleted_at.is_some()
    }

    /// Not soft-deleted.
    pub fn is_active(&self) -> (r: bool)
        ensures
            r == self.metadata.deleted_at is None,
    {
        self.metadata.deleted_at.is_none()
    }

}

/// Builds a CouponRedemption field by field; `build` refuses a missing required field.
#[derive(Debug, Clone)]
pub struct CouponRedemptionBuilder {
    pub company_id: Option<u128>,
    pub coupon_id: Option<u128>,
    pub pricing_rule_id: Option<u128>,
    pub source_type: Option<String>,
    pub source_id: Option<u128>,
    pub redeemed_at: Option<BackboneTimestamp>,
}

impl CouponRedemptionBuilder {
    /// No field is set.
    pub open spec fn is_empty(&self) -> bool {
        &&& self.company_id is None
        &&& self.coupon_id is None
        &&& self.pricing_rule_id is None
        &&& self.source_type is None
        &&& self.source_id is None
        &&& self.redeemed_at is None
    }
}

impl Default for CouponRedemptionBuilder {
    fn default() -> (r: CouponRedemptionBuilder)
        ensures
            r.is_empty(),
    {
        CouponRedemptionBuilder {
            company_id: None,
            coupon_id: None,
            pricing_rule_id: None,
            source_type: None,
            source_id: None,
            redeemed_at: None,
        }
    }
}

impl CouponRedemptionBuilder {
    pub fn company_id(self, value: u128) -> (r: Self)
        ensures
            r == (CouponRedemptionBuilder { company_id: Some(value), ..self }),
    {
        CouponRedemptionBuilder { company_id: Some(value), ..self }
    }

    pub fn coupon_id(self, value: u128) -> (r: Self)
        ensures
            r == (CouponRedemptionBuilder { coupon_id: Some(value), ..self }),
    {
        CouponRedemptionBuilder { coupon_id: Some(value), ..self }
    }

    pub fn pricing_rule_id(self, value: u128) -> (r: Self)
        ensures
            r == (CouponRedemptionBuilder { pricing_rule_id: Some(value), ..self }),
    {
        CouponRedemptionBuilder { pricing_rule_id: Some(value), ..self }
    }

    pub fn source_type(self, value: String) -> (r: Self)
        ensures
            r == (CouponRedemptionBuilder { source_type: Some(value), ..self }),
    {
        CouponRedemptionBuilder { source_type: Some(value), ..self }
    }

    pub fn source_id(self, value: u128) -> (r: Self)
        ensures
            r == (CouponRedemptionBuilder { source_id: Some(value), ..self }),
    {
        CouponRedemptionBuilder { source_id: Some(value), ..self }
    }

    pub fn redeemed_at(self, value: BackboneTimestamp) -> (r: Self)
        ensures
            r == (CouponRedemptionBuilder { redeemed_at: Some(value), ..self }),
    {
        CouponRedemptionBuilder { redeemed_at: Some(value), ..self }
    }

    /// The record, with a fresh id and no audit trail. The first missing required field (in the
    /// order `company_id`, `coupon_id`, `pricing_rule_id`, `source_type`, `source_id`) is refused
    /// as `"<field> is required"`; an unset defaulted field takes its default.
    pub fn build(self) -> (r: Result<CouponRedemption, String>)
        ensures
            self.company_id is None ==> (r matches Err(e) && e@ == "company_id is required"@),
            self.company_id is Some && self.coupon_id is None ==> (r matches Err(e) && e@ == "coupon_id is required"@),
            self.company_id is Some && self.coupon_id is Some && self.pricing_rule_id is None ==> (r matches Err(e) && e@ == "pricing_rule_id is required"@),
            self.company_id is Some && self.coupon_id is Some && self.pricing_rule_id is Some && self.source_type is None ==> (r matches Err(e) && e@ == "source_type is required"@),
            self.company_id is Some && self.coupon_id is Some && self.pricing_rule_id is Some && self.source_type is Some && self.source_id is None ==> (r matches Err(e) && e@ == "source_id is required"@),
            (self.company_id is Some && self.coupon_id is Some && self.pricing_rule_id is Some && self.source_type is Some && self.source_id is Some) ==> (r matches Ok(x) && {
                &&& x.company_id == self.company_id.unwrap()
                &&& x.coupon_id == self.coupon_id.unwrap()
                &&& x.pricing_rule_id == self.pricing_rule_id.unwrap()
                &&& x.source_type == self.source_type.unwrap()
                &&& x.source_id == self.source_id.unwrap()
                &&& (self.redeemed_at is Some ==> x.redeemed_at == self.redeemed_at.unwrap())
                &&& x.metadata == AuditMetadata::blank()
            }),
    {
        let company_id = match self.company_id {
            Some(v) => v,
            None => return Err(String::from_str("company_id is required")),
        };
        let coupon_id = match self.coupon_id {
            Some(v) => v,
            None => return Err(String::from_str("coupon_id is required")),
        };
        let pricing_rule_id = match self.pricing_rule_id {
            Some(v) => v,
            None => return Err(String::from_str("pricing_rule_id is required")),
        };
        let source_type = match self.source_type {
            Some(v) => v,
            None => return Err(String::from_str("source_type is required")),
        };
        let source_id = match self.source_id {
            Some(v) => v,
            None => return Err(String::from_str("source_id is required")),
        };
        Ok(
            CouponRedemption {
                id: new_record_id(),
                company_id,
                coupon_id,
                pricing_rule_id,
                source_type,
                source_id,
                redeemed_at: match self.redeemed_at {
                    Some(v) => v,
                    None => BackboneTimestamp::now(),
                },
                metadata: AuditMetadata::default(),
            },
        )
    }
}

} // verus!
