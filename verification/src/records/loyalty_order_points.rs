//! A member's per-order loyalty accounting: the stored record, its typed id, and its builder.

use vstd::prelude::*;
use crate::decimal::Dec;
use crate::timestamp::BackboneTimestamp;
use crate::records::{AuditMetadata, new_record_id};

verus! {

/// The typed id of a LoyaltyOrderPoints record.
#[derive(Debug, Clone, Copy, PartialEq, Eq, Hash, Structural)]
pub struct LoyaltyOrderPointsId(pub u128);

impl LoyaltyOrderPointsId {
    pub fn new(id: u128) -> (r: Self)
        ensures
            r.0 == id,
    {
        LoyaltyOrderPointsId(id)
    }

    /// A fresh random id.
    pub fn generate() -> (r: Self) {
        LoyaltyOrderPointsId(new_record_id())
    }

    pub fn into_inner(self) -> (r: u128)
        ensures
            r == self.0,
    {
        self.0
    }
}

/// A stored LoyaltyOrderPoints record.
#[derive(Debug, Clone)]
pub struct LoyaltyOrderPoints {
    pub id: u128,
    pub company_id: u128,
    pub loyalty_program_id: u128,
    pub customer_id: u128,
    pub order_ref_type: String,
    pub order_ref_id: u128,
    pub coupon_code_id: Option<u128>,
    pub grant_base_amount: Dec,
    pub granted_points: Dec,
    pub spent_points: Dec,
    pub granted_reversed_points: Dec,
    pub spent_reversed_points: Dec,
    pub granted_at: Option<BackboneTimestamp>,
    pub spent_at: Option<BackboneTimestamp>,
    pub metadata: AuditMetadata,
}

impl LoyaltyOrderPoints {
    /// An empty builder.
    pub fn builder() -> (r: LoyaltyOrderPointsBuilder)
        ensures
            r.is_empty(),
    {
        LoyaltyOrderPointsBuilder::default()
    }

    /// A record with the required fields, a fresh id and no audit trail.
    pub fn new(company_id: u128, loyalty_program_id: u128, customer_id: u128, order_ref_type: String, order_ref_id: u128, grant_base_amount: Dec, granted_points: Dec, spent_points: Dec, granted_reversed_points: Dec, spent_reversed_points: Dec) -> (r: Self)
        ensures
            r.company_id == company_id,
            r.loyalty_program_id == loyalty_program_id,
            r.customer_id == customer_id,
            r.order_ref_type == order_ref_type,
            r.order_ref_id == order_ref_id,
            r.grant_base_amount == grant_base_amount,
            r.granted_points == granted_points,
            r.spent_points == spent_points,
            r.granted_reversed_points == granted_reversed_points,
            r.spent_reversed_points == spent_reversed_points,
            r.coupon_code_id is None,
            r.granted_at is None,
            r.spent_at is None,
            r.metadata == AuditMetadata::blank(),
    {
        LoyaltyOrderPoints {
            id: new_record_id(),
            company_id,
            loyalty_program_id,
            customer_id,
            order_ref_type,
            order_ref_id,
            coupon_code_id: None,
            grant_base_amount,
            granted_points,
            spent_points,
            granted_reversed_points,
            spent_reversed_points,
            granted_at: None,
            spent_at: None,
            metadata: AuditMetadata::default(),
        }
    }

    pub fn id(&self) -> (r: &u128)
        ensures
            *r == self.id,
    {
        &self.id
    }

    pub fn typed_id(&self) -> (r: LoyaltyOrderPointsId)
        ensures
            r.0 == self.id,
    {
        LoyaltyOrderPointsId(self.id)
    }

    pub fn created_at(&self) -> (r: Option<&BackboneTimestamp>)
        ensures
            r is Some <==> self.metadata.created_at is Some,
            r is Some ==> *r.unwrap() == self.metadata.created_at.unwrap(),
    {
        self.metadata.created_at.as_ref()
    }

    pub fn updated_at(&self) -> (r: Option<&BackboneTimestamp>)
        ensures
            r is Some <==> self.metadata.updated_at is Some,
            r is Some ==> *r.unwrap() == self.metadata.updated_at.unwrap(),
    {
        self.metadata.updated_at.as_ref()
    }

    pub fn deleted_at(&self) -> (r: Option<&BackboneTimestamp>)
        ensures
            r is Some <==> self.metadata.deleted_at is Some,
            r is Some ==> *r.unwrap() == self.metadata.deleted_at.unwrap(),
    {
        self.metadata.deleted_at.as_ref()
    }

    pub fn created_by(&self) -> (r: Option<&u128>)
        ensures
            r is Some <==> self.metadata.created_by is Some,
            r is Some ==> *r.unwrap() == self.metadata.created_by.unwrap(),
    {
        self.metadata.created_by.as_ref()
    }

    pub fn updated_by(&self) -> (r: Option<&u128>)
        ensures
            r is Some <==> self.metadata.updated_by is Some,
            r is Some ==> *r.unwrap() == self.metadata.updated_by.unwrap(),
    {
        self.metadata.updated_by.as_ref()
    }

    pub fn deleted_by(&self) -> (r: Option<&u128>)
        ensures
            r is Some <==> self.metadata.deleted_by is Some,
            r is Some ==> *r.unwrap() == self.metadata.deleted_by.unwrap(),
    {
        self.metadata.deleted_by.as_ref()
    }

    /// Soft-deleted: a deletion instant is recorded.
    pub fn is_deleted(&self) -> (r: bool)
        ensures
            r == self.metadata.deleted_at is Some,
    {
        self.metadata.deleted_at.is_some()
    }

    /// Not soft-deleted.
    pub fn is_active(&self) -> (r: bool)
        ensures
            r == self.metadata.deleted_at is None,
    {
        self.metadata.deleted_at.is_none()
    }

    pub fn with_coupon_code_id(self, value: u128) -> (r: Self)
        ensures
            r == (LoyaltyOrderPoints { coupon_code_id: Some(value), ..self }),
    {
        LoyaltyOrderPoints { coupon_code_id: Some(value), ..self }
    }

    pub fn with_granted_at(self, value: BackboneTimestamp) -> (r: Self)
        ensures
            r == (LoyaltyOrderPoints { granted_at: Some(value), ..self }),
    {
        LoyaltyOrderPoints { granted_at: Some(value), ..self }
    }

    pub fn with_spent_at(self, value: BackboneTimestamp) -> (r: Self)
        ensures
            r == (LoyaltyOrderPoints { spent_at: Some(value), ..self }),
    {
        LoyaltyOrderPoints { spent_at: Some(value), ..self }
    }
}

/// Builds a LoyaltyOrderPoints field by field; `build` refuses a missing required field.
#[derive(Debug, Clone)]
pub struct LoyaltyOrderPointsBuilder {
    pub company_id: Option<u128>,
    pub loyalty_program_id: Option<u128>,
    pub customer_id: Option<u128>,
    pub order_ref_type: Option<String>,
    pub order_ref_id: Option<u128>,
    pub coupon_code_id: Option<u128>,
    pub grant_base_amount: Option<Dec>,
    pub granted_points: Option<Dec>,
    pub spent_points: Option<Dec>,
    pub granted_reversed_points: Option<Dec>,
    pub spent_reversed_points: Option<Dec>,
    pub granted_at: Option<BackboneTimestamp>,
    pub spent_at: Option<BackboneTimestamp>,
}

impl LoyaltyOrderPointsBuilder {
    /// No field is set.
    pub open spec fn is_empty(&self) -> bool {
        &&& self.company_id is None
        &&& self.loyalty_program_id is None
        &&& self.customer_id is None
        &&& self.order_ref_type is None
        &&& self.order_ref_id is None
        &&& self.coupon_code_id is None
        &&& self.grant_base_amount is None
        &&& self.granted_points is None
        &&& self.spent_points is None
        &&& self.granted_reversed_points is None
        &&& self.spent_reversed_points is None
        &&& self.granted_at is None
        &&& self.spent_at is None
    }
}

impl Default for LoyaltyOrderPointsBuilder {
    fn default() -> (r: LoyaltyOrderPointsBuilder)
        ensures
            r.is_empty(),
    {
        LoyaltyOrderPointsBuilder {
            company_id: None,
            loyalty_program_id: None,
            customer_id: None,
            order_ref_type: None,
            order_ref_id: None,
            coupon_code_id: None,
            grant_base_amount: None,
            granted_points: None,
            spent_points: None,
            granted_reversed_points: None,
            spent_reversed_points: None,
            granted_at: None,
            spent_at: None,
        }
    }
}

impl LoyaltyOrderPointsBuilder {
    pub fn company_id(self, value: u128) -> (r: Self)
        ensures
            r == (LoyaltyOrderPointsBuilder { company_id: Some(value), ..self }),
    {
        LoyaltyOrderPointsBuilder { company_id: Some(value), ..self }
    }

    pub fn loyalty_program_id(self, value: u128) -> (r: Self)
        ensures
            r == (LoyaltyOrderPointsBuilder { loyalty_program_id: Some(value), ..self }),
    {
        LoyaltyOrderPointsBuilder { loyalty_program_id: Some(value), ..self }
    }

    pub fn customer_id(self, value: u128) -> (r: Self)
        ensures
            r == (LoyaltyOrderPointsBuilder { customer_id: Some(value), ..self }),
    {
        LoyaltyOrderPointsBuilder { customer_id: Some(value), ..self }
    }

    pub fn order_ref_type(self, value: String) -> (r: Self)
        ensures
            r == (LoyaltyOrderPointsBuilder { order_ref_type: Some(value), ..self }),
    {
        LoyaltyOrderPointsBuilder { order_ref_type: Some(value), ..self }
    }

    pub fn order_ref_id(self, value: u128) -> (r: Self)
        ensures
            r == (LoyaltyOrderPointsBuilder { order_ref_id: Some(value), ..self }),
    {
        LoyaltyOrderPointsBuilder { order_ref_id: Some(value), ..self }
    }

    pub fn coupon_code_id(self, value: u128) -> (r: Self)
        ensures
            r == (LoyaltyOrderPointsBuilder { coupon_code_id: Some(value), ..self }),
    {
        LoyaltyOrderPointsBuilder { coupon_code_id: Some(value), ..self }
    }

    pub fn grant_base_amount(self, value: Dec) -> (r: Self)
        ensures
            r == (LoyaltyOrderPointsBuilder { grant_base_amount: Some(value), ..self }),
    {
        LoyaltyOrderPointsBuilder { grant_base_amount: Some(value), ..self }
    }

    pub fn granted_points(self, value: Dec) -> (r: Self)
        ensures
            r == (LoyaltyOrderPointsBuilder { granted_points: Some(value), ..self }),
    {
        LoyaltyOrderPointsBuilder { granted_points: Some(value), ..self }
    }

    pub fn spent_points(self, value: Dec) -> (r: Self)
        ensures
            r == (LoyaltyOrderPointsBuilder { spent_points: Some(value), ..self }),
    {
        LoyaltyOrderPointsBuilder { spent_points: Some(value), ..self }
    }

    pub fn granted_reversed_points(self, value: Dec) -> (r: Self)
        ensures
            r == (LoyaltyOrderPointsBuilder { granted_reversed_points: Some(value), ..self }),
    {
        LoyaltyOrderPointsBuilder { granted_reversed_points: Some(value), ..self }
    }

    pub fn spent_reversed_points(self, value: Dec) -> (r: Self)
        ensures
            r == (LoyaltyOrderPointsBuilder { spent_reversed_points: Some(value), ..self }),
    {
        LoyaltyOrderPointsBuilder { spent_reversed_points: Some(value), ..self }
    }

    pub fn granted_at(self, value: BackboneTimestamp) -> (r: Self)
        ensures
            r == (LoyaltyOrderPointsBuilder { granted_at: Some(value), ..self }),
    {
        LoyaltyOrderPointsBuilder { granted_at: Some(value), ..self }
    }

    pub fn spent_at(self, value: BackboneTimestamp) -> (r: Self)
        ensures
            r == (LoyaltyOrderPointsBuilder { spent_at: Some(value), ..self }),
    {
        LoyaltyOrderPointsBuilder { spent_at: Some(value), ..self }
    }

    /// The record, with a fresh id and no audit trail. The first missing required field (in the
    /// order `company_id`, `loyalty_program_id`, `customer_id`, `order_ref_type`, `order_ref_id`)
    /// is refused as `"<field> is required"`; an unset defaulted field takes its default.
    pub fn build(self) -> (r: Result<LoyaltyOrderPoints, String>)
        ensures
            self.company_id is None ==> (r matches Err(e) && e@ == "company_id is required"@),
            self.company_id is Some && self.loyalty_program_id is None ==> (r matches Err(e) && e@ == "loyalty_program_id is required"@),
            self.company_id is Some && self.loyalty_program_id is Some && self.customer_id is None ==> (r matches Err(e) && e@ == "customer_id is required"@),
            self.company_id is Some && self.loyalty_program_id is Some && self.customer_id is Some && self.order_ref_type is None ==> (r matches Err(e) && e@ == "order_ref_type is required"@),
            self.company_id is Some && self.loyalty_program_id is Some && self.customer_id is Some && self.order_ref_type is Some && self.order_ref_id is None ==> (r matches Err(e) && e@ == "order_ref_id is required"@),
            (self.company_id is Some && self.loyalty_program_id is Some && self.customer_id is Some && self.order_ref_type is Some && self.order_ref_id is Some) ==> (r matches Ok(x) && {
                &&& x.company_id == self.company_id.unwrap()
                &&& x.loyalty_program_id == self.loyalty_program_id.unwrap()
                &&& x.customer_id == self.customer_id.unwrap()
                &&& x.order_ref_type == self.order_ref_type.unwrap()
                &&& x.order_ref_id == self.order_ref_id.unwrap()
                &&& x.coupon_code_id == self.coupon_code_id
                &&& (self.grant_base_amount is Some ==> x.grant_base_amount == self.grant_base_amount.unwrap())
                &&& (self.grant_base_amount is None ==> x.grant_base_amount.units() == 0 && x.grant_base_amount.scale == 0)
                &&& (self.granted_points is Some ==> x.granted_points == self.granted_points.unwrap())
                &&& (self.granted_points is None ==> x.granted_points.units() == 0 && x.granted_points.scale == 0)
                &&& (self.spent_points is Some ==> x.spent_points == self.spent_points.unwrap())
                &&& (self.spent_points is None ==> x.spent_points.units() == 0 && x.spent_points.scale == 0)
                &&& (self.granted_reversed_points is Some ==> x.granted_reversed_points == self.granted_reversed_points.unwrap())
                &&& (self.granted_reversed_points is None ==> x.granted_reversed_points.units() == 0 && x.granted_reversed_points.scale == 0)
                &&& (self.spent_reversed_points is Some ==> x.spent_reversed_points == self.spent_reversed_points.unwrap())
                &&& (self.spent_reversed_points is None ==> x.spent_reversed_points.units() == 0 && x.spent_reversed_points.scale == 0)
                &&& x.granted_at == self.granted_at
                &&& x.spent_at == self.spent_at
                &&& x.metadata == AuditMetadata::blank()
            }),
    {
        let company_id = match self.company_id {
            Some(v) => v,
            None => return Err(String::from_str("company_id is required")),
        };
        let loyalty_program_id = match self.loyalty_program_id {
            Some(v) => v,
            None => return Err(String::from_str("loyalty_program_id is required")),
        };
        let customer_id = match self.customer_id {
            Some(v) => v,
            None => return Err(String::from_str("customer_id is required")),
        };
        let order_ref_type = match self.order_ref_type {
            Some(v) => v,
            None => return Err(String::from_str("order_ref_type is required")),
        };
        let order_ref_id = match self.order_ref_id {
            Some(v) => v,
            None => return Err(String::from_str("order_ref_id is required")),
        };
        Ok(
            LoyaltyOrderPoints {
                id: new_record_id(),
                company_id,
                loyalty_program_id,
                customer_id,
                order_ref_type,
                order_ref_id,
                coupon_code_id: self.coupon_code_id,
                grant_base_amount: match self.grant_base_amount {
                    Some(v) => v,
                    None => Dec::from_int(0),
                },
                granted_points: match self.granted_points {
                    Some(v) => v,
                    None => Dec::from_int(0),
                },
                spent_points: match self.spent_points {
                    Some(v) => v,
                    None => Dec::from_int(0),
                },
                granted_reversed_points: match self.granted_reversed_points {
                    Some(v) => v,
                    None => Dec::from_int(0),
                },
                spent_reversed_points: match self.spent_reversed_points {
                    Some(v) => v,
                    None => Dec::from_int(0),
                },
                granted_at: self.granted_at,
                spent_at: self.spent_at,
                metadata: AuditMetadata::default(),
            },
        )
    }
}

} // verus!
