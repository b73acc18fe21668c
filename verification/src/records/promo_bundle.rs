//! A promotional bundle: the stored record, its typed id, and its builder.

use vstd::prelude::*;
use crate::decimal::Dec;
use crate::timestamp::BackboneTimestamp;
use crate::entity_kinds::{BundleMatch, RateOrDiscount};
use crate::records::{AuditMetadata, new_record_id};

verus! {

/// The typed id of a PromoBundle record.
#[derive(Debug, Clone, Copy, PartialEq, Eq, Hash, Structural)]
pub struct PromoBundleId(pub u128);

impl PromoBundleId {
    pub fn new(id: u128) -> (r: Self)
        ensures
            r.0 == id,
    {
        PromoBundleId(id)
    }

    /// A fresh random id.
    pub fn generate() -> (r: Self) {
        PromoBundleId(new_record_id())
    }

    pub fn into_inner(self) -> (r: u128)
        ensures
            r == self.0,
    {
        self.0
    }
}

/// A stored PromoBundle record.
#[derive(Debug, Clone)]
pub struct PromoBundle {
    pub id: u128,
    pub company_id: u128,
    pub title: String,
    pub priority: i32,
    pub match_type: BundleMatch,
    pub required_distinct: Option<i32>,
    pub reward: RateOrDiscount,
    pub discount_percentage: Option<Dec>,
    pub discount_amount: Option<Dec>,
    pub currency: String,
    pub min_order_amount: Dec,
    pub stackable: bool,
    pub valid_from: BackboneTimestamp,
    pub valid_to: Option<BackboneTimestamp>,
    pub is_active: bool,
    pub metadata: AuditMetadata,
}

impl PromoBundle {
    /// An empty builder.
    pub fn builder() -> (r: PromoBundleBuilder)
        ensures
            r.is_empty(),
    {
        PromoBundleBuilder::default()
    }

    /// A record with the required fields, a fresh id and no audit trail.
    pub fn new(company_id: u128, title: String, priority: i32, match_type: BundleMatch, reward: RateOrDiscount, currency: String, min_order_amount: Dec, stackable: bool, valid_from: BackboneTimestamp, is_active: bool) -> (r: Self)
        ensures
            r.company_id == company_id,
            r.title == title,
            r.priority == priority,
            r.match_type == match_type,
            r.reward == reward,
            r.currency == currency,
            r.min_order_amount == min_order_amount,
            r.stackable == stackable,
            r.valid_from == valid_from,
            r.is_active == is_active,
            r.required_distinct is None,
            r.discount_percentage is None,
            r.discount_amount is None,
            r.valid_to is None,
            r.metadata == AuditMetadata::blank(),
    {
        PromoBundle {
            id: new_record_id(),
            company_id,
            title,
            priority,
            match_type,
            required_distinct: None,
            reward,
            discount_percentage: None,
            discount_amount: None,
            currency,
            min_order_amount,
            stackable,
            valid_from,
            valid_to: None,
            is_active,
            metadata: AuditMetadata::default(),
        }
    }

    pub fn id(&self) -> (r: &u128)
        ensures
            *r == self.id,
    {
        &self.id
    }

    pub fn typed_id(&self) -> (r: PromoBundleId)
        ensures
            r.0 == self.id,
    {
        PromoBundleId(self.id)
    }

    pub fn created_at(&self) -> (r: Option<&BackboneTimestamp>)
        ensures
            r is Some <==> self.metadata.created_at is Some,
            r is Some ==> *r.unwrap() == self.metadata.created_at.unwrap(),
    {
        self.metadata.created_at.as_ref()
    }

    pub fn updated_at(&self) -> (r: Option<&BackboneTimestamp>)
        ensures
            r is Some <==> self.metadata.updated_at is Some,
            r is Some ==> *r.unwrap() == self.metadata.updated_at.unwrap(),
    {
        self.metadata.updated_at.as_ref()
    }

    pub fn deleted_at(&self) -> (r: Option<&BackboneTimestamp>)
        ensures
            r is Some <==> self.metadata.deleted_at is Some,
            r is Some ==> *r.unwrap() == self.metadata.deleted_at.unwrap(),
    {
        self.metadata.deleted_at.as_ref()
    }

    pub fn created_by(&self) -> (r: Option<&u128>)
        ensures
            r is Some <==> self.metadata.created_by is Some,
            r is Some ==> *r.unwrap() == self.metadata.created_by.unwrap(),
    {
        self.metadata.created_by.as_ref()
    }

    pub fn updated_by(&self) -> (r: Option<&u128>)
        ensures
            r is Some <==> self.metadata.updated_by is Some,
            r is Some ==> *r.unwrap() == self.metadata.updated_by.unwrap(),
    {
        self.metadata.updated_by.as_ref()
    }

    pub fn deleted_by(&self) -> (r: Option<&u128>)
        ensures
            r is Some <==> self.metadata.deleted_by is Some,
            r is Some ==> *r.unwrap() == self.metadata.deleted_by.unwrap(),
    {
        self.metadata.deleted_by.as_ref()
    }

    /// Soft-deleted: a deletion instant is recorded.
    pub fn is_deleted(&self) -> (r: bool)
        ensures
            r == self.metadata.deleted_at is Some,
    {
        self.metadata.deleted_at.is_some()
    }

    /// Not soft-deleted.
    pub fn is_active(&self) -> (r: bool)
        ensures
            r == self.metadata.deleted_at is None,
    {
        self.metadata.deleted_at.is_none()
    }

    pub fn with_required_distinct(self, value: i32) -> (r: Self)
        ensures
            r == (PromoBundle { required_distinct: Some(value), ..self }),
    {
        PromoBundle { required_distinct: Some(value), ..self }
    }

    pub fn with_discount_percentage(self, value: Dec) -> (r: Self)
        ensures
            r == (PromoBundle { discount_percentage: Some(value), ..self }),
    {
        PromoBundle { discount_percentage: Some(value), ..self }
    }

    pub fn with_discount_amount(self, value: Dec) -> (r: Self)
        ensures
            r == (PromoBundle { discount_amount: Some(value), ..self }),
    {
        PromoBundle { discount_amount: Some(value), ..self }
    }

    pub fn with_valid_to(self, value: BackboneTimestamp) -> (r: Self)
        ensures
            r == (PromoBundle { valid_to: Some(value), ..self }),
    {
        PromoBundle { valid_to: Some(value), ..self }
    }
}

/// Builds a PromoBundle field by field; `build` refuses a missing required field.
#[derive(Debug, Clone)]
pub struct PromoBundleBuilder {
    pub company_id: Option<u128>,
    pub title: Option<String>,
    pub priority: Option<i32>,
    pub match_type: Option<BundleMatch>,
    pub required_distinct: Option<i32>,
    pub reward: Option<RateOrDiscount>,
    pub discount_percentage: Option<Dec>,
    pub discount_amount: Option<Dec>,
    pub currency: Option<String>,
    pub min_order_amount: Option<Dec>,
    pub stackable: Option<bool>,
    pub valid_from: Option<BackboneTimestamp>,
    pub valid_to: Option<BackboneTimestamp>,
    pub is_active: Option<bool>,
}

impl PromoBundleBuilder {
    /// No field is set.
    pub open spec fn is_empty(&self) -> bool {
        &&& self.company_id is None
        &&& self.title is None
        &&& self.priority is None
        &&& self.match_type is None
        &&& self.required_distinct is None
        &&& self.reward is None
        &&& self.discount_percentage is None
        &&& self.discount_amount is None
        &&& self.currency is None
        &&& self.min_order_amount is None
        &&& self.stackable is None
        &&& self.valid_from is None
        &&& self.valid_to is None
        &&& self.is_active is None
    }
}

impl Default for PromoBundleBuilder {
    fn default() -> (r: PromoBundleBuilder)
        ensures
            r.is_empty(),
    {
        PromoBundleBuilder {
            company_id: None,
            title: None,
            priority: None,
            match_type: None,
            required_distinct: None,
            reward: None,
            discount_percentage: None,
            discount_amount: None,
            currency: None,
            min_order_amount: None,
            stackable: None,
            valid_from: None,
            valid_to: None,
            is_active: None,
        }
    }
}

impl PromoBundleBuilder {
    pub fn company_id(self, value: u128) -> (r: Self)
        ensures
            r == (PromoBundleBuilder { company_id: Some(value), ..self }),
    {
        PromoBundleBuilder { company_id: Some(value), ..self }
    }

    pub fn title(self, value: String) -> (r: Self)
        ensures
            r == (PromoBundleBuilder { title: Some(value), ..self }),
    {
        PromoBundleBuilder { title: Some(value), ..self }
    }

    pub fn priority(self, value: i32) -> (r: Self)
        ensures
            r == (PromoBundleBuilder { priority: Some(value), ..self }),
    {
        PromoBundleBuilder { priority: Some(value), ..self }
    }

    pub fn match_type(self, value: BundleMatch) -> (r: Self)
        ensures
            r == (PromoBundleBuilder { match_type: Some(value), ..self }),
    {
        PromoBundleBuilder { match_type: Some(value), ..self }
    }

    pub fn required_distinct(self, value: i32) -> (r: Self)
        ensures
            r == (PromoBundleBuilder { required_distinct: Some(value), ..self }),
    {
        PromoBundleBuilder { required_distinct: Some(value), ..self }
    }

    pub fn reward(self, value: RateOrDiscount) -> (r: Self)
        ensures
            r == (PromoBundleBuilder { reward: Some(value), ..self }),
    {
        PromoBundleBuilder { reward: Some(value), ..self }
    }

    pub fn discount_percentage(self, value: Dec) -> (r: Self)
        ensures
            r == (PromoBundleBuilder { discount_percentage: Some(value), ..self }),
    {
        PromoBundleBuilder { discount_percentage: Some(value), ..self }
    }

    pub fn discount_amount(self, value: Dec) -> (r: Self)
        ensures
            r == (PromoBundleBuilder { discount_amount: Some(value), ..self }),
    {
        PromoBundleBuilder { discount_amount: Some(value), ..self }
    }

    pub fn currency(self, value: String) -> (r: Self)
        ensures
            r == (PromoBundleBuilder { currency: Some(value), ..self }),
    {
        PromoBundleBuilder { currency: Some(value), ..self }
    }

    pub fn min_order_amount(self, value: Dec) -> (r: Self)
        ensures
            r == (PromoBundleBuilder { min_order_amount: Some(value), ..self }),
    {
        PromoBundleBuilder { min_order_amount: Some(value), ..self }
    }

    pub fn stackable(self, value: bool) -> (r: Self)
        ensures
            r == (PromoBundleBuilder { stackable: Some(value), ..self }),
    {
        PromoBundleBuilder { stackable: Some(value), ..self }
    }

    pub fn valid_from(self, value: BackboneTimestamp) -> (r: Self)
        ensures
            r == (PromoBundleBuilder { valid_from: Some(value), ..self }),
    {
        PromoBundleBuilder { valid_from: Some(value), ..self }
    }

    pub fn valid_to(self, value: BackboneTimestamp) -> (r: Self)
        ensures
            r == (PromoBundleBuilder { valid_to: Some(value), ..self }),
    {
        PromoBundleBuilder { valid_to: Some(value), ..self }
    }

    pub fn is_active(self, value: bool) -> (r: Self)
        ensures
            r == (PromoBundleBuilder { is_active: Some(value), ..self }),
    {
        PromoBundleBuilder { is_active: Some(value), ..self }
    }

    /// The record, with a fresh id and no audit trail. The first missing required field (in the
    /// order `company_id`, `title`, `valid_from`) is refused as `"<field> is required"`; an unset
    /// defaulted field takes its default.
    pub fn build(self) -> (r: Result<PromoBundle, String>)
        ensures
            self.company_id is None ==> (r matches Err(e) && e@ == "company_id is required"@),
            self.company_id is Some && self.title is None ==> (r matches Err(e) && e@ == "title is required"@),
            self.company_id is Some && self.title is Some && self.valid_from is None ==> (r matches Err(e) && e@ == "valid_from is required"@),
            (self.company_id is Some && self.title is Some && self.valid_from is Some) ==> (r matches Ok(x) && {
                &&& x.company_id == self.company_id.unwrap()
                &&& x.title == self.title.unwrap()
                &&& (self.priority is Some ==> x.priority == self.priority.unwrap())
                &&& (self.priority is None ==> x.priority == 0)
                &&& (self.match_type is Some ==> x.match_type == self.match_type.unwrap())
                &&& (self.match_type is None ==> x.match_type == BundleMatch::AllOf)
                &&& x.required_distinct == self.required_distinct
                &&& (self.reward is Some ==> x.reward == self.reward.unwrap())
                &&& (self.reward is None ==> x.reward == RateOrDiscount::DiscountPercentage)
                &&& x.discount_percentage == self.discount_percentage
                &&& x.discount_amount == self.discount_amount
                &&& (self.currency is Some ==> x.currency == self.currency.unwrap())
                &&& (self.currency is None ==> x.currency@ == "IDR"@)
                &&& (self.min_order_amount is Some ==> x.min_order_amount == self.min_order_amount.unwrap())
                &&& (self.min_order_amount is None ==> x.min_order_amount.units() == 0 && x.min_order_amount.scale == 0)
                &&& (self.stackable is Some ==> x.stackable == self.stackable.unwrap())
                &&& (self.stackable is None ==> x.stackable == false)
                &&& x.valid_from == self.valid_from.unwrap()
                &&& x.valid_to == self.valid_to
                &&& (self.is_active is Some ==> x.is_active == self.is_active.unwrap())
                &&& (self.is_active is None ==> x.is_active == true)
                &&& x.metadata == AuditMetadata::blank()
            }),
    {
        let company_id = match self.company_id {
            Some(v) => v,
            None => return Err(String::from_str("company_id is required")),
        };
        let title = match self.title {
            Some(v) => v,
            None => return Err(String::from_str("title is required")),
        };
        let valid_from = match self.valid_from {
            Some(v) => v,
            None => return Err(String::from_str("valid_from is required")),
        };
        Ok(
            PromoBundle {
                id: new_record_id(),
                company_id,
                title,
                priority: match self.priority {
                    Some(v) => v,
                    None => 0,
                },
                match_type: match self.match_type {
                    Some(v) => v,
                    None => BundleMatch::default(),
                },
                required_distinct: self.required_distinct,
                reward: match self.reward {
                    Some(v) => v,
                    None => RateOrDiscount::default(),
                },
                discount_percentage: self.discount_percentage,
                discount_amount: self.discount_amount,
                currency: match self.currency {
                    Some(v) => v,
                    None => String::from_str("IDR"),
                },
                min_order_amount: match self.min_order_amount {
                    Some(v) => v,
                    None => Dec::from_int(0),
                },
                stackable: match self.stackable {
                    Some(v) => v,
                    None => false,
                },
                valid_from,
                valid_to: self.valid_to,
                is_active: match self.is_active {
                    Some(v) => v,
                    None => true,
                },
                metadata: AuditMetadata::default(),
            },
        )
    }
}

} // verus!
