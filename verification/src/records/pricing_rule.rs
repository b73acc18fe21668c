//! A pricing rule: the stored record, its typed id, and its builder.

use vstd::prelude::*;
use crate::decimal::Dec;
use crate::timestamp::BackboneTimestamp;
use crate::entity_kinds::{ApplyOn, RateOrDiscount, RuleScope};
use crate::records::{AuditMetadata, new_record_id};

verus! {

/// The typed id of a PricingRule record.
#[derive(Debug, Clone, Copy, PartialEq, Eq, Hash, Structural)]
pub struct PricingRuleId(pub u128);

impl PricingRuleId {
    pub fn new(id: u128) -> (r: Self)
        ensures
            r.0 == id,
    {
        PricingRuleId(id)
    }

    /// A fresh random id.
    pub fn generate() -> (r: Self) {
        PricingRuleId(new_record_id())
    }

    pub fn into_inner(self) -> (r: u128)
        ensures
            r == self.0,
    {
        self.0
    }
}

/// A stored PricingRule record.
#[derive(Debug, Clone)]
pub struct PricingRule {
    pub id: u128,
    pub company_id: u128,
    pub title: String,
    pub priority: i32,
    pub scope: RuleScope,
    pub min_order_amount: Dec,
    pub stackable: bool,
    pub apply_on: ApplyOn,
    pub item_id: Option<u128>,
    pub item_group_id: Option<u128>,
    pub brand_id: Option<u128>,
    pub customer_id: Option<u128>,
    pub customer_group_id: Option<u128>,
    pub min_qty: Dec,
    pub max_qty: Option<Dec>,
    pub min_amount: Dec,
    pub rate_or_discount: RateOrDiscount,
    pub rate: Option<Dec>,
    pub discount_percentage: Option<Dec>,
    pub discount_amount: Option<Dec>,
    pub currency: String,
    pub valid_from: BackboneTimestamp,
    pub valid_to: Option<BackboneTimestamp>,
    pub coupon_required: bool,
    pub is_active: bool,
    pub metadata: AuditMetadata,
}

impl PricingRule {
    /// An empty builder.
    pub fn builder() -> (r: PricingRuleBuilder)
        ensures
            r.is_empty(),
    {
        PricingRuleBuilder::default()
    }

    /// A record with the required fields, a fresh id and no audit trail.
    pub fn new(company_id: u128, title: String, priority: i32, scope: RuleScope, min_order_amount: Dec, stackable: bool, apply_on: ApplyOn, min_qty: Dec, min_amount: Dec, rate_or_discount: RateOrDiscount, currency: String, valid_from: BackboneTimestamp, coupon_required: bool, is_active: bool) -> (r: Self)
        ensures
            r.company_id == company_id,
            r.title == title,
            r.priority == priority,
            r.scope == scope,
            r.min_order_amount == min_order_amount,
            r.stackable == stackable,
            r.apply_on == apply_on,
            r.min_qty == min_qty,
            r.min_amount == min_amount,
            r.rate_or_discount == rate_or_discount,
            r.currency == currency,
            r.valid_from == valid_from,
            r.coupon_required == coupon_required,
            r.is_active == is_active,
            r.item_id is None,
            r.item_group_id is None,
            r.brand_id is None,
            r.customer_id is None,
            r.customer_group_id is None,
            r.max_qty is None,
            r.rate is None,
            r.discount_percentage is None,
            r.discount_amount is None,
            r.valid_to is None,
            r.metadata == AuditMetadata::blank(),
    {
        PricingRule {
            id: new_record_id(),
            company_id,
            title,
            priority,
            scope,
            min_order_amount,
            stackable,
            apply_on,
            item_id: None,
            item_group_id: None,
            brand_id: None,
            customer_id: None,
            customer_group_id: None,
            min_qty,
            max_qty: None,
            min_amount,
            rate_or_discount,
            rate: None,
            discount_percentage: None,
            discount_amount: None,
            currency,
            valid_from,
            valid_to: None,
            coupon_required,
            is_active,
            metadata: AuditMetadata::default(),
        }
    }

    pub fn id(&self) -> (r: &u128)
        ensures
            *r == self.id,
    {
        &self.id
    }

    pub fn typed_id(&self) -> (r: PricingRuleId)
        ensures
            r.0 == self.id,
    {
        PricingRuleId(self.id)
    }

    pub fn created_at(&self) -> (r: Option<&BackboneTimestamp>)
        ensures
            r is Some <==> self.metadata.created_at is Some,
            r is Some ==> *r.unwrap() == self.metadata.created_at.unwrap(),
    {
        self.metadata.created_at.as_ref()
    }

    pub fn updated_at(&self) -> (r: Option<&BackboneTimestamp>)
        ensures
            r is Some <==> self.metadata.updated_at is Some,
            r is Some ==> *r.unwrap() == self.metadata.updated_at.unwrap(),
    {
        self.metadata.updated_at.as_ref()
    }

    pub fn deleted_at(&self) -> (r: Option<&BackboneTimestamp>)
        ensures
            r is Some <==> self.metadata.deleted_at is Some,
            r is Some ==> *r.unwrap() == self.metadata.deleted_at.unwrap(),
    {
        self.metadata.deleted_at.as_ref()
    }

    pub fn created_by(&self) -> (r: Option<&u128>)
        ensures
            r is Some <==> self.metadata.created_by is Some,
            r is Some ==> *r.unwrap() == self.metadata.created_by.unwrap(),
    {
        self.metadata.created_by.as_ref()
    }

    pub fn updated_by(&self) -> (r: Option<&u128>)
        ensures
            r is Some <==> self.metadata.updated_by is Some,
            r is Some ==> *r.unwrap() == self.metadata.updated_by.unwrap(),
    {
        self.metadata.updated_by.as_ref()
    }

    pub fn deleted_by(&self) -> (r: Option<&u128>)
        ensures
            r is Some <==> self.metadata.deleted_by is Some,
            r is Some ==> *r.unwrap() == self.metadata.deleted_by.unwrap(),
    {
        self.metadata.deleted_by.as_ref()
    }

    /// Soft-deleted: a deletion instant is recorded.
    pub fn is_deleted(&self) -> (r: bool)
        ensures
            r == self.metadata.deleted_at is Some,
    {
        self.metadata.deleted_at.is_some()
    }

    /// Not soft-deleted.
    pub fn is_active(&self) -> (r: bool)
        ensures
            r == self.metadata.deleted_at is None,
    {
        self.metadata.deleted_at.is_none()
    }

    pub fn with_item_id(self, value: u128) -> (r: Self)
        ensures
            r == (PricingRule { item_id: Some(value), ..self }),
    {
        PricingRule { item_id: Some(value), ..self }
    }

    pub fn with_item_group_id(self, value: u128) -> (r: Self)
        ensures
            r == (PricingRule { item_group_id: Some(value), ..self }),
    {
        PricingRule { item_group_id: Some(value), ..self }
    }

    pub fn with_brand_id(self, value: u128) -> (r: Self)
        ensures
            r == (PricingRule { brand_id: Some(value), ..self }),
    {
        PricingRule { brand_id: Some(value), ..self }
    }

    pub fn with_customer_id(self, value: u128) -> (r: Self)
        ensures
            r == (PricingRule { customer_id: Some(value), ..self }),
    {
        PricingRule { customer_id: Some(value), ..self }
    }

    pub fn with_customer_group_id(self, value: u128) -> (r: Self)
        ensures
            r == (PricingRule { customer_group_id: Some(value), ..self }),
    {
        PricingRule { customer_group_id: Some(value), ..self }
    }

    pub fn with_max_qty(self, value: Dec) -> (r: Self)
        ensures
            r == (PricingRule { max_qty: Some(value), ..self }),
    {
        PricingRule { max_qty: Some(value), ..self }
    }

    pub fn with_rate(self, value: Dec) -> (r: Self)
        ensures
            r == (PricingRule { rate: Some(value), ..self }),
    {
        PricingRule { rate: Some(value), ..self }
    }

    pub fn with_discount_percentage(self, value: Dec) -> (r: Self)
        ensures
            r == (PricingRule { discount_percentage: Some(value), ..self }),
    {
        PricingRule { discount_percentage: Some(value), ..self }
    }

    pub fn with_discount_amount(self, value: Dec) -> (r: Self)
        ensures
            r == (PricingRule { discount_amount: Some(value), ..self }),
    {
        PricingRule { discount_amount: Some(value), ..self }
    }

    pub fn with_valid_to(self, value: BackboneTimestamp) -> (r: Self)
        ensures
            r == (PricingRule { valid_to: Some(value), ..self }),
    {
        PricingRule { valid_to: Some(value), ..self }
    }
}

/// Builds a PricingRule field by field; `build` refuses a missing required field.
#[derive(Debug, Clone)]
pub struct PricingRuleBuilder {
    pub company_id: Option<u128>,
    pub title: Option<String>,
    pub priority: Option<i32>,
    pub scope: Option<RuleScope>,
    pub min_order_amount: Option<Dec>,
    pub stackable: Option<bool>,
    pub apply_on: Option<ApplyOn>,
    pub item_id: Option<u128>,
    pub item_group_id: Option<u128>,
    pub brand_id: Option<u128>,
    pub customer_id: Option<u128>,
    pub customer_group_id: Option<u128>,
    pub min_qty: Option<Dec>,
    pub max_qty: Option<Dec>,
    pub min_amount: Option<Dec>,
    pub rate_or_discount: Option<RateOrDiscount>,
    pub rate: Option<Dec>,
    pub discount_percentage: Option<Dec>,
    pub discount_amount: Option<Dec>,
    pub currency: Option<String>,
    pub valid_from: Option<BackboneTimestamp>,
    pub valid_to: Option<BackboneTimestamp>,
    pub coupon_required: Option<bool>,
    pub is_active: Option<bool>,
}

impl PricingRuleBuilder {
    /// No field is set.
    pub open spec fn is_empty(&self) -> bool {
        &&& self.company_id is None
        &&& self.title is None
        &&& self.priority is None
        &&& self.scope is None
        &&& self.min_order_amount is None
        &&& self.stackable is None
        &&& self.apply_on is None
        &&& self.item_id is None
        &&& self.item_group_id is None
        &&& self.brand_id is None
        &&& self.customer_id is None
        &&& self.customer_group_id is None
        &&& self.min_qty is None
        &&& self.max_qty is None
        &&& self.min_amount is None
        &&& self.rate_or_discount is None
        &&& self.rate is None
        &&& self.discount_percentage is None
        &&& self.discount_amount is None
        &&& self.currency is None
        &&& self.valid_from is None
        &&& self.valid_to is None
        &&& self.coupon_required is None
        &&& self.is_active is None
    }
}

impl Default for PricingRuleBuilder {
    fn default() -> (r: PricingRuleBuilder)
        ensures
            r.is_empty(),
    {
        PricingRuleBuilder {
            company_id: None,
            title: None,
            priority: None,
            scope: None,
            min_order_amount: None,
            stackable: None,
            apply_on: None,
            item_id: None,
            item_group_id: None,
            brand_id: None,
            customer_id: None,
            customer_group_id: None,
            min_qty: None,
            max_qty: None,
            min_amount: None,
            rate_or_discount: None,
            rate: None,
            discount_percentage: None,
            discount_amount: None,
            currency: None,
            valid_from: None,
            valid_to: None,
            coupon_required: None,
            is_active: None,
        }
    }
}

impl PricingRuleBuilder {
    pub fn company_id(self, value: u128) -> (r: Self)
        ensures
            r == (PricingRuleBuilder { company_id: Some(value), ..self }),
    {
        PricingRuleBuilder { company_id: Some(value), ..self }
    }

    pub fn title(self, value: String) -> (r: Self)
        ensures
            r == (PricingRuleBuilder { title: Some(value), ..self }),
    {
        PricingRuleBuilder { title: Some(value), ..self }
    }

    pub fn priority(self, value: i32) -> (r: Self)
        ensures
            r == (PricingRuleBuilder { priority: Some(value), ..self }),
    {
        PricingRuleBuilder { priority: Some(value), ..self }
    }

    pub fn scope(self, value: RuleScope) -> (r: Self)
        ensures
            r == (PricingRuleBuilder { scope: Some(value), ..self }),
    {
        PricingRuleBuilder { scope: Some(value), ..self }
    }

    pub fn min_order_amount(self, value: Dec) -> (r: Self)
        ensures
            r == (PricingRuleBuilder { min_order_amount: Some(value), ..self }),
    {
        PricingRuleBuilder { min_order_amount: Some(value), ..self }
    }

    pub fn stackable(self, value: bool) -> (r: Self)
        ensures
            r == (PricingRuleBuilder { stackable: Some(value), ..self }),
    {
        PricingRuleBuilder { stackable: Some(value), ..self }
    }

    pub fn apply_on(self, value: ApplyOn) -> (r: Self)
        ensures
            r == (PricingRuleBuilder { apply_on: Some(value), ..self }),
    {
        PricingRuleBuilder { apply_on: Some(value), ..self }
    }

    pub fn item_id(self, value: u128) -> (r: Self)
        ensures
            r == (PricingRuleBuilder { item_id: Some(value), ..self }),
    {
        PricingRuleBuilder { item_id: Some(value), ..self }
    }

    pub fn item_group_id(self, value: u128) -> (r: Self)
        ensures
            r == (PricingRuleBuilder { item_group_id: Some(value), ..self }),
    {
        PricingRuleBuilder { item_group_id: Some(value), ..self }
    }

    pub fn brand_id(self, value: u128) -> (r: Self)
        ensures
            r == (PricingRuleBuilder { brand_id: Some(value), ..self }),
    {
        PricingRuleBuilder { brand_id: Some(value), ..self }
    }

    pub fn customer_id(self, value: u128) -> (r: Self)
        ensures
            r == (PricingRuleBuilder { customer_id: Some(value), ..self }),
    {
        PricingRuleBuilder { customer_id: Some(value), ..self }
    }

    pub fn customer_group_id(self, value: u128) -> (r: Self)
        ensures
            r == (PricingRuleBuilder { customer_group_id: Some(value), ..self }),
    {
        PricingRuleBuilder { customer_group_id: Some(value), ..self }
    }

    pub fn min_qty(self, value: Dec) -> (r: Self)
        ensures
            r == (PricingRuleBuilder { min_qty: Some(value), ..self }),
    {
        PricingRuleBuilder { min_qty: Some(value), ..self }
    }

    pub fn max_qty(self, value: Dec) -> (r: Self)
        ensures
            r == (PricingRuleBuilder { max_qty: Some(value), ..self }),
    {
        PricingRuleBuilder { max_qty: Some(value), ..self }
    }

    pub fn min_amount(self, value: Dec) -> (r: Self)
        ensures
            r == (PricingRuleBuilder { min_amount: Some(value), ..self }),
    {
        PricingRuleBuilder { min_amount: Some(value), ..self }
    }

    pub fn rate_or_discount(self, value: RateOrDiscount) -> (r: Self)
        ensures
            r == (PricingRuleBuilder { rate_or_discount: Some(value), ..self }),
    {
        PricingRuleBuilder { rate_or_discount: Some(value), ..self }
    }

    pub fn rate(self, value: Dec) -> (r: Self)
        ensures
            r == (PricingRuleBuilder { rate: Some(value), ..self }),
    {
        PricingRuleBuilder { rate: Some(value), ..self }
    }

    pub fn discount_percentage(self, value: Dec) -> (r: Self)
        ensures
            r == (PricingRuleBuilder { discount_percentage: Some(value), ..self }),
    {
        PricingRuleBuilder { discount_percentage: Some(value), ..self }
    }

    pub fn discount_amount(self, value: Dec) -> (r: Self)
        ensures
            r == (PricingRuleBuilder { discount_amount: Some(value), ..self }),
    {
        PricingRuleBuilder { discount_amount: Some(value), ..self }
    }

    pub fn currency(self, value: String) -> (r: Self)
        ensures
            r == (PricingRuleBuilder { currency: Some(value), ..self }),
    {
        PricingRuleBuilder { currency: Some(value), ..self }
    }

    pub fn valid_from(self, value: BackboneTimestamp) -> (r: Self)
        ensures
            r == (PricingRuleBuilder { valid_from: Some(value), ..self }),
    {
        PricingRuleBuilder { valid_from: Some(value), ..self }
    }

    pub fn valid_to(self, value: BackboneTimestamp) -> (r: Self)
        ensures
            r == (PricingRuleBuilder { valid_to: Some(value), ..self }),
    {
        PricingRuleBuilder { valid_to: Some(value), ..self }
    }

    pub fn coupon_required(self, value: bool) -> (r: Self)
        ensures
            r == (PricingRuleBuilder { coupon_required: Some(value), ..self }),
    {
        PricingRuleBuilder { coupon_required: Some(value), ..self }
    }

    pub fn is_active(self, value: bool) -> (r: Self)
        ensures
            r == (PricingRuleBuilder { is_active: Some(value), ..self }),
    {
        PricingRuleBuilder { is_active: Some(value), ..self }
    }

    /// The record, with a fresh id and no audit trail. The first missing required field (in the
    /// order `company_id`, `title`, `valid_from`) is refused as `"<field> is required"`; an unset
    /// defaulted field takes its default.
    pub fn build(self) -> (r: Result<PricingRule, String>)
        ensures
            self.company_id is None ==> (r matches Err(e) && e@ == "company_id is required"@),
            self.company_id is Some && self.title is None ==> (r matches Err(e) && e@ == "title is required"@),
            self.company_id is Some && self.title is Some && self.valid_from is None ==> (r matches Err(e) && e@ == "valid_from is required"@),
            (self.company_id is Some && self.title is Some && self.valid_from is Some) ==> (r matches Ok(x) && {
                &&& x.company_id == self.company_id.unwrap()
                &&& x.title == self.title.unwrap()
                &&& (self.priority is Some ==> x.priority == self.priority.unwrap())
                &&& (self.priority is None ==> x.priority == 0)
                &&& (self.scope is Some ==> x.scope == self.scope.unwrap())
                &&& (self.scope is None ==> x.scope == RuleScope::Line)
                &&& (self.min_order_amount is Some ==> x.min_order_amount == self.min_order_amount.unwrap())
                &&& (self.min_order_amount is None ==> x.min_order_amount.units() == 0 && x.min_order_amount.scale == 0)
                &&& (self.stackable is Some ==> x.stackable == self.stackable.unwrap())
                &&& (self.stackable is None ==> x.stackable == false)
                &&& (self.apply_on is Some ==> x.apply_on == self.apply_on.unwrap())
                &&& (self.apply_on is None ==> x.apply_on == ApplyOn::Item)
                &&& x.item_id == self.item_id
                &&& x.item_group_id == self.item_group_id
                &&& x.brand_id == self.brand_id
                &&& x.customer_id == self.customer_id
                &&& x.customer_group_id == self.customer_group_id
                &&& (self.min_qty is Some ==> x.min_qty == self.min_qty.unwrap())
                &&& (self.min_qty is None ==> x.min_qty.units() == 0 && x.min_qty.scale == 0)
                &&& x.max_qty == self.max_qty
                &&& (self.min_amount is Some ==> x.min_amount == self.min_amount.unwrap())
                &&& (self.min_amount is None ==> x.min_amount.units() == 0 && x.min_amount.scale == 0)
                &&& (self.rate_or_discount is Some ==> x.rate_or_discount == self.rate_or_discount.unwrap())
                &&& (self.rate_or_discount is None ==> x.rate_or_discount == RateOrDiscount::DiscountPercentage)
                &&& x.rate == self.rate
                &&& x.discount_percentage == self.discount_percentage
                &&& x.discount_amount == self.discount_amount
                &&& (self.currency is Some ==> x.currency == self.currency.unwrap())
                &&& (self.currency is None ==> x.currency@ == "IDR"@)
                &&& x.valid_from == self.valid_from.unwrap()
                &&& x.valid_to == self.valid_to
                &&& (self.coupon_required is Some ==> x.coupon_required == self.coupon_required.unwrap())
                &&& (self.coupon_required is None ==> x.coupon_required == false)
                &&& (self.is_active is Some ==> x.is_active == self.is_active.unwrap())
                &&& (self.is_active is None ==> x.is_active == true)
                &&& x.metadata == AuditMetadata::blank()
            }),
    {
        let company_id = match self.company_id {
            Some(v) => v,
            None => return Err(String::from_str("company_id is required")),
        };
        let title = match self.title {
            Some(v) => v,
            None => return Err(String::from_str("title is required")),
        };
        let valid_from = match self.valid_from {
            Some(v) => v,
            None => return Err(String::from_str("valid_from is required")),
        };
        Ok(
            PricingRule {
                id: new_record_id(),
                company_id,
                title,
                priority: match self.priority {
                    Some(v) => v,
                    None => 0,
                },
                scope: match self.scope {
                    Some(v) => v,
                    None => RuleScope::default(),
                },
                min_order_amount: match self.min_order_amount {
                    Some(v) => v,
                    None => Dec::from_int(0),
                },
                stackable: match self.stackable {
                    Some(v) => v,
                    None => false,
                },
                apply_on: match self.apply_on {
                    Some(v) => v,
                    None => ApplyOn::default(),
                },
                item_id: self.item_id,
                item_group_id: self.item_group_id,
                brand_id: self.brand_id,
                customer_id: self.customer_id,
                customer_group_id: self.customer_group_id,
                min_qty: match self.min_qty {
                    Some(v) => v,
                    None => Dec::from_int(0),
                },
                max_qty: self.max_qty,
                min_amount: match self.min_amount {
                    Some(v) => v,
                    None => Dec::from_int(0),
                },
                rate_or_discount: match self.rate_or_discount {
                    Some(v) => v,
                    None => RateOrDiscount::default(),
                },
                rate: self.rate,
                discount_percentage: self.discount_percentage,
                discount_amount: self.discount_amount,
                currency: match self.currency {
                    Some(v) => v,
                    None => String::from_str("IDR"),
                },
                valid_from,
                valid_to: self.valid_to,
                coupon_required: match self.coupon_required {
                    Some(v) => v,
                    None => false,
                },
                is_active: match self.is_active {
                    Some(v) => v,
                    None => true,
                },
                metadata: AuditMetadata::default(),
            },
        )
    }
}

} // verus!
