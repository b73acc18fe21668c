//! A provider's promotion: the stored record, its typed id, and its builder.

use vstd::prelude::*;
use crate::decimal::Dec;
use crate::timestamp::BackboneTimestamp;
use crate::entity_kinds::{PromoEligibility, PromoType};
use crate::records::{AuditMetadata, empty_json_array, new_record_id};

verus! {

/// The typed id of a ProviderPromo record.
#[derive(Debug, Clone, Copy, PartialEq, Eq, Hash, Structural)]
pub struct ProviderPromoId(pub u128);

impl ProviderPromoId {
    pub fn new(id: u128) -> (r: Self)
        ensures
            r.0 == id,
    {
        ProviderPromoId(id)
    }

    /// A fresh random id.
    pub fn generate() -> (r: Self) {
        ProviderPromoId(new_record_id())
    }

    pub fn into_inner(self) -> (r: u128)
        ensures
            r == self.0,
    {
        self.0
    }
}

/// A stored ProviderPromo record.
#[derive(Debug, Clone)]
pub struct ProviderPromo {
    pub id: u128,
    pub provider_id: u128,
    pub outlet_id: Option<u128>,
    pub promo_name: String,
    pub promo_code: Option<String>,
    pub description: Option<String>,
    pub promo_type: PromoType,
    pub discount_value: Dec,
    pub max_discount: Option<Dec>,
    pub currency: String,
    pub min_order_amount: Option<Dec>,
    pub min_weight_kg: Option<Dec>,
    pub applicable_services: serde_json::Value,
    pub applicable_categories: serde_json::Value,
    pub valid_from: BackboneTimestamp,
    pub valid_until: BackboneTimestamp,
    pub usage_limit: Option<i32>,
    pub usage_limit_per_customer: Option<i32>,
    pub usage_count: i32,
    pub eligible_customers: PromoEligibility,
    pub eligible_tiers: serde_json::Value,
    pub is_active: bool,
    pub is_public: bool,
    pub is_stackable: bool,
    pub banner_url: Option<String>,
    pub terms_conditions: Option<String>,
    pub metadata: AuditMetadata,
}

impl ProviderPromo {
    /// An empty builder.
    pub fn builder() -> (r: ProviderPromoBuilder)
        ensures
            r.is_empty(),
    {
        ProviderPromoBuilder::default()
    }

    /// A record with the required fields, a fresh id and no audit trail.
    pub fn new(provider_id: u128, promo_name: String, promo_type: PromoType, discount_value: Dec, currency: String, applicable_services: serde_json::Value, applicable_categories: serde_json::Value, valid_from: BackboneTimestamp, valid_until: BackboneTimestamp, usage_count: i32, eligible_customers: PromoEligibility, eligible_tiers: serde_json::Value, is_active: bool, is_public: bool, is_stackable: bool) -> (r: Self)
        ensures
            r.provider_id == provider_id,
            r.promo_name == promo_name,
            r.promo_type == promo_type,
            r.discount_value == discount_value,
            r.currency == currency,
            r.applicable_services == applicable_services,
            r.applicable_categories == applicable_categories,
            r.valid_from == valid_from,
            r.valid_until == valid_until,
            r.usage_count == usage_count,
            r.eligible_customers == eligible_customers,
            r.eligible_tiers == eligible_tiers,
            r.is_active == is_active,
            r.is_public == is_public,
            r.is_stackable == is_stackable,
            r.outlet_id is None,
            r.promo_code is None,
            r.description is None,
            r.max_discount is None,
            r.min_order_amount is None,
            r.min_weight_kg is None,
            r.usage_limit is None,
            r.usage_limit_per_customer is None,
            r.banner_url is None,
            r.terms_conditions is None,
            r.metadata == AuditMetadata::blank(),
    {
        ProviderPromo {
            id: new_record_id(),
            provider_id,
            outlet_id: None,
            promo_name,
            promo_code: None,
            description: None,
            promo_type,
            discount_value,
            max_discount: None,
            currency,
            min_order_amount: None,
            min_weight_kg: None,
            applicable_services,
            applicable_categories,
            valid_from,
            valid_until,
            usage_limit: None,
            usage_limit_per_customer: None,
            usage_count,
            eligible_customers,
            eligible_tiers,
            is_active,
            is_public,
            is_stackable,
            banner_url: None,
            terms_conditions: None,
            metadata: AuditMetadata::default(),
        }
    }

    pub fn id(&self) -> (r: &u128)
        ensures
            *r == self.id,
    {
        &self.id
    }

    pub fn typed_id(&self) -> (r: ProviderPromoId)
        ensures
            r.0 == self.id,
    {
        ProviderPromoId(self.id)
    }

    pub fn created_at(&self) -> (r: Option<&BackboneTimestamp>)
        ensures
            r is Some <==> self.metadata.created_at is Some,
            r is Some ==> *r.unwrap() == self.metadata.created_at.unwrap(),
    {
        self.metadata.created_at.as_ref()
    }

    pub fn updated_at(&self) -> (r: Option<&BackboneTimestamp>)
        ensures
            r is Some <==> self.metadata.updated_at is Some,
            r is Some ==> *r.unwrap() == self.metadata.updated_at.unwrap(),
    {
        self.metadata.updated_at.as_ref()
    }

    pub fn deleted_at(&self) -> (r: Option<&BackboneTimestamp>)
        ensures
            r is Some <==> self.metadata.deleted_at is Some,
            r is Some ==> *r.unwrap() == self.metadata.deleted_at.unwrap(),
    {
        self.metadata.deleted_at.as_ref()
    }

    pub fn created_by(&self) -> (r: Option<&u128>)
        ensures
            r is Some <==> self.metadata.created_by is Some,
            r is Some ==> *r.unwrap() == self.metadata.created_by.unwrap(),
    {
        self.metadata.created_by.as_ref()
    }

    pub fn updated_by(&self) -> (r: Option<&u128>)
        ensures
            r is Some <==> self.metadata.updated_by is Some,
            r is Some ==> *r.unwrap() == self.metadata.updated_by.unwrap(),
    {
        self.metadata.updated_by.as_ref()
    }

    pub fn deleted_by(&self) -> (r: Option<&u128>)
        ensures
            r is Some <==> self.metadata.deleted_by is Some,
            r is Some ==> *r.unwrap() == self.metadata.deleted_by.unwrap(),
    {
        self.metadata.deleted_by.as_ref()
    }

    /// Soft-deleted: a deletion instant is recorded.
    pub fn is_deleted(&self) -> (r: bool)
        ensures
            r == self.metadata.deleted_at is Some,
    {
        self.metadata.deleted_at.is_some()
    }

    /// Not soft-deleted.
    pub fn is_active(&self) -> (r: bool)
        ensures
            r == self.metadata.deleted_at is None,
    {
        self.metadata.deleted_at.is_none()
    }

    pub fn with_outlet_id(self, value: u128) -> (r: Self)
        ensures
            r == (ProviderPromo { outlet_id: Some(value), ..self }),
    {
        ProviderPromo { outlet_id: Some(value), ..self }
    }

    pub fn with_promo_code(self, value: String) -> (r: Self)
        ensures
            r == (ProviderPromo { promo_code: Some(value), ..self }),
    {
        ProviderPromo { promo_code: Some(value), ..self }
    }

    pub fn with_description(self, value: String) -> (r: Self)
        ensures
            r == (ProviderPromo { description: Some(value), ..self }),
    {
        ProviderPromo { description: Some(value), ..self }
    }

    pub fn with_max_discount(self, value: Dec) -> (r: Self)
        ensures
            r == (ProviderPromo { max_discount: Some(value), ..self }),
    {
        ProviderPromo { max_discount: Some(value), ..self }
    }

    pub fn with_min_order_amount(self, value: Dec) -> (r: Self)
        ensures
            r == (ProviderPromo { min_order_amount: Some(value), ..self }),
    {
        ProviderPromo { min_order_amount: Some(value), ..self }
    }

    pub fn with_min_weight_kg(self, value: Dec) -> (r: Self)
        ensures
            r == (ProviderPromo { min_weight_kg: Some(value), ..self }),
    {
        ProviderPromo { min_weight_kg: Some(value), ..self }
    }

    pub fn with_usage_limit(self, value: i32) -> (r: Self)
        ensures
            r == (ProviderPromo { usage_limit: Some(value), ..self }),
    {
        ProviderPromo { usage_limit: Some(value), ..self }
    }

    pub fn with_usage_limit_per_customer(self, value: i32) -> (r: Self)
        ensures
            r == (ProviderPromo { usage_limit_per_customer: Some(value), ..self }),
    {
        ProviderPromo { usage_limit_per_customer: Some(value), ..self }
    }

    pub fn with_banner_url(self, value: String) -> (r: Self)
        ensures
            r == (ProviderPromo { banner_url: Some(value), ..self }),
    {
        ProviderPromo { banner_url: Some(value), ..self }
    }

    pub fn with_terms_conditions(self, value: String) -> (r: Self)
        ensures
            r == (ProviderPromo { terms_conditions: Some(value), ..self }),
    {
        ProviderPromo { terms_conditions: Some(value), ..self }
    }
}

/// Builds a ProviderPromo field by field; `build` refuses a missing required field.
#[derive(Debug, Clone)]
pub struct ProviderPromoBuilder {
    pub provider_id: Option<u128>,
    pub outlet_id: Option<u128>,
    pub promo_name: Option<String>,
    pub promo_code: Option<String>,
    pub description: Option<String>,
    pub promo_type: Option<PromoType>,
    pub discount_value: Option<Dec>,
    pub max_discount: Option<Dec>,
    pub currency: Option<String>,
    pub min_order_amount: Option<Dec>,
    pub min_weight_kg: Option<Dec>,
    pub applicable_services: Option<serde_json::Value>,
    pub applicable_categories: Option<serde_json::Value>,
    pub valid_from: Option<BackboneTimestamp>,
    pub valid_until: Option<BackboneTimestamp>,
    pub usage_limit: Option<i32>,
    pub usage_limit_per_customer: Option<i32>,
    pub usage_count: Option<i32>,
    pub eligible_customers: Option<PromoEligibility>,
    pub eligible_tiers: Option<serde_json::Value>,
    pub is_active: Option<bool>,
    pub is_public: Option<bool>,
    pub is_stackable: Option<bool>,
    pub banner_url: Option<String>,
    pub terms_conditions: Option<String>,
}

impl ProviderPromoBuilder {
    /// No field is set.
    pub open spec fn is_empty(&self) -> bool {
        &&& self.provider_id is None
        &&& self.outlet_id is None
        &&& self.promo_name is None
        &&& self.promo_code is None
        &&& self.description is None
        &&& self.promo_type is None
        &&& self.discount_value is None
        &&& self.max_discount is None
        &&& self.currency is None
        &&& self.min_order_amount is None
        &&& self.min_weight_kg is None
        &&& self.applicable_services is None
        &&& self.applicable_categories is None
        &&& self.valid_from is None
        &&& self.valid_until is None
        &&& self.usage_limit is None
        &&& self.usage_limit_per_customer is None
        &&& self.usage_count is None
        &&& self.eligible_customers is None
        &&& self.eligible_tiers is None
        &&& self.is_active is None
        &&& self.is_public is None
        &&& self.is_stackable is None
        &&& self.banner_url is None
        &&& self.terms_conditions is None
    }
}

impl Default for ProviderPromoBuilder {
    fn default() -> (r: ProviderPromoBuilder)
        ensures
            r.is_empty(),
    {
        ProviderPromoBuilder {
            provider_id: None,
            outlet_id: None,
            promo_name: None,
            promo_code: None,
            description: None,
            promo_type: None,
            discount_value: None,
            max_discount: None,
            currency: None,
            min_order_amount: None,
            min_weight_kg: None,
            applicable_services: None,
            applicable_categories: None,
            valid_from: None,
            valid_until: None,
            usage_limit: None,
            usage_limit_per_customer: None,
            usage_count: None,
            eligible_customers: None,
            eligible_tiers: None,
            is_active: None,
            is_public: None,
            is_stackable: None,
            banner_url: None,
            terms_conditions: None,
        }
    }
}

impl ProviderPromoBuilder {
    pub fn provider_id(self, value: u128) -> (r: Self)
        ensures
            r == (ProviderPromoBuilder { provider_id: Some(value), ..self }),
    {
        ProviderPromoBuilder { provider_id: Some(value), ..self }
    }

    pub fn outlet_id(self, value: u128) -> (r: Self)
        ensures
            r == (ProviderPromoBuilder { outlet_id: Some(value), ..self }),
    {
        ProviderPromoBuilder { outlet_id: Some(value), ..self }
    }

    pub fn promo_name(self, value: String) -> (r: Self)
        ensures
            r == (ProviderPromoBuilder { promo_name: Some(value), ..self }),
    {
        ProviderPromoBuilder { promo_name: Some(value), ..self }
    }

    pub fn promo_code(self, value: String) -> (r: Self)
        ensures
            r == (ProviderPromoBuilder { promo_code: Some(value), ..self }),
    {
        ProviderPromoBuilder { promo_code: Some(value), ..self }
    }

    pub fn description(self, value: String) -> (r: Self)
        ensures
            r == (ProviderPromoBuilder { description: Some(value), ..self }),
    {
        ProviderPromoBuilder { description: Some(value), ..self }
    }

    pub fn promo_type(self, value: PromoType) -> (r: Self)
        ensures
            r == (ProviderPromoBuilder { promo_type: Some(value), ..self }),
    {
        ProviderPromoBuilder { promo_type: Some(value), ..self }
    }

    pub fn discount_value(self, value: Dec) -> (r: Self)
        ensures
            r == (ProviderPromoBuilder { discount_value: Some(value), ..self }),
    {
        ProviderPromoBuilder { discount_value: Some(value), ..self }
    }

    pub fn max_discount(self, value: Dec) -> (r: Self)
        ensures
            r == (ProviderPromoBuilder { max_discount: Some(value), ..self }),
    {
        ProviderPromoBuilder { max_discount: Some(value), ..self }
    }

    pub fn currency(self, value: String) -> (r: Self)
        ensures
            r == (ProviderPromoBuilder { currency: Some(value), ..self }),
    {
        ProviderPromoBuilder { currency: Some(value), ..self }
    }

    pub fn min_order_amount(self, value: Dec) -> (r: Self)
        ensures
            r == (ProviderPromoBuilder { min_order_amount: Some(value), ..self }),
    {
        ProviderPromoBuilder { min_order_amount: Some(value), ..self }
    }

    pub fn min_weight_kg(self, value: Dec) -> (r: Self)
        ensures
            r == (ProviderPromoBuilder { min_weight_kg: Some(value), ..self }),
    {
        ProviderPromoBuilder { min_weight_kg: Some(value), ..self }
    }

    pub fn applicable_services(self, value: serde_json::Value) -> (r: Self)
        ensures
            r == (ProviderPromoBuilder { applicable_services: Some(value), ..self }),
    {
        ProviderPromoBuilder { applicable_services: Some(value), ..self }
    }

    pub fn applicable_categories(self, value: serde_json::Value) -> (r: Self)
        ensures
            r == (ProviderPromoBuilder { applicable_categories: Some(value), ..self }),
    {
        ProviderPromoBuilder { applicable_categories: Some(value), ..self }
    }

    pub fn valid_from(self, value: BackboneTimestamp) -> (r: Self)
        ensures
            r == (ProviderPromoBuilder { valid_from: Some(value), ..self }),
    {
        ProviderPromoBuilder { valid_from: Some(value), ..self }
    }

    pub fn valid_until(self, value: BackboneTimestamp) -> (r: Self)
        ensures
            r == (ProviderPromoBuilder { valid_until: Some(value), ..self }),
    {
        ProviderPromoBuilder { valid_until: Some(value), ..self }
    }

    pub fn usage_limit(self, value: i32) -> (r: Self)
        ensures
            r == (ProviderPromoBuilder { usage_limit: Some(value), ..self }),
    {
        ProviderPromoBuilder { usage_limit: Some(value), ..self }
    }

    pub fn usage_limit_per_customer(self, value: i32) -> (r: Self)
        ensures
            r == (ProviderPromoBuilder { usage_limit_per_customer: Some(value), ..self }),
    {
        ProviderPromoBuilder { usage_limit_per_customer: Some(value), ..self }
    }

    pub fn usage_count(self, value: i32) -> (r: Self)
        ensures
            r == (ProviderPromoBuilder { usage_count: Some(value), ..self }),
    {
        ProviderPromoBuilder { usage_count: Some(value), ..self }
    }

    pub fn eligible_customers(self, value: PromoEligibility) -> (r: Self)
        ensures
            r == (ProviderPromoBuilder { eligible_customers: Some(value), ..self }),
    {
        ProviderPromoBuilder { eligible_customers: Some(value), ..self }
    }

    pub fn eligible_tiers(self, value: serde_json::Value) -> (r: Self)
        ensures
            r == (ProviderPromoBuilder { eligible_tiers: Some(value), ..self }),
    {
        ProviderPromoBuilder { eligible_tiers: Some(value), ..self }
    }

    pub fn is_active(self, value: bool) -> (r: Self)
        ensures
            r == (ProviderPromoBuilder { is_active: Some(value), ..self }),
    {
        ProviderPromoBuilder { is_active: Some(value), ..self }
    }

    pub fn is_public(self, value: bool) -> (r: Self)
        ensures
            r == (ProviderPromoBuilder { is_public: Some(value), ..self }),
    {
        ProviderPromoBuilder { is_public: Some(value), ..self }
    }

    pub fn is_stackable(self, value: bool) -> (r: Self)
        ensures
            r == (ProviderPromoBuilder { is_stackable: Some(value), ..self }),
    {
        ProviderPromoBuilder { is_stackable: Some(value), ..self }
    }

    pub fn banner_url(self, value: String) -> (r: Self)
        ensures
            r == (ProviderPromoBuilder { banner_url: Some(value), ..self }),
    {
        ProviderPromoBuilder { banner_url: Some(value), ..self }
    }

    pub fn terms_conditions(self, value: String) -> (r: Self)
        ensures
            r == (ProviderPromoBuilder { terms_conditions: Some(value), ..self }),
    {
        ProviderPromoBuilder { terms_conditions: Some(value), ..self }
    }

    /// The record, with a fresh id and no audit trail. The first missing required field (in the
    /// order `provider_id`, `promo_name`, `discount_value`, `valid_from`, `valid_until`) is refused
    /// as `"<field> is required"`; an unset defaulted field takes its default.
    pub fn build(self) -> (r: Result<ProviderPromo, String>)
        ensures
            self.provider_id is None ==> (r matches Err(e) && e@ == "provider_id is required"@),
            self.provider_id is Some && self.promo_name is None ==> (r matches Err(e) && e@ == "promo_name is required"@),
            self.provider_id is Some && self.promo_name is Some && self.discount_value is None ==> (r matches Err(e) && e@ == "discount_value is required"@),
            self.provider_id is Some && self.promo_name is Some && self.discount_value is Some && self.valid_from is None ==> (r matches Err(e) && e@ == "valid_from is required"@),
            self.provider_id is Some && self.promo_name is Some && self.discount_value is Some && self.valid_from is Some && self.valid_until is None ==> (r matches Err(e) && e@ == "valid_until is required"@),
            (self.provider_id is Some && self.promo_name is Some && self.discount_value is Some && self.valid_from is Some && self.valid_until is Some) ==> (r matches Ok(x) && {
                &&& x.provider_id == self.provider_id.unwrap()
                &&& x.outlet_id == self.outlet_id
                &&& x.promo_name == self.promo_name.unwrap()
                &&& x.promo_code == self.promo_code
                &&& x.description == self.description
                &&& (self.promo_type is Some ==> x.promo_type == self.promo_type.unwrap())
                &&& (self.promo_type is None ==> x.promo_type == PromoType::Percentage)
                &&& x.discount_value == self.discount_value.unwrap()
                &&& x.max_discount == self.max_discount
                &&& (self.currency is Some ==> x.currency == self.currency.unwrap())
                &&& (self.currency is None ==> x.currency@ == "IDR"@)
                &&& x.min_order_amount == self.min_order_amount
                &&& x.min_weight_kg == self.min_weight_kg
                &&& (self.applicable_services is Some ==> x.applicable_services == self.applicable_services.unwrap())
                &&& (self.applicable_categories is Some ==> x.applicable_categories == self.applicable_categories.unwrap())
                &&& x.valid_from == self.valid_from.unwrap()
                &&& x.valid_until == self.valid_until.unwrap()
                &&& x.usage_limit == self.usage_limit
                &&& x.usage_limit_per_customer == self.usage_limit_per_customer
                &&& (self.usage_count is Some ==> x.usage_count == self.usage_count.unwrap())
                &&& (self.usage_count is None ==> x.usage_count == 0)
                &&& (self.eligible_customers is Some ==> x.eligible_customers == self.eligible_customers.unwrap())
                &&& (self.eligible_customers is None ==> x.eligible_customers == PromoEligibility::All)
                &&& (self.eligible_tiers is Some ==> x.eligible_tiers == self.eligible_tiers.unwrap())
                &&& (self.is_active is Some ==> x.is_active == self.is_active.unwrap())
                &&& (self.is_active is None ==> x.is_active == true)
                &&& (self.is_public is Some ==> x.is_public == self.is_public.unwrap())
                &&& (self.is_public is None ==> x.is_public == true)
                &&& (self.is_stackable is Some ==> x.is_stackable == self.is_stackable.unwrap())
                &&& (self.is_stackable is None ==> x.is_stackable == false)
                &&& x.banner_url == self.banner_url
                &&& x.terms_conditions == self.terms_conditions
                &&& x.metadata == AuditMetadata::blank()
            }),
    {
        let provider_id = match self.provider_id {
            Some(v) => v,
            None => return Err(String::from_str("provider_id is required")),
        };
        let promo_name = match self.promo_name {
            Some(v) => v,
            None => return Err(String::from_str("promo_name is required")),
        };
        let discount_value = match self.discount_value {
            Some(v) => v,
            None => return Err(String::from_str("discount_value is required")),
        };
        let valid_from = match self.valid_from {
            Some(v) => v,
            None => return Err(String::from_str("valid_from is required")),
        };
        let valid_until = match self.valid_until {
            Some(v) => v,
            None => return Err(String::from_str("valid_until is required")),
        };
        Ok(
            ProviderPromo {
                id: new_record_id(),
                provider_id,
                outlet_id: self.outlet_id,
                promo_name,
                promo_code: self.promo_code,
                description: self.description,
                promo_type: match self.promo_type {
                    Some(v) => v,
                    None => PromoType::default(),
                },
                discount_value,
                max_discount: self.max_discount,
                currency: match self.currency {
                    Some(v) => v,
                    None => String::from_str("IDR"),
                },
                min_order_amount: self.min_order_amount,
                min_weight_kg: self.min_weight_kg,
                applicable_services: match self.applicable_services {
                    Some(v) => v,
                    None => empty_json_array(),
                },
                applicable_categories: match self.applicable_categories {
                    Some(v) => v,
                    None => empty_json_array(),
                },
                valid_from,
                valid_until,
                usage_limit: self.usage_limit,
                usage_limit_per_customer: self.usage_limit_per_customer,
                usage_count: match self.usage_count {
                    Some(v) => v,
                    None => 0,
                },
                eligible_customers: match self.eligible_customers {
                    Some(v) => v,
                    None => PromoEligibility::default(),
                },
                eligible_tiers: match self.eligible_tiers {
                    Some(v) => v,
                    None => empty_json_array(),
                },
                is_active: match self.is_active {
                    Some(v) => v,
                    None => true,
                },
                is_public: match self.is_public {
                    Some(v) => v,
                    None => true,
                },
                is_stackable: match self.is_stackable {
                    Some(v) => v,
                    None => false,
                },
                banner_url: self.banner_url,
                terms_conditions: self.terms_conditions,
                metadata: AuditMetadata::default(),
            },
        )
    }
}

} // verus!
