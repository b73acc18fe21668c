//! A promotional campaign: the stored record, its typed id, and its builder.

use vstd::prelude::*;
use crate::decimal::{Dec, unit};
use crate::timestamp::BackboneTimestamp;
use crate::entity_kinds::{CampaignFunder, CampaignPromoType, CampaignStatus, CampaignTarget};
use crate::records::{AuditMetadata, empty_json_array, new_record_id};

verus! {

/// The typed id of a PromoCampaign record.
#[derive(Debug, Clone, Copy, PartialEq, Eq, Hash, Structural)]
pub struct PromoCampaignId(pub u128);

impl PromoCampaignId {
    pub fn new(id: u128) -> (r: Self)
        ensures
            r.0 == id,
    {
        PromoCampaignId(id)
    }

    /// A fresh random id.
    pub fn generate() -> (r: Self) {
        PromoCampaignId(new_record_id())
    }

    pub fn into_inner(self) -> (r: u128)
        ensures
            r == self.0,
    {
        self.0
    }
}

/// A stored PromoCampaign record.
#[derive(Debug, Clone)]
pub struct PromoCampaign {
    pub id: u128,
    pub name: String,
    pub code: String,
    pub description: Option<String>,
    pub promo_type: CampaignPromoType,
    pub discount_value: Dec,
    pub max_discount: Option<Dec>,
    pub min_order_value: Option<Dec>,
    pub min_items: Option<i32>,
    pub applicable_services: serde_json::Value,
    pub applicable_providers: serde_json::Value,
    pub applicable_zones: serde_json::Value,
    pub target_audience: CampaignTarget,
    pub target_user_ids: serde_json::Value,
    pub first_order_only: bool,
    pub status: CampaignStatus,
    pub start_at: BackboneTimestamp,
    pub end_at: BackboneTimestamp,
    pub total_budget: Option<Dec>,
    pub budget_used: Dec,
    pub max_redemptions: Option<i32>,
    pub max_per_user: i32,
    pub total_redemptions: i32,
    pub unique_users: i32,
    pub total_discount_given: Dec,
    pub total_order_value: Dec,
    pub funded_by: CampaignFunder,
    pub platform_share: Dec,
    pub display_on_app: bool,
    pub banner_image_url: Option<String>,
    pub terms_and_conditions: Option<String>,
    pub metadata: AuditMetadata,
}

impl PromoCampaign {
    /// An empty builder.
    pub fn builder() -> (r: PromoCampaignBuilder)
        ensures
            r.is_empty(),
    {
        PromoCampaignBuilder::default()
    }

    /// A record with the required fields, a fresh id and no audit trail.
    pub fn new(name: String, code: String, promo_type: CampaignPromoType, discount_value: Dec, applicable_services: serde_json::Value, applicable_providers: serde_json::Value, applicable_zones: serde_json::Value, target_audience: CampaignTarget, target_user_ids: serde_json::Value, first_order_only: bool, status: CampaignStatus, start_at: BackboneTimestamp, end_at: BackboneTimestamp, budget_used: Dec, max_per_user: i32, total_redemptions: i32, unique_users: i32, total_discount_given: Dec, total_order_value: Dec, funded_by: CampaignFunder, platform_share: Dec, display_on_app: bool) -> (r: Self)
        ensures
            r.name == name,
            r.code == code,
            r.promo_type == promo_type,
            r.discount_value == discount_value,
            r.applicable_services == applicable_services,
            r.applicable_providers == applicable_providers,
            r.applicable_zones == applicable_zones,
            r.target_audience == target_audience,
            r.target_user_ids == target_user_ids,
            r.first_order_only == first_order_only,
            r.status == status,
            r.start_at == start_at,
            r.end_at == end_at,
            r.budget_used == budget_used,
            r.max_per_user == max_per_user,
            r.total_redemptions == total_redemptions,
            r.unique_users == unique_users,
            r.total_discount_given == total_discount_given,
            r.total_order_value == total_order_value,
            r.funded_by == funded_by,
            r.platform_share == platform_share,
            r.display_on_app == display_on_app,
            r.description is None,
            r.max_discount is None,
            r.min_order_value is None,
            r.min_items is None,
            r.total_budget is None,
            r.max_redemptions is None,
            r.banner_image_url is None,
            r.terms_and_conditions is None,
            r.metadata == AuditMetadata::blank(),
    {
        PromoCampaign {
            id: new_record_id(),
            name,
            code,
            description: None,
            promo_type,
            discount_value,
            max_discount: None,
            min_order_value: None,
            min_items: None,
            applicable_services,
            applicable_providers,
            applicable_zones,
            target_audience,
            target_user_ids,
            first_order_only,
            status,
            start_at,
            end_at,
            total_budget: None,
            budget_used,
            max_redemptions: None,
            max_per_user,
            total_redemptions,
            unique_users,
            total_discount_given,
            total_order_value,
            funded_by,
            platform_share,
            display_on_app,
            banner_image_url: None,
            terms_and_conditions: None,
            metadata: AuditMetadata::default(),
        }
    }

    pub fn id(&self) -> (r: &u128)
        ensures
            *r == self.id,
    {
        &self.id
    }

    pub fn typed_id(&self) -> (r: PromoCampaignId)
        ensures
            r.0 == self.id,
    {
        PromoCampaignId(self.id)
    }

    pub fn created_at(&self) -> (r: Option<&BackboneTimestamp>)
        ensures
            r is Some <==> self.metadata.created_at is Some,
            r is Some ==> *r.unwrap() == self.metadata.created_at.unwrap(),
    {
        self.metadata.created_at.as_ref()
    }

    pub fn updated_at(&self) -> (r: Option<&BackboneTimestamp>)
        ensures
            r is Some <==> self.metadata.updated_at is Some,
            r is Some ==> *r.unwrap() == self.metadata.updated_at.unwrap(),
    {
        self.metadata.updated_at.as_ref()
    }

    pub fn deleted_at(&self) -> (r: Option<&BackboneTimestamp>)
        ensures
            r is Some <==> self.metadata.deleted_at is Some,
            r is Some ==> *r.unwrap() == self.metadata.deleted_at.unwrap(),
    {
        self.metadata.deleted_at.as_ref()
    }

    pub fn created_by(&self) -> (r: Option<&u128>)
        ensures
            r is Some <==> self.metadata.created_by is Some,
            r is Some ==> *r.unwrap() == self.metadata.created_by.unwrap(),
    {
        self.metadata.created_by.as_ref()
    }

    pub fn updated_by(&self) -> (r: Option<&u128>)
        ensures
            r is Some <==> self.metadata.updated_by is Some,
            r is Some ==> *r.unwrap() == self.metadata.updated_by.unwrap(),
    {
        self.metadata.updated_by.as_ref()
    }

    pub fn deleted_by(&self) -> (r: Option<&u128>)
        ensures
            r is Some <==> self.metadata.deleted_by is Some,
            r is Some ==> *r.unwrap() == self.metadata.deleted_by.unwrap(),
    {
        self.metadata.deleted_by.as_ref()
    }

    /// Soft-deleted: a deletion instant is recorded.
    pub fn is_deleted(&self) -> (r: bool)
        ensures
            r == self.metadata.deleted_at is Some,
    {
        self.metadata.deleted_at.is_some()
    }

    /// Not soft-deleted.
    pub fn is_active(&self) -> (r: bool)
        ensures
            r == self.metadata.deleted_at is None,
    {
        self.metadata.deleted_at.is_none()
    }

    pub fn with_description(self, value: String) -> (r: Self)
        ensures
            r == (PromoCampaign { description: Some(value), ..self }),
    {
        PromoCampaign { description: Some(value), ..self }
    }

    pub fn with_max_discount(self, value: Dec) -> (r: Self)
        ensures
            r == (PromoCampaign { max_discount: Some(value), ..self }),
    {
        PromoCampaign { max_discount: Some(value), ..self }
    }

    pub fn with_min_order_value(self, value: Dec) -> (r: Self)
        ensures
            r == (PromoCampaign { min_order_value: Some(value), ..self }),
    {
        PromoCampaign { min_order_value: Some(value), ..self }
    }

    pub fn with_min_items(self, value: i32) -> (r: Self)
        ensures
            r == (PromoCampaign { min_items: Some(value), ..self }),
    {
        PromoCampaign { min_items: Some(value), ..self }
    }

    pub fn with_total_budget(self, value: Dec) -> (r: Self)
        ensures
            r == (PromoCampaign { total_budget: Some(value), ..self }),
    {
        PromoCampaign { total_budget: Some(value), ..self }
    }

    pub fn with_max_redemptions(self, value: i32) -> (r: Self)
        ensures
            r == (PromoCampaign { max_redemptions: Some(value), ..self }),
    {
        PromoCampaign { max_redemptions: Some(value), ..self }
    }

    pub fn with_banner_image_url(self, value: String) -> (r: Self)
        ensures
            r == (PromoCampaign { banner_image_url: Some(value), ..self }),
    {
        PromoCampaign { banner_image_url: Some(value), ..self }
    }

    pub fn with_terms_and_conditions(self, value: String) -> (r: Self)
        ensures
            r == (PromoCampaign { terms_and_conditions: Some(value), ..self }),
    {
        PromoCampaign { terms_and_conditions: Some(value), ..self }
    }
}

/// Builds a PromoCampaign field by field; `build` refuses a missing required field.
#[derive(Debug, Clone)]
pub struct PromoCampaignBuilder {
    pub name: Option<String>,
    pub code: Option<String>,
    pub description: Option<String>,
    pub promo_type: Option<CampaignPromoType>,
    pub discount_value: Option<Dec>,
    pub max_discount: Option<Dec>,
    pub min_order_value: Option<Dec>,
    pub min_items: Option<i32>,
    pub applicable_services: Option<serde_json::Value>,
    pub applicable_providers: Option<serde_json::Value>,
    pub applicable_zones: Option<serde_json::Value>,
    pub target_audience: Option<CampaignTarget>,
    pub target_user_ids: Option<serde_json::Value>,
    pub first_order_only: Option<bool>,
    pub status: Option<CampaignStatus>,
    pub start_at: Option<BackboneTimestamp>,
    pub end_at: Option<BackboneTimestamp>,
    pub total_budget: Option<Dec>,
    pub budget_used: Option<Dec>,
    pub max_redemptions: Option<i32>,
    pub max_per_user: Option<i32>,
    pub total_redemptions: Option<i32>,
    pub unique_users: Option<i32>,
    pub total_discount_given: Option<Dec>,
    pub total_order_value: Option<Dec>,
    pub funded_by: Option<CampaignFunder>,
    pub platform_share: Option<Dec>,
    pub display_on_app: Option<bool>,
    pub banner_image_url: Option<String>,
    pub terms_and_conditions: Option<String>,
}

impl PromoCampaignBuilder {
    /// No field is set.
    pub open spec fn is_empty(&self) -> bool {
        &&& self.name is None
        &&& self.code is None
        &&& self.description is None
        &&& self.promo_type is None
        &&& self.discount_value is None
        &&& self.max_discount is None
        &&& self.min_order_value is None
        &&& self.min_items is None
        &&& self.applicable_services is None
        &&& self.applicable_providers is None
        &&& self.applicable_zones is None
        &&& self.target_audience is None
        &&& self.target_user_ids is None
        &&& self.first_order_only is None
        &&& self.status is None
        &&& self.start_at is None
        &&& self.end_at is None
        &&& self.total_budget is None
        &&& self.budget_used is None
        &&& self.max_redemptions is None
        &&& self.max_per_user is None
        &&& self.total_redemptions is None
        &&& self.unique_users is None
        &&& self.total_discount_given is None
        &&& self.total_order_value is None
        &&& self.funded_by is None
        &&& self.platform_share is None
        &&& self.display_on_app is None
        &&& self.banner_image_url is None
        &&& self.terms_and_conditions is None
    }
}

impl Default for PromoCampaignBuilder {
    fn default() -> (r: PromoCampaignBuilder)
        ensures
            r.is_empty(),
    {
        PromoCampaignBuilder {
            name: None,
            code: None,
            description: None,
            promo_type: None,
            discount_value: None,
            max_discount: None,
            min_order_value: None,
            min_items: None,
            applicable_services: None,
            applicable_providers: None,
            applicable_zones: None,
            target_audience: None,
            target_user_ids: None,
            first_order_only: None,
            status: None,
            start_at: None,
            end_at: None,
            total_budget: None,
            budget_used: None,
            max_redemptions: None,
            max_per_user: None,
            total_redemptions: None,
            unique_users: None,
            total_discount_given: None,
            total_order_value: None,
            funded_by: None,
            platform_share: None,
            display_on_app: None,
            banner_image_url: None,
            terms_and_conditions: None,
        }
    }
}

impl PromoCampaignBuilder {
    pub fn name(self, value: String) -> (r: Self)
        ensures
            r == (PromoCampaignBuilder { name: Some(value), ..self }),
    {
        PromoCampaignBuilder { name: Some(value), ..self }
    }

    pub fn code(self, value: String) -> (r: Self)
        ensures
            r == (PromoCampaignBuilder { code: Some(value), ..self }),
    {
        PromoCampaignBuilder { code: Some(value), ..self }
    }

    pub fn description(self, value: String) -> (r: Self)
        ensures
            r == (PromoCampaignBuilder { description: Some(value), ..self }),
    {
        PromoCampaignBuilder { description: Some(value), ..self }
    }

    pub fn promo_type(self, value: CampaignPromoType) -> (r: Self)
        ensures
            r == (PromoCampaignBuilder { promo_type: Some(value), ..self }),
    {
        PromoCampaignBuilder { promo_type: Some(value), ..self }
    }

    pub fn discount_value(self, value: Dec) -> (r: Self)
        ensures
            r == (PromoCampaignBuilder { discount_value: Some(value), ..self }),
    {
        PromoCampaignBuilder { discount_value: Some(value), ..self }
    }

    pub fn max_discount(self, value: Dec) -> (r: Self)
        ensures
            r == (PromoCampaignBuilder { max_discount: Some(value), ..self }),
    {
        PromoCampaignBuilder { max_discount: Some(value), ..self }
    }

    pub fn min_order_value(self, value: Dec) -> (r: Self)
        ensures
            r == (PromoCampaignBuilder { min_order_value: Some(value), ..self }),
    {
        PromoCampaignBuilder { min_order_value: Some(value), ..self }
    }

    pub fn min_items(self, value: i32) -> (r: Self)
        ensures
            r == (PromoCampaignBuilder { min_items: Some(value), ..self }),
    {
        PromoCampaignBuilder { min_items: Some(value), ..self }
    }

    pub fn applicable_services(self, value: serde_json::Value) -> (r: Self)
        ensures
            r == (PromoCampaignBuilder { applicable_services: Some(value), ..self }),
    {
        PromoCampaignBuilder { applicable_services: Some(value), ..self }
    }

    pub fn applicable_providers(self, value: serde_json::Value) -> (r: Self)
        ensures
            r == (PromoCampaignBuilder { applicable_providers: Some(value), ..self }),
    {
        PromoCampaignBuilder { applicable_providers: Some(value), ..self }
    }

    pub fn applicable_zones(self, value: serde_json::Value) -> (r: Self)
        ensures
            r == (PromoCampaignBuilder { applicable_zones: Some(value), ..self }),
    {
        PromoCampaignBuilder { applicable_zones: Some(value), ..self }
    }

    pub fn target_audience(self, value: CampaignTarget) -> (r: Self)
        ensures
            r == (PromoCampaignBuilder { target_audience: Some(value), ..self }),
    {
        PromoCampaignBuilder { target_audience: Some(value), ..self }
    }

    pub fn target_user_ids(self, value: serde_json::Value) -> (r: Self)
        ensures
            r == (PromoCampaignBuilder { target_user_ids: Some(value), ..self }),
    {
        PromoCampaignBuilder { target_user_ids: Some(value), ..self }
    }

    pub fn first_order_only(self, value: bool) -> (r: Self)
        ensures
            r == (PromoCampaignBuilder { first_order_only: Some(value), ..self }),
    {
        PromoCampaignBuilder { first_order_only: Some(value), ..self }
    }

    pub fn status(self, value: CampaignStatus) -> (r: Self)
        ensures
            r == (PromoCampaignBuilder { status: Some(value), ..self }),
    {
        PromoCampaignBuilder { status: Some(value), ..self }
    }

    pub fn start_at(self, value: BackboneTimestamp) -> (r: Self)
        ensures
            r == (PromoCampaignBuilder { start_at: Some(value), ..self }),
    {
        PromoCampaignBuilder { start_at: Some(value), ..self }
    }

    pub fn end_at(self, value: BackboneTimestamp) -> (r: Self)
        ensures
            r == (PromoCampaignBuilder { end_at: Some(value), ..self }),
    {
        PromoCampaignBuilder { end_at: Some(value), ..self }
    }

    pub fn total_budget(self, value: Dec) -> (r: Self)
        ensures
            r == (PromoCampaignBuilder { total_budget: Some(value), ..self }),
    {
        PromoCampaignBuilder { total_budget: Some(value), ..self }
    }

    pub fn budget_used(self, value: Dec) -> (r: Self)
        ensures
            r == (PromoCampaignBuilder { budget_used: Some(value), ..self }),
    {
        PromoCampaignBuilder { budget_used: Some(value), ..self }
    }

    pub fn max_redemptions(self, value: i32) -> (r: Self)
        ensures
            r == (PromoCampaignBuilder { max_redemptions: Some(value), ..self }),
    {
        PromoCampaignBuilder { max_redemptions: Some(value), ..self }
    }

    pub fn max_per_user(self, value: i32) -> (r: Self)
        ensures
            r == (PromoCampaignBuilder { max_per_user: Some(value), ..self }),
    {
        PromoCampaignBuilder { max_per_user: Some(value), ..self }
    }

    pub fn total_redemptions(self, value: i32) -> (r: Self)
        ensures
            r == (PromoCampaignBuilder { total_redemptions: Some(value), ..self }),
    {
        PromoCampaignBuilder { total_redemptions: Some(value), ..self }
    }

    pub fn unique_users(self, value: i32) -> (r: Self)
        ensures
            r == (PromoCampaignBuilder { unique_users: Some(value), ..self }),
    {
        PromoCampaignBuilder { unique_users: Some(value), ..self }
    }

    pub fn total_discount_given(self, value: Dec) -> (r: Self)
        ensures
            r == (PromoCampaignBuilder { total_discount_given: Some(value), ..self }),
    {
        PromoCampaignBuilder { total_discount_given: Some(value), ..self }
    }

    pub fn total_order_value(self, value: Dec) -> (r: Self)
        ensures
            r == (PromoCampaignBuilder { total_order_value: Some(value), ..self }),
    {
        PromoCampaignBuilder { total_order_value: Some(value), ..self }
    }

    pub fn funded_by(self, value: CampaignFunder) -> (r: Self)
        ensures
            r == (PromoCampaignBuilder { funded_by: Some(value), ..self }),
    {
        PromoCampaignBuilder { funded_by: Some(value), ..self }
    }

    pub fn platform_share(self, value: Dec) -> (r: Self)
        ensures
            r == (PromoCampaignBuilder { platform_share: Some(value), ..self }),
    {
        PromoCampaignBuilder { platform_share: Some(value), ..self }
    }

    pub fn display_on_app(self, value: bool) -> (r: Self)
        ensures
            r == (PromoCampaignBuilder { display_on_app: Some(value), ..self }),
    {
        PromoCampaignBuilder { display_on_app: Some(value), ..self }
    }

    pub fn banner_image_url(self, value: String) -> (r: Self)
        ensures
            r == (PromoCampaignBuilder { banner_image_url: Some(value), ..self }),
    {
        PromoCampaignBuilder { banner_image_url: Some(value), ..self }
    }

    pub fn terms_and_conditions(self, value: String) -> (r: Self)
        ensures
            r == (PromoCampaignBuilder { terms_and_conditions: Some(value), ..self }),
    {
        PromoCampaignBuilder { terms_and_conditions: Some(value), ..self }
    }

    /// The record, with a fresh id and no audit trail. The first missing required field (in the
    /// order `name`, `code`, `promo_type`, `discount_value`, `start_at`, `end_at`) is refused as
    /// `"<field> is required"`; an unset defaulted field takes its default.
    pub fn build(self) -> (r: Result<PromoCampaign, String>)
        ensures
            self.name is None ==> (r matches Err(e) && e@ == "name is required"@),
            self.name is Some && self.code is None ==> (r matches Err(e) && e@ == "code is required"@),
            self.name is Some && self.code is Some && self.promo_type is None ==> (r matches Err(e) && e@ == "promo_type is required"@),
            self.name is Some && self.code is Some && self.promo_type is Some && self.discount_value is None ==> (r matches Err(e) && e@ == "discount_value is required"@),
            self.name is Some && self.code is Some && self.promo_type is Some && self.discount_value is Some && self.start_at is None ==> (r matches Err(e) && e@ == "start_at is required"@),
            self.name is Some && self.code is Some && self.promo_type is Some && self.discount_value is Some && self.start_at is Some && self.end_at is None ==> (r matches Err(e) && e@ == "end_at is required"@),
            (self.name is Some && self.code is Some && self.promo_type is Some && self.discount_value is Some && self.start_at is Some && self.end_at is Some) ==> (r matches Ok(x) && {
                &&& x.name == self.name.unwrap()
                &&& x.code == self.code.unwrap()
                &&& x.description == self.description
                &&& x.promo_type == self.promo_type.unwrap()
                &&& x.discount_value == self.discount_value.unwrap()
                &&& x.max_discount == self.max_discount
                &&& x.min_order_value == self.min_order_value
                &&& x.min_items == self.min_items
                &&& (self.applicable_services is Some ==> x.applicable_services == self.applicable_services.unwrap())
                &&& (self.applicable_providers is Some ==> x.applicable_providers == self.applicable_providers.unwrap())
                &&& (self.applicable_zones is Some ==> x.applicable_zones == self.applicable_zones.unwrap())
                &&& (self.target_audience is Some ==> x.target_audience == self.target_audience.unwrap())
                &&& (self.target_audience is None ==> x.target_audience == CampaignTarget::All)
                &&& (self.target_user_ids is Some ==> x.target_user_ids == self.target_user_ids.unwrap())
                &&& (self.first_order_only is Some ==> x.first_order_only == self.first_order_only.unwrap())
                &&& (self.first_order_only is None ==> x.first_order_only == false)
                &&& (self.status is Some ==> x.status == self.status.unwrap())
                &&& (self.status is None ==> x.status == CampaignStatus::Draft)
                &&& x.start_at == self.start_at.unwrap()
                &&& x.end_at == self.end_at.unwrap()
                &&& x.total_budget == self.total_budget
                &&& (self.budget_used is Some ==> x.budget_used == self.budget_used.unwrap())
                &&& (self.budget_used is None ==> x.budget_used.units() == 0 && x.budget_used.scale == 0)
                &&& x.max_redemptions == self.max_redemptions
                &&& (self.max_per_user is Some ==> x.max_per_user == self.max_per_user.unwrap())
                &&& (self.max_per_user is None ==> x.max_per_user == 1)
                &&& (self.total_redemptions is Some ==> x.total_redemptions == self.total_redemptions.unwrap())
                &&& (self.total_redemptions is None ==> x.total_redemptions == 0)
                &&& (self.unique_users is Some ==> x.unique_users == self.unique_users.unwrap())
                &&& (self.unique_users is None ==> x.unique_users == 0)
                &&& (self.total_discount_given is Some ==> x.total_discount_given == self.total_discount_given.unwrap())
                &&& (self.total_discount_given is None ==> x.total_discount_given.units() == 0 && x.total_discount_given.scale == 0)
                &&& (self.total_order_value is Some ==> x.total_order_value == self.total_order_value.unwrap())
                &&& (self.total_order_value is None ==> x.total_order_value.units() == 0 && x.total_order_value.scale == 0)
                &&& (self.funded_by is Some ==> x.funded_by == self.funded_by.unwrap())
                &&& (self.funded_by is None ==> x.funded_by == CampaignFunder::Platform)
                &&& (self.platform_share is Some ==> x.platform_share == self.platform_share.unwrap())
                &&& (self.platform_share is None ==> x.platform_share.units() == 100 * unit() && x.platform_share.scale == 0)
                &&& (self.display_on_app is Some ==> x.display_on_app == self.display_on_app.unwrap())
                &&& (self.display_on_app is None ==> x.display_on_app == true)
                &&& x.banner_image_url == self.banner_image_url
                &&& x.terms_and_conditions == self.terms_and_conditions
                &&& x.metadata == AuditMetadata::blank()
            }),
    {
        let name = match self.name {
            Some(v) => v,
            None => return Err(String::from_str("name is required")),
        };
        let code = match self.code {
            Some(v) => v,
            None => return Err(String::from_str("code is required")),
        };
        let promo_type = match self.promo_type {
            Some(v) => v,
            None => return Err(String::from_str("promo_type is required")),
        };
        let discount_value = match self.discount_value {
            Some(v) => v,
            None => return Err(String::from_str("discount_value is required")),
        };
        let start_at = match self.start_at {
            Some(v) => v,
            None => return Err(String::from_str("start_at is required")),
        };
        let end_at = match self.end_at {
            Some(v) => v,
            None => return Err(String::from_str("end_at is required")),
        };
        Ok(
            PromoCampaign {
                id: new_record_id(),
                name,
                code,
                description: self.description,
                promo_type,
                discount_value,
                max_discount: self.max_discount,
                min_order_value: self.min_order_value,
                min_items: self.min_items,
                applicable_services: match self.applicable_services {
                    Some(v) => v,
                    None => empty_json_array(),
                },
                applicable_providers: match self.applicable_providers {
                    Some(v) => v,
                    None => empty_json_array(),
                },
                applicable_zones: match self.applicable_zones {
                    Some(v) => v,
                    None => empty_json_array(),
                },
                target_audience: match self.target_audience {
                    Some(v) => v,
                    None => CampaignTarget::default(),
                },
                target_user_ids: match self.target_user_ids {
                    Some(v) => v,
                    None => empty_json_array(),
                },
                first_order_only: match self.first_order_only {
                    Some(v) => v,
                    None => false,
                },
                status: match self.status {
                    Some(v) => v,
                    None => CampaignStatus::default(),
                },
                start_at,
                end_at,
                total_budget: self.total_budget,
                budget_used: match self.budget_used {
                    Some(v) => v,
                    None => Dec::from_int(0),
                },
                max_redemptions: self.max_redemptions,
                max_per_user: match self.max_per_user {
                    Some(v) => v,
                    None => 1,
                },
                total_redemptions: match self.total_redemptions {
                    Some(v) => v,
                    None => 0,
                },
                unique_users: match self.unique_users {
                    Some(v) => v,
                    None => 0,
                },
                total_discount_given: match self.total_discount_given {
                    Some(v) => v,
                    None => Dec::from_int(0),
                },
                total_order_value: match self.total_order_value {
                    Some(v) => v,
                    None => Dec::from_int(0),
                },
                funded_by: match self.funded_by {
                    Some(v) => v,
                    None => CampaignFunder::default(),
                },
                platform_share: match self.platform_share {
                    Some(v) => v,
                    None => Dec::from_int(100),
                },
                display_on_app: match self.display_on_app {
                    Some(v) => v,
                    None => true,
                },
                banner_image_url: self.banner_image_url,
                terms_and_conditions: self.terms_and_conditions,
                metadata: AuditMetadata::default(),
            },
        )
    }
}

} // verus!
