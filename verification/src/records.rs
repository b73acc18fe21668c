//! The stored promotion and loyalty records: each with its typed id, its audit trail, fluent
//! setters for its optional fields, and a builder that refuses a missing required field.

use vstd::prelude::*;
use crate::timestamp::BackboneTimestamp;
use crate::value_objects::new_uuid_v4;

pub mod coupon_redemption;
pub mod loyalty_order_points;
pub mod loyalty_point_entry;
pub mod loyalty_program;
pub mod pricing_rule;
pub mod promo_bundle;
pub mod promo_bundle_component;
pub mod promo_campaign;
pub mod provider_promo;

verus! {

/// When a record was created, last updated and soft-deleted, and by whom.
#[derive(Debug, Clone, Copy)]
pub struct AuditMetadata {
    pub created_at: Option<BackboneTimestamp>,
    pub updated_at: Option<BackboneTimestamp>,
    pub deleted_at: Option<BackboneTimestamp>,
    pub created_by: Option<u128>,
    pub updated_by: Option<u128>,
    pub deleted_by: Option<u128>,
}

impl AuditMetadata {
    /// Nothing recorded yet.
    pub open spec fn blank() -> AuditMetadata {
        AuditMetadata {
            created_at: None,
            updated_at: None,
            deleted_at: None,
            created_by: None,
            updated_by: None,
            deleted_by: None,
        }
    }
}

impl Default for AuditMetadata {
    fn default() -> (r: AuditMetadata)
        ensures
            r == AuditMetadata::blank(),
    {
        AuditMetadata {
            created_at: None,
            updated_at: None,
            deleted_at: None,
            created_by: None,
            updated_by: None,
            deleted_by: None,
        }
    }
}

/// `serde_json::Value`: a JSON document a record carries without reading it.
#[verifier::external_type_specification]
#[verifier::external_body]
pub struct ExJsonValue(serde_json::Value);

/// `Value::clone` (derived): a deep copy.  Nothing is stated of the copy, which the library
/// never reads.
pub assume_specification[ <serde_json::Value as Clone>::clone ](v: &serde_json::Value) -> (r: serde_json::Value);

/// `serde_json::Value::Array(Vec::new())` (what `json!([])` builds): an empty JSON array.
/// Nothing is stated of the value, which the library never reads.
#[verifier::external_body]
pub(crate) fn empty_json_array() -> (r: serde_json::Value) {
    serde_json::Value::Array(Vec::new())
}

/// A fresh random record id.
pub(crate) fn new_record_id() -> u128 {
    new_uuid_v4().0
}

} // verus!
