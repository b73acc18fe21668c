//! One entry of the loyalty points ledger: the stored record, its typed id, and its builder.

use vstd::prelude::*;
use crate::decimal::Dec;
use crate::timestamp::BackboneTimestamp;
use crate::entity_kinds::{LoyaltyEntryType};
use crate::records::{AuditMetadata, new_record_id};

verus! {

/// The typed id of a LoyaltyPointEntry record.
#[derive(Debug, Clone, Copy, PartialEq, Eq, Hash, Structural)]
pub struct LoyaltyPointEntryId(pub u128);

impl LoyaltyPointEntryId {
    pub fn new(id: u128) -> (r: Self)
        ensures
            r.0 == id,
    {
        LoyaltyPointEntryId(id)
    }

    /// A fresh random id.
    pub fn generate() -> (r: Self) {
        LoyaltyPointEntryId(new_record_id())
    }

    pub fn into_inner(self) -> (r: u128)
        ensures
            r == self.0,
    {
        self.0
    }
}

/// A stored LoyaltyPointEntry record.
#[derive(Debug, Clone)]
pub struct LoyaltyPointEntry {
    pub id: u128,
    pub company_id: u128,
    pub loyalty_program_id: u128,
    pub customer_id: u128,
    pub entry_type: LoyaltyEntryType,
    pub points: Dec,
    pub purchase_amount: Dec,
    pub source_type: String,
    pub source_id: u128,
    pub posting_date: BackboneTimestamp,
    pub expiry_date: Option<BackboneTimestamp>,
    pub metadata: AuditMetadata,
}

impl LoyaltyPointEntry {
    /// An empty builder.
    pub fn builder() -> (r: LoyaltyPointEntryBuilder)
        ensures
            r.is_empty(),
    {
        LoyaltyPointEntryBuilder::default()
    }

    /// A record with the required fields, a fresh id and no audit trail.
    pub fn new(company_id: u128, loyalty_program_id: u128, customer_id: u128, entry_type: LoyaltyEntryType, points: Dec, purchase_amount: Dec, source_type: String, source_id: u128, posting_date: BackboneTimestamp) -> (r: Self)
        ensures
            r.company_id == company_id,
            r.loyalty_program_id == loyalty_program_id,
            r.customer_id == customer_id,
            r.entry_type == entry_type,
            r.points == points,
            r.purchase_amount == purchase_amount,
            r.source_type == source_type,
            r.source_id == source_id,
            r.posting_date == posting_date,
            r.expiry_date is None,
            r.metadata == AuditMetadata::blank(),
    {
        LoyaltyPointEntry {
            id: new_record_id(),
            company_id,
            loyalty_program_id,
            customer_id,
            entry_type,
            points,
            purchase_amount,
            source_type,
            source_id,
            posting_date,
            expiry_date: None,
            metadata: AuditMetadata::default(),
        }
    }

    pub fn id(&self) -> (r: &u128)
        ensures
            *r == self.id,
    {
        &self.id
    }

    pub fn typed_id(&self) -> (r: LoyaltyPointEntryId)
        ensures
            r.0 == self.id,
    {
        LoyaltyPointEntryId(self.id)
    }

    pub fn created_at(&self) -> (r: Option<&BackboneTimestamp>)
        ensures
            r is Some <==> self.metadata.created_at is Some,
            r is Some ==> *r.unwrap() == self.metadata.created_at.unwrap(),
    {
        self.metadata.created_at.as_ref()
    }

    pub fn updated_at(&self) -> (r: Option<&BackboneTimestamp>)
        ensures
            r is Some <==> self.metadata.updated_at is Some,
            r is Some ==> *r.unwrap() == self.metadata.updated_at.unwrap(),
    {
        self.metadata.updated_at.as_ref()
    }

    pub fn deleted_at(&self) -> (r: Option<&BackboneTimestamp>)
        ensures
            r is Some <==> self.metadata.deleted_at is Some,
            r is Some ==> *r.unwrap() == self.metadata.deleted_at.unwrap(),
    {
        self.metadata.deleted_at.as_ref()
    }

    pub fn created_by(&self) -> (r: Option<&u128>)
        ensures
            r is Some <==> self.metadata.created_by is Some,
            r is Some ==> *r.unwrap() == self.metadata.created_by.unwrap(),
    {
        self.metadata.created_by.as_ref()
    }

    pub fn updated_by(&self) -> (r: Option<&u128>)
        ensures
            r is Some <==> self.metadata.updated_by is Some,
            r is Some ==> *r.unwrap() == self.metadata.updated_by.unwrap(),
    {
        self.metadata.updated_by.as_ref()
    }

    pub fn deleted_by(&self) -> (r: Option<&u128>)
        ensures
            r is Some <==> self.metadata.deleted_by is Some,
            r is Some ==> *r.unwrap() == self.metadata.deleted_by.unwrap(),
    {
        self.metadata.deleted_by.as_ref()
    }

    /// Soft-deleted: a deletion instant is recorded.
    pub fn is_deleted(&self) -> (r: bool)
        ensures
            r == self.metadata.deleted_at is Some,
    {
        self.metadata.deleted_at.is_some()
    }

    /// Not soft-deleted.
    pub fn is_active(&self) -> (r: bool)
        ensures
            r == self.metadata.deleted_at is None,
    {
        self.metadata.deleted_at.is_none()
    }

    pub fn with_expiry_date(self, value: BackboneTimestamp) -> (r: Self)
        ensures
            r == (LoyaltyPointEntry { expiry_date: Some(value), ..self }),
    {
        LoyaltyPointEntry { expiry_date: Some(value), ..self }
    }
}

/// Builds a LoyaltyPointEntry field by field; `build` refuses a missing required field.
#[derive(Debug, Clone)]
pub struct LoyaltyPointEntryBuilder {
    pub company_id: Option<u128>,
    pub loyalty_program_id: Option<u128>,
    pub customer_id: Option<u128>,
    pub entry_type: Option<LoyaltyEntryType>,
    pub points: Option<Dec>,
    pub purchase_amount: Option<Dec>,
    pub source_type: Option<String>,
    pub source_id: Option<u128>,
    pub posting_date: Option<BackboneTimestamp>,
    pub expiry_date: Option<BackboneTimestamp>,
}

impl LoyaltyPointEntryBuilder {
    /// No field is set.
    pub open spec fn is_empty(&self) -> bool {
        &&& self.company_id is None
        &&& self.loyalty_program_id is None
        &&& self.customer_id is None
        &&& self.entry_type is None
        &&& self.points is None
        &&& self.purchase_amount is None
        &&& self.source_type is None
        &&& self.source_id is None
        &&& self.posting_date is None
        &&& self.expiry_date is None
    }
}

impl Default for LoyaltyPointEntryBuilder {
    fn default() -> (r: LoyaltyPointEntryBuilder)
        ensures
            r.is_empty(),
    {
        LoyaltyPointEntryBuilder {
            company_id: None,
            loyalty_program_id: None,
            customer_id: None,
            entry_type: None,
            points: None,
            purchase_amount: None,
            source_type: None,
            source_id: None,
            posting_date: None,
            expiry_date: None,
        }
    }
}

impl LoyaltyPointEntryBuilder {
    pub fn company_id(self, value: u128) -> (r: Self)
        ensures
            r == (LoyaltyPointEntryBuilder { company_id: Some(value), ..self }),
    {
        LoyaltyPointEntryBuilder { company_id: Some(value), ..self }
    }

    pub fn loyalty_program_id(self, value: u128) -> (r: Self)
        ensures
            r == (LoyaltyPointEntryBuilder { loyalty_program_id: Some(value), ..self }),
    {
        LoyaltyPointEntryBuilder { loyalty_program_id: Some(value), ..self }
    }

    pub fn customer_id(self, value: u128) -> (r: Self)
        ensures
            r == (LoyaltyPointEntryBuilder { customer_id: Some(value), ..self }),
    {
        LoyaltyPointEntryBuilder { customer_id: Some(value), ..self }
    }

    pub fn entry_type(self, value: LoyaltyEntryType) -> (r: Self)
        ensures
            r == (LoyaltyPointEntryBuilder { entry_type: Some(value), ..self }),
    {
        LoyaltyPointEntryBuilder { entry_type: Some(value), ..self }
    }

    pub fn points(self, value: Dec) -> (r: Self)
        ensures
            r == (LoyaltyPointEntryBuilder { points: Some(value), ..self }),
    {
        LoyaltyPointEntryBuilder { points: Some(value), ..self }
    }

    pub fn purchase_amount(self, value: Dec) -> (r: Self)
        ensures
            r == (LoyaltyPointEntryBuilder { purchase_amount: Some(value), ..self }),
    {
        LoyaltyPointEntryBuilder { purchase_amount: Some(value), ..self }
    }

    pub fn source_type(self, value: String) -> (r: Self)
        ensures
            r == (LoyaltyPointEntryBuilder { source_type: Some(value), ..self }),
    {
        LoyaltyPointEntryBuilder { source_type: Some(value), ..self }
    }

    pub fn source_id(self, value: u128) -> (r: Self)
        ensures
            r == (LoyaltyPointEntryBuilder { source_id: Some(value), ..self }),
    {
        LoyaltyPointEntryBuilder { source_id: Some(value), ..self }
    }

    pub fn posting_date(self, value: BackboneTimestamp) -> (r: Self)
        ensures
            r == (LoyaltyPointEntryBuilder { posting_date: Some(value), ..self }),
    {
        LoyaltyPointEntryBuilder { posting_date: Some(value), ..self }
    }

    pub fn expiry_date(self, value: BackboneTimestamp) -> (r: Self)
        ensures
            r == (LoyaltyPointEntryBuilder { expiry_date: Some(value), ..self }),
    {
        LoyaltyPointEntryBuilder { expiry_date: Some(value), ..self }
    }

    /// The record, with a fresh id and no audit trail. The first missing required field (in the
    /// order `company_id`, `loyalty_program_id`, `customer_id`, `entry_type`, `points`,
    /// `source_type`, `source_id`, `posting_date`) is refused as `"<field> is required"`; an unset
    /// defaulted field takes its default.
    pub fn build(self) -> (r: Result<LoyaltyPointEntry, String>)
        ensures
            self.company_id is None ==> (r matches Err(e) && e@ == "company_id is required"@),
            self.company_id is Some && self.loyalty_program_id is None ==> (r matches Err(e) && e@ == "loyalty_program_id is required"@),
            self.company_id is Some && self.loyalty_program_id is Some && self.customer_id is None ==> (r matches Err(e) && e@ == "customer_id is required"@),
            self.company_id is Some && self.loyalty_program_id is Some && self.customer_id is Some && self.entry_type is None ==> (r matches Err(e) && e@ == "entry_type is required"@),
            self.company_id is Some && self.loyalty_program_id is Some && self.customer_id is Some && self.entry_type is Some && self.points is None ==> (r matches Err(e) && e@ == "points is required"@),
            self.company_id is Some && self.loyalty_program_id is Some && self.customer_id is Some && self.entry_type is Some && self.points is Some && self.source_type is None ==> (r matches Err(e) && e@ == "source_type is required"@),
            self.company_id is Some && self.loyalty_program_id is Some && self.customer_id is Some && self.entry_type is Some && self.points is Some && self.source_type is Some && self.source_id is None ==> (r matches Err(e) && e@ == "source_id is required"@),
            self.company_id is Some && self.loyalty_program_id is Some && self.customer_id is Some && self.entry_type is Some && self.points is Some && self.source_type is Some && self.source_id is Some && self.posting_date is None ==> (r matches Err(e) && e@ == "posting_date is required"@),
            (self.company_id is Some && self.loyalty_program_id is Some && self.customer_id is Some && self.entry_type is Some && self.points is Some && self.source_type is Some && self.source_id is Some && self.posting_date is Some) ==> (r matches Ok(x) && {
                &&& x.company_id == self.company_id.unwrap()
                &&& x.loyalty_program_id == self.loyalty_program_id.unwrap()
                &&& x.customer_id == self.customer_id.unwrap()
                &&& x.entry_type == self.entry_type.unwrap()
                &&& x.points == self.points.unwrap()
                &&& (self.purchase_amount is Some ==> x.purchase_amount == self.purchase_amount.unwrap())
                &&& (self.purchase_amount is None ==> x.purchase_amount.units() == 0 && x.purchase_amount.scale == 0)
                &&& x.source_type == self.source_type.unwrap()
                &&& x.source_id == self.source_id.unwrap()
                &&& x.posting_date == self.posting_date.unwrap()
                &&& x.expiry_date == self.expiry_date
                &&& x.metadata == AuditMetadata::blank()
            }),
    {
        let company_id = match self.company_id {
            Some(v) => v,
            None => return Err(String::from_str("company_id is required")),
        };
        let loyalty_program_id = match self.loyalty_program_id {
            Some(v) => v,
            None => return Err(String::from_str("loyalty_program_id is required")),
        };
        let customer_id = match self.customer_id {
            Some(v) => v,
            None => return Err(String::from_str("customer_id is required")),
        };
        let entry_type = match self.entry_type {
            Some(v) => v,
            None => return Err(String::from_str("entry_type is required")),
        };
        let points = match self.points {
            Some(v) => v,
            None => return Err(String::from_str("points is required")),
        };
        let source_type = match self.source_type {
            Some(v) => v,
            None => return Err(String::from_str("source_type is required")),
        };
        let source_id = match self.source_id {
            Some(v) => v,
            None => return Err(String::from_str("source_id is required")),
        };
        let posting_date = match self.posting_date {
            Some(v) => v,
            None => return Err(String::from_str("posting_date is required")),
        };
        Ok(
            LoyaltyPointEntry {
                id: new_record_id(),
                company_id,
                loyalty_program_id,
                customer_id,
                entry_type,
                points,
                purchase_amount: match self.purchase_amount {
                    Some(v) => v,
                    None => Dec::from_int(0),
                },
                source_type,
                source_id,
                posting_date,
                expiry_date: self.expiry_date,
                metadata: AuditMetadata::default(),
            },
        )
    }
}

} // verus!
