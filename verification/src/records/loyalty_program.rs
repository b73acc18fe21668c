//! A loyalty program: the stored record, its typed id, and its builder.

use vstd::prelude::*;
use crate::decimal::Dec;
use crate::timestamp::BackboneTimestamp;
use crate::entity_kinds::{LoyaltyProgramType};
use crate::records::{AuditMetadata, new_record_id};

verus! {

/// The typed id of a LoyaltyProgram record.
#[derive(Debug, Clone, Copy, PartialEq, Eq, Hash, Structural)]
pub struct LoyaltyProgramId(pub u128);

impl LoyaltyProgramId {
    pub fn new(id: u128) -> (r: Self)
        ensures
            r.0 == id,
    {
        LoyaltyProgramId(id)
    }

    /// A fresh random id.
    pub fn generate() -> (r: Self) {
        LoyaltyProgramId(new_record_id())
    }

    pub fn into_inner(self) -> (r: u128)
        ensures
            r == self.0,
    {
        self.0
    }
}

/// A stored LoyaltyProgram record.
#[derive(Debug, Clone)]
pub struct LoyaltyProgram {
    pub id: u128,
    pub company_id: u128,
    pub program_name: String,
    pub program_type: LoyaltyProgramType,
    pub collection_factor: Dec,
    pub conversion_factor: Dec,
    pub expiry_duration_days: Option<i32>,
    pub from_date: BackboneTimestamp,
    pub to_date: Option<BackboneTimestamp>,
    pub is_active: bool,
    pub metadata: AuditMetadata,
}

impl LoyaltyProgram {
    /// An empty builder.
    pub fn builder() -> (r: LoyaltyProgramBuilder)
        ensures
            r.is_empty(),
    {
        LoyaltyProgramBuilder::default()
    }

    /// A record with the required fields, a fresh id and no audit trail.
    pub fn new(company_id: u128, program_name: String, program_type: LoyaltyProgramType, collection_factor: Dec, conversion_factor: Dec, from_date: BackboneTimestamp, is_active: bool) -> (r: Self)
        ensures
            r.company_id == company_id,
            r.program_name == program_name,
            r.program_type == program_type,
            r.collection_factor == collection_factor,
            r.conversion_factor == conversion_factor,
            r.from_date == from_date,
            r.is_active == is_active,
            r.expiry_duration_days is None,
            r.to_date is None,
            r.metadata == AuditMetadata::blank(),
    {
        LoyaltyProgram {
            id: new_record_id(),
            company_id,
            program_name,
            program_type,
            collection_factor,
            conversion_factor,
            expiry_duration_days: None,
            from_date,
            to_date: None,
            is_active,
            metadata: AuditMetadata::default(),
        }
    }

    pub fn id(&self) -> (r: &u128)
        ensures
            *r == self.id,
    {
        &self.id
    }

    pub fn typed_id(&self) -> (r: LoyaltyProgramId)
        ensures
            r.0 == self.id,
    {
        LoyaltyProgramId(self.id)
    }

    pub fn created_at(&self) -> (r: Option<&BackboneTimestamp>)
        ensures
            r is Some <==> self.metadata.created_at is Some,
            r is Some ==> *r.unwrap() == self.metadata.created_at.unwrap(),
    {
        self.metadata.created_at.as_ref()
    }

    pub fn updated_at(&self) -> (r: Option<&BackboneTimestamp>)
        ensures
            r is Some <==> self.metadata.updated_at is Some,
            r is Some ==> *r.unwrap() == self.metadata.updated_at.unwrap(),
    {
        self.metadata.updated_at.as_ref()
    }

    pub fn deleted_at(&self) -> (r: Option<&BackboneTimestamp>)
        ensures
            r is Some <==> self.metadata.deleted_at is Some,
            r is Some ==> *r.unwrap() == self.metadata.deleted_at.unwrap(),
    {
        self.metadata.deleted_at.as_ref()
    }

    pub fn created_by(&self) -> (r: Option<&u128>)
        ensures
            r is Some <==> self.metadata.created_by is Some,
            r is Some ==> *r.unwrap() == self.metadata.created_by.unwrap(),
    {
        self.metadata.created_by.as_ref()
    }

    pub fn updated_by(&self) -> (r: Option<&u128>)
        ensures
            r is Some <==> self.metadata.updated_by is Some,
            r is Some ==> *r.unwrap() == self.metadata.updated_by.unwrap(),
    {
        self.metadata.updated_by.as_ref()
    }

    pub fn deleted_by(&self) -> (r: Option<&u128>)
        ensures
            r is Some <==> self.metadata.deleted_by is Some,
            r is Some ==> *r.unwrap() == self.metadata.deleted_by.unwrap(),
    {
        self.metadata.deleted_by.as_ref()
    }

    /// Soft-deleted: a deletion instant is recorded.
    pub fn is_deleted(&self) -> (r: bool)
        ensures
            r == self.metadata.deleted_at is Some,
    {
        self.metadata.deleted_at.is_some()
    }

    /// Not soft-deleted.
    pub fn is_active(&self) -> (r: bool)
        ensures
            r == self.metadata.deleted_at is None,
    {
        self.metadata.deleted_at.is_none()
    }

    pub fn with_expiry_duration_days(self, value: i32) -> (r: Self)
        ensures
            r == (LoyaltyProgram { expiry_duration_days: Some(value), ..self }),
    {
        LoyaltyProgram { expiry_duration_days: Some(value), ..self }
    }

    pub fn with_to_date(self, value: BackboneTimestamp) -> (r: Self)
        ensures
            r == (LoyaltyProgram { to_date: Some(value), ..self }),
    {
        LoyaltyProgram { to_date: Some(value), ..self }
    }
}

/// Builds a LoyaltyProgram field by field; `build` refuses a missing required field.
#[derive(Debug, Clone)]
pub struct LoyaltyProgramBuilder {
    pub company_id: Option<u128>,
    pub program_name: Option<String>,
    pub program_type: Option<LoyaltyProgramType>,
    pub collection_factor: Option<Dec>,
    pub conversion_factor: Option<Dec>,
    pub expiry_duration_days: Option<i32>,
    pub from_date: Option<BackboneTimestamp>,
    pub to_date: Option<BackboneTimestamp>,
    pub is_active: Option<bool>,
}

impl LoyaltyProgramBuilder {
    /// No field is set.
    pub open spec fn is_empty(&self) -> bool {
        &&& self.company_id is None
        &&& self.program_name is None
        &&& self.program_type is None
        &&& self.collection_factor is None
        &&& self.conversion_factor is None
        &&& self.expiry_duration_days is None
        &&& self.from_date is None
        &&& self.to_date is None
        &&& self.is_active is None
    }
}

impl Default for LoyaltyProgramBuilder {
    fn default() -> (r: LoyaltyProgramBuilder)
        ensures
            r.is_empty(),
    {
        LoyaltyProgramBuilder {
            company_id: None,
            program_name: None,
            program_type: None,
            collection_factor: None,
            conversion_factor: None,
            expiry_duration_days: None,
            from_date: None,
            to_date: None,
            is_active: None,
        }
    }
}

impl LoyaltyProgramBuilder {
    pub fn company_id(self, value: u128) -> (r: Self)
        ensures
            r == (LoyaltyProgramBuilder { company_id: Some(value), ..self }),
    {
        LoyaltyProgramBuilder { company_id: Some(value), ..self }
    }

    pub fn program_name(self, value: String) -> (r: Self)
        ensures
            r == (LoyaltyProgramBuilder { program_name: Some(value), ..self }),
    {
        LoyaltyProgramBuilder { program_name: Some(value), ..self }
    }

    pub fn program_type(self, value: LoyaltyProgramType) -> (r: Self)
        ensures
            r == (LoyaltyProgramBuilder { program_type: Some(value), ..self }),
    {
        LoyaltyProgramBuilder { program_type: Some(value), ..self }
    }

    pub fn collection_factor(self, value: Dec) -> (r: Self)
        ensures
            r == (LoyaltyProgramBuilder { collection_factor: Some(value), ..self }),
    {
        LoyaltyProgramBuilder { collection_factor: Some(value), ..self }
    }

    pub fn conversion_factor(self, value: Dec) -> (r: Self)
        ensures
            r == (LoyaltyProgramBuilder { conversion_factor: Some(value), ..self }),
    {
        LoyaltyProgramBuilder { conversion_factor: Some(value), ..self }
    }

    pub fn expiry_duration_days(self, value: i32) -> (r: Self)
        ensures
            r == (LoyaltyProgramBuilder { expiry_duration_days: Some(value), ..self }),
    {
        LoyaltyProgramBuilder { expiry_duration_days: Some(value), ..self }
    }

    pub fn from_date(self, value: BackboneTimestamp) -> (r: Self)
        ensures
            r == (LoyaltyProgramBuilder { from_date: Some(value), ..self }),
    {
        LoyaltyProgramBuilder { from_date: Some(value), ..self }
    }

    pub fn to_date(self, value: BackboneTimestamp) -> (r: Self)
        ensures
            r == (LoyaltyProgramBuilder { to_date: Some(value), ..self }),
    {
        LoyaltyProgramBuilder { to_date: Some(value), ..self }
    }

    pub fn is_active(self, value: bool) -> (r: Self)
        ensures
            r == (LoyaltyProgramBuilder { is_active: Some(value), ..self }),
    {
        LoyaltyProgramBuilder { is_active: Some(value), ..self }
    }

    /// The record, with a fresh id and no audit trail. The first missing required field (in the
    /// order `company_id`, `program_name`, `collection_factor`, `conversion_factor`, `from_date`)
    /// is refused as `"<field> is required"`; an unset defaulted field takes its default.
    pub fn build(self) -> (r: Result<LoyaltyProgram, String>)
        ensures
            self.company_id is None ==> (r matches Err(e) && e@ == "company_id is required"@),
            self.company_id is Some && self.program_name is None ==> (r matches Err(e) && e@ == "program_name is required"@),
            self.company_id is Some && self.program_name is Some && self.collection_factor is None ==> (r matches Err(e) && e@ == "collection_factor is required"@),
            self.company_id is Some && self.program_name is Some && self.collection_factor is Some && self.conversion_factor is None ==> (r matches Err(e) && e@ == "conversion_factor is required"@),
            self.company_id is Some && self.program_name is Some && self.collection_factor is Some && self.conversion_factor is Some && self.from_date is None ==> (r matches Err(e) && e@ == "from_date is required"@),
            (self.company_id is Some && self.program_name is Some && self.collection_factor is Some && self.conversion_factor is Some && self.from_date is Some) ==> (r matches Ok(x) && {
                &&& x.company_id == self.company_id.unwrap()
                &&& x.program_name == self.program_name.unwrap()
                &&& (self.program_type is Some ==> x.program_type == self.program_type.unwrap())
                &&& (self.program_type is None ==> x.program_type == LoyaltyProgramType::SingleTier)
                &&& x.collection_factor == self.collection_factor.unwrap()
                &&& x.conversion_factor == self.conversion_factor.unwrap()
                &&& x.expiry_duration_days == self.expiry_duration_days
                &&& x.from_date == self.from_date.unwrap()
                &&& x.to_date == self.to_date
                &&& (self.is_active is Some ==> x.is_active == self.is_active.unwrap())
                &&& (self.is_active is None ==> x.is_active == true)
                &&& x.metadata == AuditMetadata::blank()
            }),
    {
        let company_id = match self.company_id {
            Some(v) => v,
            None => return Err(String::from_str("company_id is required")),
        };
        let program_name = match self.program_name {
            Some(v) => v,
            None => return Err(String::from_str("program_name is required")),
        };
        let collection_factor = match self.collection_factor {
            Some(v) => v,
            None => return Err(String::from_str("collection_factor is required")),
        };
        let conversion_factor = match self.conversion_factor {
            Some(v) => v,
            None => return Err(String::from_str("conversion_factor is required")),
        };
        let from_date = match self.from_date {
            Some(v) => v,
            None => return Err(String::from_str("from_date is required")),
        };
        Ok(
            LoyaltyProgram {
                id: new_record_id(),
                company_id,
                program_name,
                program_type: match self.program_type {
                    Some(v) => v,
                    None => LoyaltyProgramType::default(),
                },
                collection_factor,
                conversion_factor,
                expiry_duration_days: self.expiry_duration_days,
                from_date,
                to_date: self.to_date,
                is_active: match self.is_active {
                    Some(v) => v,
                    None => true,
                },
                metadata: AuditMetadata::default(),
            },
        )
    }
}

} // verus!
