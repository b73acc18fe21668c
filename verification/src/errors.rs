//! Error type shared by the command and query layer.

use vstd::prelude::*;

verus! {

/// Why a command or query was refused.
#[derive(Debug, Clone)]
pub enum DomainError {
    ValidationError { message: String },
    BusinessRuleViolation { message: String },
    NotFound { message: String },
    RepositoryError { message: String },
}

impl DomainError {
    /// A validation refusal with `message`.
    pub open spec fn is_validation(&self, message: Seq<char>) -> bool {
        self matches DomainError::ValidationError { message: m } && m@ == message
    }

    /// The human-readable message of this error.
    pub fn message(&self) -> (r: &str)
        ensures
            r@ == (match self {
                DomainError::ValidationError { message } => message@,
                DomainError::BusinessRuleViolation { message } => message@,
                DomainError::NotFound { message } => message@,
                DomainError::RepositoryError { message } => message@,
            }),
    {
        match self {
            DomainError::ValidationError { message } => message.as_str(),
            DomainError::BusinessRuleViolation { message } => message.as_str(),
            DomainError::NotFound { message } => message.as_str(),
            DomainError::RepositoryError { message } => message.as_str(),
        }
    }
}

/// A validation refusal carrying `message`.
pub fn validation_error(message: String) -> (r: DomainError)
    ensures
        r.is_validation(message@),
{
    DomainError::ValidationError { message }
}

} // verus!
