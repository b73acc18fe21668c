//! The promotion engine's outward vocabulary: its refusals and the locks they name.

use vstd::prelude::*;
use crate::decimal::Dec;

verus! {

/// The row a lost `NOWAIT` lock was taken on.
#[derive(Debug, Clone, Copy, PartialEq, Eq, Structural)]
pub enum LockResource {
    CouponCode,
    LoyaltyProgram,
    MemberBalance,
}

/// Why a pricing, coupon or loyalty request was refused.
#[derive(Debug, Clone)]
pub enum PricingError {
    /// The presented coupon is unknown or not active.
    CouponInvalid(String),
    /// The coupon has no use left.
    CouponExhausted,
    /// The loyalty program is missing, inactive or out of its window.
    ProgramInvalid,
    /// The member's available balance does not cover the request.
    InsufficientPoints { available: Dec, requested: Dec },
    /// The request would have been covered by points that have since lapsed.
    PointsExpired { lapsed: Dec, available: Dec },
    /// The request itself is malformed.
    Invalid(String),
    /// A shopper-presented code was refused (deliberately without detail).
    ClaimRefused,
    /// Another transaction holds the row; the host retries once.
    LockBusy { resource: LockResource },
}

impl PricingError {
    /// An `Invalid` refusal carrying `message`.
    pub open spec fn is_invalid(&self, message: Seq<char>) -> bool {
        self matches PricingError::Invalid(m) && m@ == message
    }
}

/// An `Invalid` refusal with `message`.
pub fn invalid(message: &str) -> (r: PricingError)
    ensures
        r.is_invalid(message@),
{
    PricingError::Invalid(String::from_str(message))
}

} // verus!
