//! Cart-stage promo-code claims: how a shopper's typed code is normalised, and how a claim is
//! adjudicated against the cart's existing claim and the coupon's usage headroom.
//!
//! Every adjudication refusal is the same `PricingError::ClaimRefused`, so the claim route cannot
//! tell an unknown code from an exhausted one.  The cart's existing claim is decided before the
//! headroom count: re-claiming the code the cart already holds is a replay and consumes nothing.

use vstd::prelude::*;
use crate::ports::{PricingError, invalid};
use crate::loyalty::{ref_type_ok, ref_type_valid};
use crate::text::{byte_len, str_byte_len, trim, trim_spec, str_to_uppercase, spec_to_uppercase, str_eq};

verus! {

/// The canonical form of a typed code: trimmed, then upper-cased.
pub open spec fn canonical_code(code: Seq<char>) -> Seq<char> {
    spec_to_uppercase(trim_spec(code))
}

/// Validate the claiming document's reference type and normalise the typed code.  An empty or
/// over-long code is refused like any unknown code.
pub fn normalize_claim(cart_ref_type: &str, code: &str) -> (r: Result<String, PricingError>)
    ensures
        !ref_type_ok(cart_ref_type@) ==> (r matches Err(e) && e.is_invalid(
            "cart_ref_type must be 1..=40 chars"@,
        )),
        ref_type_ok(cart_ref_type@) ==> {
            let c = canonical_code(code@);
            if 1 <= byte_len(c) <= 40 {
                r matches Ok(s) && s@ == c
            } else {
                r matches Err(PricingError::ClaimRefused)
            }
        },
{
    if !ref_type_valid(cart_ref_type) {
        return Err(invalid("cart_ref_type must be 1..=40 chars"));
    }
    let trimmed = trim(code);
    let canonical = str_to_uppercase(trimmed.as_str());
    let n = str_byte_len(canonical.as_str());
    if n == 0 || n > 40 {
        return Err(PricingError::ClaimRefused);
    }
    Ok(canonical)
}

/// A coupon a claim can rest on: active, in window, not exhausted at rest, read under its lock.
#[derive(Debug, Clone)]
pub struct ClaimableCoupon {
    pub coupon_id: u128,
    pub pricing_rule_id: u128,
    pub code: String,
    pub used_count: i32,
    pub max_use: Option<i32>,
}

/// The cart's currently active claim.
#[derive(Debug, Clone)]
pub struct ActiveClaim {
    pub claim_id: u128,
    pub coupon_id: u128,
    pub pricing_rule_id: u128,
    pub code: String,
}

/// Outcome of a successful claim.
#[derive(Debug, Clone)]
pub struct PromoCodeClaimOutcome {
    pub claim_id: u128,
    pub coupon_id: u128,
    pub pricing_rule_id: u128,
    pub code: String,
    /// True when the cart already held this very code (idempotent replay).
    pub already: bool,
}

/// How a claim proceeds once the coupon row is locked.
#[derive(Debug, Clone)]
pub enum ClaimBranch {
    /// The cart already holds this coupon: hand back its claim.
    Replay(PromoCodeClaimOutcome),
    /// The cart holds another coupon's claim: release first.
    Refused,
    /// The cart holds nothing: mint, gated by the coupon's headroom.
    Fresh,
}

/// Decide the branch from the cart's active claim, before any headroom is counted.
pub fn claim_branch(coupon: &ClaimableCoupon, active: Option<ActiveClaim>) -> (r: ClaimBranch)
    ensures
        active is None ==> r is Fresh,
        (active is Some && active.unwrap().coupon_id != coupon.coupon_id) ==> r is Refused,
        (active is Some && active.unwrap().coupon_id == coupon.coupon_id) ==> (r matches ClaimBranch::Replay(o)
            && o.claim_id == active.unwrap().claim_id && o.coupon_id == active.unwrap().coupon_id
            && o.pricing_rule_id == active.unwrap().pricing_rule_id && o.code@ == active.unwrap().code@
            && o.already),
{
    match active {
        None => ClaimBranch::Fresh,
        Some(a) => {
            if a.coupon_id == coupon.coupon_id {
                ClaimBranch::Replay(
                    PromoCodeClaimOutcome {
                        claim_id: a.claim_id,
                        coupon_id: a.coupon_id,
                        pricing_rule_id: a.pricing_rule_id,
                        code: a.code,
                        already: true,
                    },
                )
            } else {
                ClaimBranch::Refused
            }
        },
    }
}

/// Whether a fresh claim fits: committed uses plus live reservations plus this one must not
/// exceed `max_use` (an uncapped coupon always fits).
pub open spec fn has_headroom(used_count: i32, reserved: i64, max_use: Option<i32>) -> bool {
    match max_use {
        None => true,
        Some(m) => used_count + reserved + 1 <= m,
    }
}

/// The headroom test for a fresh claim.
pub fn headroom_ok(used_count: i32, reserved: i64, max_use: Option<i32>) -> (r: bool)
    requires
        0 <= reserved <= 0x4000_0000_0000_0000,
    ensures
        r == has_headroom(used_count, reserved, max_use),
{
    match max_use {
        None => true,
        Some(m) => !((used_count as i64) + reserved + 1 > (m as i64)),
    }
}

/// The outcome of a freshly minted claim.
pub fn minted_outcome(claim_id: u128, coupon: ClaimableCoupon) -> (r: PromoCodeClaimOutcome)
    ensures
        r.claim_id == claim_id,
        r.coupon_id == coupon.coupon_id,
        r.pricing_rule_id == coupon.pricing_rule_id,
        r.code@ == coupon.code@,
        !r.already,
{
    PromoCodeClaimOutcome {
        claim_id,
        coupon_id: coupon.coupon_id,
        pricing_rule_id: coupon.pricing_rule_id,
        code: coupon.code,
        already: false,
    }
}

/// Where a claim stands.
#[derive(Debug, Clone, Copy, PartialEq, Eq, Structural)]
pub enum CouponClaimStatus {
    Claimed,
    Released,
    Redeemed,
}

/// The status a stored claim row carries: `released`, `redeemed`, anything else is live.
pub fn claim_status(status: &str) -> (r: CouponClaimStatus)
    ensures
        status@ == "released"@ ==> r == CouponClaimStatus::Released,
        status@ == "redeemed"@ ==> r == CouponClaimStatus::Redeemed,
        status@ != "released"@ && status@ != "redeemed"@ ==> r == CouponClaimStatus::Claimed,
{
    proof {
        reveal_strlit("released");
        reveal_strlit("redeemed");
        assert("released"@[2] != "redeemed"@[2]);
    }
    if str_eq(status, "released") {
        CouponClaimStatus::Released
    } else if str_eq(status, "redeemed") {
        CouponClaimStatus::Redeemed
    } else {
        CouponClaimStatus::Claimed
    }
}

} // verus!
