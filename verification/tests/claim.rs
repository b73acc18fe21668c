use promo::claim::{
    ActiveClaim, ClaimBranch, ClaimableCoupon, CouponClaimStatus, claim_branch, claim_status, headroom_ok,
    minted_outcome, normalize_claim,
};
use promo::ports::PricingError;

fn coupon() -> ClaimableCoupon {
    ClaimableCoupon { coupon_id: 7, pricing_rule_id: 70, code: "SAVE10".to_string(), used_count: 3, max_use: Some(5) }
}

#[test]
fn typed_codes_are_trimmed_and_upper_cased() {
    assert_eq!(normalize_claim("sales_order", "  save10 ").unwrap(), "SAVE10");
    assert!(matches!(normalize_claim("sales_order", "   "), Err(PricingError::ClaimRefused)));
    assert!(matches!(normalize_claim("sales_order", &"a".repeat(41)), Err(PricingError::ClaimRefused)));
    match normalize_claim("", "SAVE10") {
        Err(PricingError::Invalid(m)) => assert_eq!(m, "cart_ref_type must be 1..=40 chars"),
        other => panic!("unexpected {:?}", other),
    }
}

#[test]
fn the_carts_existing_claim_decides_first() {
    assert!(matches!(claim_branch(&coupon(), None), ClaimBranch::Fresh));
    let other = ActiveClaim { claim_id: 1, coupon_id: 8, pricing_rule_id: 80, code: "OTHER".to_string() };
    assert!(matches!(claim_branch(&coupon(), Some(other)), ClaimBranch::Refused));
    let mine = ActiveClaim { claim_id: 2, coupon_id: 7, pricing_rule_id: 70, code: "SAVE10".to_string() };
    match claim_branch(&coupon(), Some(mine)) {
        ClaimBranch::Replay(o) => {
            assert_eq!((o.claim_id, o.coupon_id, o.pricing_rule_id), (2, 7, 70));
            assert_eq!(o.code, "SAVE10");
            assert!(o.already);
        }
        other => panic!("unexpected {:?}", other),
    }
}

#[test]
fn headroom_counts_uses_reservations_and_this_claim() {
    assert!(headroom_ok(3, 1, Some(5)));
    assert!(!headroom_ok(3, 2, Some(5)));
    assert!(headroom_ok(1000, 1000, None));
    let o = minted_outcome(11, coupon());
    assert_eq!((o.claim_id, o.coupon_id, o.pricing_rule_id, o.already), (11, 7, 70, false));
}

#[test]
fn stored_statuses_map_to_claim_states() {
    assert_eq!(claim_status("released"), CouponClaimStatus::Released);
    assert_eq!(claim_status("redeemed"), CouponClaimStatus::Redeemed);
    assert_eq!(claim_status("claimed"), CouponClaimStatus::Claimed);
    assert_eq!(claim_status("anything"), CouponClaimStatus::Claimed);
}
