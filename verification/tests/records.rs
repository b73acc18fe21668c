use promo::decimal::Dec;
use promo::entity_kinds::{ApplyOn, LoyaltyProgramType, RateOrDiscount, RuleScope};
use promo::records::coupon_redemption::CouponRedemption;
use promo::records::loyalty_order_points::LoyaltyOrderPoints;
use promo::records::loyalty_program::LoyaltyProgram;
use promo::records::pricing_rule::{PricingRule, PricingRuleId};
use promo::timestamp::BackboneTimestamp;
use rust_decimal::Decimal;

fn v(x: Dec) -> Decimal {
    Decimal::from_i128_with_scale(x.mantissa, x.scale)
}

fn at() -> BackboneTimestamp {
    BackboneTimestamp { secs: 1_700_000_000, nanos: 0 }
}

#[test]
fn a_builder_refuses_the_first_missing_required_field() {
    assert_eq!(PricingRule::builder().build().unwrap_err(), "company_id is required");
    assert_eq!(PricingRule::builder().company_id(7).build().unwrap_err(), "title is required");
    assert_eq!(
        PricingRule::builder().company_id(7).title("Weekend".to_string()).build().unwrap_err(),
        "valid_from is required"
    );
    assert_eq!(LoyaltyOrderPoints::builder().company_id(1).loyalty_program_id(2).build().unwrap_err(), "customer_id is required");
}

#[test]
fn unset_fields_take_their_defaults() {
    let rule = PricingRule::builder().company_id(7).title("Weekend".to_string()).valid_from(at()).build().unwrap();
    assert_eq!(rule.company_id, 7);
    assert_eq!(rule.priority, 0);
    assert_eq!(rule.scope, RuleScope::Line);
    assert_eq!(rule.apply_on, ApplyOn::Item);
    assert_eq!(rule.rate_or_discount, RateOrDiscount::DiscountPercentage);
    assert_eq!(rule.currency, "IDR");
    assert!(rule.is_active);
    assert!(!rule.stackable);
    assert_eq!(v(rule.min_qty), Decimal::ZERO);
    assert_eq!(rule.item_id, None);
    assert!(rule.is_active());
    assert!(!rule.is_deleted());
    assert_eq!(rule.created_at(), None);

    let set = PricingRule::builder()
        .company_id(7)
        .title("Weekend".to_string())
        .valid_from(at())
        .priority(5)
        .stackable(true)
        .currency("USD".to_string())
        .build()
        .unwrap();
    assert_eq!(set.priority, 5);
    assert!(set.stackable);
    assert_eq!(set.currency, "USD");
}

#[test]
fn records_carry_their_fields_and_fluent_setters() {
    let program = LoyaltyProgram::new(1, "Gold".to_string(), LoyaltyProgramType::SingleTier, Dec::from_int(2), Dec::from_int(1), at(), true);
    assert_eq!(program.program_name, "Gold");
    assert_eq!(program.expiry_duration_days, None);
    let program = program.with_expiry_duration_days(30);
    assert_eq!(program.expiry_duration_days, Some(30));
    assert_eq!(program.program_name, "Gold");

    let redemption = CouponRedemption::new(1, 2, 3, "pos_invoice".to_string(), 4, at());
    assert_eq!(redemption.typed_id().into_inner(), *redemption.id());
    assert_eq!(redemption.coupon_id, 2);
    assert!(redemption.deleted_by().is_none());

    let id = PricingRuleId::new(42);
    assert_eq!(id.into_inner(), 42);
    assert_ne!(PricingRuleId::generate(), PricingRuleId::generate());
}
