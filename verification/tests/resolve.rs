use promo::decimal::{Dec, money};
use promo::resolve::{Candidate, ResolvedPrice, apply_effect, pick_winner, price_line, validate_price_query};
use promo::ports::PricingError;
use promo::timestamp::BackboneTimestamp;
use rust_decimal::Decimal;

fn d(s: &str) -> Dec {
    let x: Decimal = s.parse().unwrap();
    Dec::new(x.mantissa(), x.scale())
}

fn v(x: Dec) -> Decimal {
    Decimal::from_i128_with_scale(x.mantissa, x.scale)
}

fn dec(s: &str) -> Decimal {
    s.parse().unwrap()
}

fn rule(id: u128, priority: i32, effect: &str) -> Candidate {
    Candidate {
        id,
        priority,
        apply_on: "all".to_string(),
        customer_id: None,
        customer_group_id: None,
        coupon_required: false,
        rate_or_discount: effect.to_string(),
        rate: None,
        discount_percentage: None,
        discount_amount: None,
        discount_upto: None,
        valid_from: BackboneTimestamp { secs: 1_700_000_000, nanos: 0 },
    }
}

#[test]
fn money_rounds_half_away_from_zero() {
    assert_eq!(v(money(d("2.345"))), dec("2.35"));
    assert_eq!(v(money(d("-2.345"))), dec("-2.35"));
    assert_eq!(v(money(d("2.344"))), dec("2.34"));
    assert_eq!(v(money(d("7"))), dec("7"));
    assert!(d("1.0").eq_value(&d("1.00")));
    assert!(d("1.5").lt(&d("1.51")));
}

#[test]
fn specificity_weighs_selector_and_audience() {
    let mut c = rule(1, 0, "rate");
    assert_eq!(c.specificity(), 10);
    c.apply_on = "item".to_string();
    c.customer_id = Some(5);
    assert_eq!(c.specificity(), 32);
    c.apply_on = "brand".to_string();
    c.customer_id = None;
    c.customer_group_id = Some(6);
    assert_eq!(c.specificity(), 21);
}

#[test]
fn the_winner_is_priority_then_specificity_then_newest_then_smallest_id() {
    let mut a = rule(9, 5, "rate");
    let mut b = rule(3, 5, "rate");
    let c = rule(1, 1, "rate");
    // equal keys but for the id: the smaller id wins
    assert_eq!(pick_winner(&vec![a.clone(), b.clone(), c.clone()], None), Some(1));
    // a newer rule wins a tie on priority and specificity
    a.valid_from = BackboneTimestamp { secs: 1_800_000_000, nanos: 0 };
    assert_eq!(pick_winner(&vec![a.clone(), b.clone(), c.clone()], None), Some(0));
    // more specific beats newer
    b.apply_on = "item".to_string();
    assert_eq!(pick_winner(&vec![a.clone(), b.clone(), c.clone()], None), Some(1));
    // a coupon-gated rule needs its coupon
    let mut gated = rule(4, 99, "rate");
    gated.coupon_required = true;
    assert_eq!(pick_winner(&vec![c.clone(), gated.clone()], None), Some(0));
    assert_eq!(pick_winner(&vec![c.clone(), gated.clone()], Some(4)), Some(1));
    assert_eq!(pick_winner(&vec![gated], None), None);
}

#[test]
fn effects_set_the_unit_price() {
    let list = d("200.00");
    let mut r = rule(1, 0, "rate");
    r.rate = Some(d("150.004"));
    assert_eq!(v(apply_effect(&r, list)), dec("150.00"));
    let mut p = rule(1, 0, "discount_percentage");
    p.discount_percentage = Some(d("12.5"));
    assert_eq!(v(apply_effect(&p, list)), dec("175.00"));
    p.discount_percentage = Some(d("150"));
    assert_eq!(v(apply_effect(&p, list)), dec("0"));
    let mut a = rule(1, 0, "discount_amount");
    a.discount_amount = Some(d("250"));
    assert_eq!(v(apply_effect(&a, list)), dec("0"));
    a.discount_amount = Some(d("20.5"));
    assert_eq!(v(apply_effect(&a, list)), dec("179.50"));
    assert_eq!(v(apply_effect(&rule(1, 0, "other"), list)), dec("200.00"));
}

#[test]
fn query_validation_and_gross() {
    match validate_price_query(d("0"), d("10")) {
        Err(PricingError::Invalid(m)) => assert_eq!(m, "quantity must be positive"),
        other => panic!("unexpected {:?}", other),
    }
    match validate_price_query(d("1"), d("-10")) {
        Err(PricingError::Invalid(m)) => assert_eq!(m, "list_price must be non-negative"),
        other => panic!("unexpected {:?}", other),
    }
    assert_eq!(v(validate_price_query(d("3"), d("3.335")).unwrap()), dec("10.01"));
}

#[test]
fn no_eligible_rule_passes_the_list_price_through() {
    let r = price_line(d("19.99"), d("2"), &vec![], None);
    assert_eq!(v(r.unit_price), dec("19.99"));
    assert_eq!(v(r.discount_amount), Decimal::ZERO);
    assert!(r.applied_rule_id.is_none() && r.applied_coupon_id.is_none());
    let p = ResolvedPrice::passthrough(d("5"));
    assert_eq!(v(p.unit_price), dec("5"));
}

#[test]
fn the_winning_rule_prices_the_line_and_reports_its_coupon() {
    let mut r = rule(7, 1, "discount_percentage");
    r.discount_percentage = Some(d("10"));
    r.coupon_required = true;
    let res = price_line(d("50.00"), d("3"), &vec![r], Some((99, 7)));
    assert_eq!(v(res.unit_price), dec("45.00"));
    assert_eq!(v(res.discount_amount), dec("5.00"));
    assert_eq!(res.applied_rule_id, Some(7));
    assert_eq!(res.applied_coupon_id, Some(99));
}

#[test]
fn a_binding_cap_spreads_over_the_quantity() {
    let mut r = rule(7, 1, "discount_amount");
    r.discount_amount = Some(d("10"));
    r.discount_upto = Some(d("20"));
    // 10 off per unit × 3 units = 30 > 20: per-unit discount becomes 20 / 3 = 6.67
    let res = price_line(d("50.00"), d("3"), &vec![r.clone()], None);
    assert_eq!(v(res.discount_amount), dec("6.67"));
    assert_eq!(v(res.unit_price), dec("43.33"));
    assert_eq!(res.applied_coupon_id, None);
    // 10 × 2 = 20 does not exceed the cap
    let res = price_line(d("50.00"), d("2"), &vec![r], None);
    assert_eq!(v(res.discount_amount), dec("10"));
    assert_eq!(v(res.unit_price), dec("40.00"));
}

#[test]
fn the_winner_does_not_depend_on_the_listing_order() {
    let mut a = rule(9, 5, "discount_amount");
    a.discount_amount = Some(d("1"));
    let mut b = rule(3, 5, "discount_amount");
    b.discount_amount = Some(d("2"));
    let mut c = rule(1, 1, "discount_amount");
    c.discount_amount = Some(d("3"));
    let orders = vec![
        vec![a.clone(), b.clone(), c.clone()],
        vec![c.clone(), b.clone(), a.clone()],
        vec![b.clone(), c.clone(), a.clone()],
    ];
    for cands in &orders {
        let i = pick_winner(cands, None).unwrap();
        assert_eq!(cands[i].id, 3);
        let r = price_line(d("10"), d("1"), cands, None);
        assert_eq!(v(r.unit_price), dec("8"));
        assert_eq!(r.applied_rule_id, Some(3));
    }
}

#[test]
fn a_line_beyond_a_trillion_is_priced() {
    assert_eq!(
        v(validate_price_query(d("3"), d("1000000000000000.335")).unwrap()),
        dec("3000000000000001.01")
    );
}
