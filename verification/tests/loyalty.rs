use promo::decimal::Dec;
use promo::loyalty::{
    OrderPointsRow, PointsPlan, ReversalRef, accrual_outcome, balance_check, discount_value, earned_points, grant_outcome,
    nothing_accrued, nothing_granted, plan_points, ref_type_valid, replayed_spend, reversal_legs, validate_accrual,
    validate_grant, validate_redemption, validate_reversal, validate_spend, reversal_event, spend_outcome, ledger_entry_points,
};
use promo::ports::PricingError;
use rust_decimal::Decimal;

fn d(s: &str) -> Dec {
    let x: Decimal = s.parse().unwrap();
    Dec::new(x.mantissa(), x.scale())
}

fn v(x: Dec) -> Decimal {
    Decimal::from_i128_with_scale(x.mantissa, x.scale)
}

fn invalid_message(e: PricingError) -> String {
    match e {
        PricingError::Invalid(m) => m,
        other => panic!("unexpected {:?}", other),
    }
}

#[test]
fn reference_types_are_one_to_forty_bytes() {
    assert!(!ref_type_valid(""));
    assert!(ref_type_valid("pos_invoice"));
    assert!(ref_type_valid(&"x".repeat(40)));
    assert!(!ref_type_valid(&"x".repeat(41)));
}

#[test]
fn requests_are_validated_with_their_messages() {
    assert!(validate_accrual(&d("0")).is_ok());
    assert_eq!(invalid_message(validate_accrual(&d("-0.01")).unwrap_err()), "purchase_amount must be non-negative");
    assert_eq!(invalid_message(validate_redemption(&d("0")).unwrap_err()), "points to redeem must be positive");
    assert!(validate_redemption(&d("1")).is_ok());
    assert_eq!(
        invalid_message(validate_grant(&d("-1"), "order").unwrap_err()),
        "grant_base_amount must be non-negative"
    );
    assert_eq!(invalid_message(validate_grant(&d("1"), "").unwrap_err()), "order_ref_type must be 1..=40 chars");
    assert_eq!(invalid_message(validate_spend(&d("-5"), "order").unwrap_err()), "points to spend must be positive");
    assert!(validate_spend(&d("5"), "order").is_ok());
    assert_eq!(
        invalid_message(validate_reversal(&Some(d("-1")), "order", "return").unwrap_err()),
        "return_amount must be non-negative"
    );
    assert_eq!(
        invalid_message(validate_reversal(&None, "order", &"r".repeat(41)).unwrap_err()),
        "reversal_ref_type must be 1..=40 chars"
    );
    assert!(validate_reversal(&Some(d("0")), "order", "return").is_ok());
}

#[test]
fn points_are_the_floored_product() {
    assert_eq!(v(earned_points(d("123.45"), d("0.1"))), Decimal::from(12));
    assert_eq!(v(earned_points(d("99.99"), d("1"))), Decimal::from(99));
    assert_eq!(v(earned_points(d("-2.5"), d("1"))), Decimal::from(-3));
}

#[test]
fn no_whole_point_means_nothing_is_written() {
    match plan_points(d("5"), d("0.1")) {
        PointsPlan::Nothing => {}
        other => panic!("unexpected {:?}", other),
    }
    match plan_points(d("100.005"), d("1")) {
        PointsPlan::Write { points, base } => {
            assert_eq!(v(points), Decimal::from(100));
            assert_eq!(v(base), "100.01".parse::<Decimal>().unwrap());
        }
        other => panic!("unexpected {:?}", other),
    }
    let none = nothing_accrued();
    assert!(none.entry_id.is_none() && !none.already);
    let g = nothing_granted();
    assert!(g.order_points_id.is_none() && g.entry_id.is_none());
}

#[test]
fn accrual_outcome_marks_replays() {
    let fresh = accrual_outcome(d("7"), Some(42));
    assert_eq!(fresh.entry_id, Some(42));
    assert!(!fresh.already);
    let replay = accrual_outcome(d("7"), None);
    assert!(replay.already);
    assert_eq!(v(replay.points), Decimal::from(7));
}

#[test]
fn grant_outcome_covers_the_four_write_results() {
    let a = grant_outcome(d("10"), Some(1), Some(9), None).unwrap();
    assert_eq!((a.order_points_id, a.entry_id, a.already), (Some(1), Some(9), false));
    let b = grant_outcome(d("10"), Some(1), None, None).unwrap();
    assert!(b.already);
    assert_eq!(v(b.points), Decimal::from(10));
    let c = grant_outcome(d("10"), None, Some(9), Some((5, d("3")))).unwrap();
    assert_eq!((c.order_points_id, c.already), (Some(5), false));
    assert_eq!(v(c.points), Decimal::from(10));
    let e = grant_outcome(d("10"), None, None, Some((5, d("3")))).unwrap();
    assert!(e.already);
    assert_eq!(v(e.points), Decimal::from(3));
    let f = grant_outcome(d("10"), None, None, None).unwrap_err();
    assert_eq!(invalid_message(f), "order points row vanished mid-grant");
}

#[test]
fn refused_spends_say_whether_points_lapsed() {
    assert!(balance_check(d("40"), d("40"), d("0")).is_ok());
    match balance_check(d("50"), d("40"), d("20")).unwrap_err() {
        PricingError::PointsExpired { lapsed, available } => {
            assert_eq!(v(lapsed), Decimal::from(20));
            assert_eq!(v(available), Decimal::from(40));
        }
        other => panic!("unexpected {:?}", other),
    }
    match balance_check(d("50"), d("40"), d("5")).unwrap_err() {
        PricingError::InsufficientPoints { available, requested } => {
            assert_eq!(v(available), Decimal::from(40));
            assert_eq!(v(requested), Decimal::from(50));
        }
        other => panic!("unexpected {:?}", other),
    }
    // exactly covered by the lapsed points
    assert!(matches!(balance_check(d("50"), d("40"), d("10")), Err(PricingError::PointsExpired { .. })));
}

#[test]
fn spend_worth_is_rounded_money() {
    assert_eq!(v(discount_value(d("3"), d("0.335"))), "1.01".parse::<Decimal>().unwrap());
    let (points, worth) = replayed_spend(d("-30"), d("100"));
    assert_eq!(v(points), Decimal::from(30));
    assert_eq!(v(worth), Decimal::from(3000));
}

fn row() -> OrderPointsRow {
    OrderPointsRow {
        id: 1,
        grant_base_amount: d("1000.00"),
        granted_points: d("100"),
        granted_reversed_points: d("0"),
        spent_points: d("30"),
        spent_reversed_points: d("0"),
    }
}

#[test]
fn full_cancel_claws_back_within_the_balance_and_restores_all_spend() {
    let (grant, spend) = reversal_legs(None, d("0.1"), &row(), d("80"));
    assert_eq!(v(grant), Decimal::from(80));
    assert_eq!(v(spend), Decimal::from(30));
}

#[test]
fn partial_return_reverses_proportionally() {
    let (grant, spend) = reversal_legs(Some(d("250")), d("0.1"), &row(), d("80"));
    assert_eq!(v(grant), Decimal::from(25));
    assert_eq!(v(spend), Decimal::from(7));
    let mut zero_base = row();
    zero_base.grant_base_amount = d("0");
    let (_, spend) = reversal_legs(Some(d("250")), d("0.1"), &zero_base, d("80"));
    assert_eq!(v(spend), Decimal::ZERO);
}

#[test]
fn an_accepted_spend_reports_its_worth_and_the_balance_left() {
    let (worth, after) = spend_outcome(d("30"), d("100"), d("5"), d("0.25")).unwrap();
    assert_eq!(v(worth), "7.50".parse::<Decimal>().unwrap());
    assert_eq!(v(after), "70".parse::<Decimal>().unwrap());
    let (_, none_left) = spend_outcome(d("100"), d("100"), d("0"), d("0.1")).unwrap();
    assert_eq!(v(none_left), Decimal::ZERO);
}

#[test]
fn a_refused_spend_reports_why() {
    match spend_outcome(d("120"), d("100"), d("50"), d("0.25")) {
        Err(PricingError::PointsExpired { lapsed, available }) => {
            assert_eq!(v(lapsed), "50".parse::<Decimal>().unwrap());
            assert_eq!(v(available), "100".parse::<Decimal>().unwrap());
        },
        other => panic!("unexpected {:?}", other),
    }
    match spend_outcome(d("200"), d("100"), d("50"), d("0.25")) {
        Err(PricingError::InsufficientPoints { available, requested }) => {
            assert_eq!(v(available), "100".parse::<Decimal>().unwrap());
            assert_eq!(v(requested), "200".parse::<Decimal>().unwrap());
        },
        other => panic!("unexpected {:?}", other),
    }
}

fn reference() -> ReversalRef {
    ReversalRef {
        order_points_id: 1,
        loyalty_program_id: 2,
        company_id: 3,
        customer_id: 4,
        order_ref_type: "pos_invoice".to_string(),
        order_ref_id: 5,
        reversal_ref_type: "pos_return".to_string(),
        reversal_ref_id: 6,
    }
}

#[test]
fn a_reversal_is_announced_only_when_a_leg_moved() {
    assert!(reversal_event(reference(), d("0"), d("0")).is_none());
    let e = reversal_event(reference(), d("12"), d("0")).unwrap();
    assert_eq!(v(e.grant_reversed), "12".parse::<Decimal>().unwrap());
    assert_eq!(v(e.spend_restored), Decimal::ZERO);
    assert_eq!(e.order_points_id, 1);
    assert_eq!(e.order_ref_type, "pos_invoice");
    assert_eq!(e.reversal_ref_type, "pos_return");
    assert_eq!(e.reversal_ref_id, 6);
    let e = reversal_event(reference(), d("0"), d("3")).unwrap();
    assert_eq!(v(e.spend_restored), "3".parse::<Decimal>().unwrap());
}

#[test]
fn large_balances_are_computed_like_small_ones() {
    assert_eq!(v(earned_points(d("2000000000000000"), d("1.5"))), "3000000000000000".parse::<Decimal>().unwrap());
    let (worth, after) = spend_outcome(d("5000000000000000"), d("9000000000000000"), d("0"), d("0.01")).unwrap();
    assert_eq!(v(worth), "50000000000000.00".parse::<Decimal>().unwrap());
    assert_eq!(v(after), "4000000000000000".parse::<Decimal>().unwrap());
}

#[test]
fn a_replayed_spend_gives_back_the_same_points_and_worth() {
    let requested = d("30.0");
    let (worth, _) = spend_outcome(requested, d("100"), d("0"), d("0.25")).unwrap();
    let entry = ledger_entry_points(requested);
    assert_eq!(v(entry), "-30.0".parse::<Decimal>().unwrap());
    let (points, replayed_worth) = replayed_spend(entry, d("0.25"));
    assert_eq!(points.mantissa, requested.mantissa);
    assert_eq!(points.scale, requested.scale);
    assert_eq!(replayed_worth.mantissa, worth.mantissa);
    assert_eq!(replayed_worth.scale, worth.scale);
    assert_eq!(v(replayed_worth), "7.50".parse::<Decimal>().unwrap());
}
