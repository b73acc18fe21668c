use promo::cart::{
    AdjustmentSource, BundleCand, BundleComponentCand, CartLine, CartPass, OrderRuleCand, ResolvedLine, allocate,
    apply_shares, assemble_bundles, order_rule_sequence, priced_lines, resolve_cart_passes, total_quantity,
};
use promo::decimal::Dec;
use promo::resolve::{PriceQuery, ResolvedPrice};
use promo::timestamp::BackboneTimestamp;
use rust_decimal::Decimal;

fn d(s: &str) -> Dec {
    let x: Decimal = s.parse().unwrap();
    Dec::new(x.mantissa(), x.scale())
}

fn v(x: Dec) -> Decimal {
    Decimal::from_i128_with_scale(x.mantissa, x.scale)
}

fn dec(s: &str) -> Decimal {
    s.parse().unwrap()
}

fn at() -> BackboneTimestamp {
    BackboneTimestamp { secs: 1_700_000_000, nanos: 0 }
}

fn line(id: u128, price: &str, qty: &str) -> ResolvedLine {
    ResolvedLine {
        line_id: id,
        item_id: id * 100,
        quantity: d(qty),
        unit_price: d(price),
        line_discount_amount: d("0"),
        applied_rule_id: None,
        order_discount_share: d("0"),
        net_line_total: d("0"),
    }
}

fn cart_line(id: u128, item: u128, group: Option<u128>, price: &str, qty: &str) -> CartLine {
    CartLine {
        line_id: id,
        query: PriceQuery {
            company_id: 1,
            list_price: d(price),
            quantity: d(qty),
            item_id: item,
            item_group_id: group,
            brand_id: None,
            customer_id: None,
            customer_group_id: None,
            coupon_code: None,
            at: at(),
        },
    }
}

fn rule(id: u128, priority: i32, pct: &str, stackable: bool) -> OrderRuleCand {
    OrderRuleCand {
        id,
        priority,
        customer_id: None,
        customer_group_id: None,
        coupon_required: false,
        rate_or_discount: "discount_percentage".to_string(),
        discount_percentage: Some(d(pct)),
        discount_amount: None,
        discount_upto: None,
        stackable,
        valid_from: at(),
    }
}

fn item_component(item: u128, min_qty: &str) -> BundleComponentCand {
    BundleComponentCand { apply_on: "item".to_string(), item_id: Some(item), item_group_id: None, brand_id: None, min_qty: d(min_qty) }
}

fn bundle(id: u128, components: Vec<BundleComponentCand>) -> BundleCand {
    BundleCand {
        id,
        match_type: "all_of".to_string(),
        required_distinct: None,
        reward: "discount_amount".to_string(),
        discount_percentage: None,
        discount_amount: Some(d("5")),
        reward_item_id: None,
        reward_qty: None,
        stackable: true,
        components,
        gifts: vec![],
    }
}

fn shares(v_: &Vec<(u128, Dec)>) -> Vec<(u128, Decimal)> {
    v_.iter().map(|(i, s)| (*i, v(*s))).collect()
}

#[test]
fn allocation_is_proportional_to_capacity() {
    let lines = vec![line(1, "10.00", "3"), line(2, "10.00", "1")];
    let (disc, alloc) = allocate(d("10.00"), &vec![1, 2], &lines).unwrap();
    assert_eq!(v(disc), dec("10.00"));
    assert_eq!(shares(&alloc), vec![(1, dec("7.50")), (2, dec("2.50"))]);
}

#[test]
fn the_rounding_remainder_lands_on_the_last_line_with_the_most_slack() {
    let lines = vec![line(1, "10.00", "1"), line(2, "10.00", "1"), line(3, "10.00", "1")];
    let (disc, alloc) = allocate(d("10.00"), &vec![1, 2, 3], &lines).unwrap();
    assert_eq!(v(disc), dec("10.00"));
    assert_eq!(shares(&alloc), vec![(1, dec("3.33")), (2, dec("3.33")), (3, dec("3.34"))]);
    let total: Decimal = alloc.iter().map(|(_, s)| v(*s)).sum();
    assert_eq!(total, dec("10.00"));
}

#[test]
fn allocation_never_exceeds_what_the_lines_can_absorb() {
    let lines = vec![line(1, "2.00", "1"), line(2, "3.00", "1")];
    let (disc, alloc) = allocate(d("100.00"), &vec![1, 2], &lines).unwrap();
    assert_eq!(v(disc), dec("5.00"));
    assert_eq!(shares(&alloc), vec![(1, dec("2.00")), (2, dec("3.00"))]);
    let (none, empty) = allocate(d("0"), &vec![1], &lines).unwrap();
    assert_eq!(v(none), Decimal::ZERO);
    assert!(empty.is_empty());
    let (unknown, empty) = allocate(d("5"), &vec![9], &lines).unwrap();
    assert_eq!(v(unknown), Decimal::ZERO);
    assert!(empty.is_empty());
}

#[test]
fn shares_accumulate_on_their_lines() {
    let mut lines = vec![line(1, "10.00", "1"), line(2, "10.00", "1")];
    assert!(apply_shares(&mut lines, &vec![(2, d("1.50")), (2, d("0.50")), (7, d("9"))]));
    assert_eq!(v(lines[0].order_discount_share), Decimal::ZERO);
    assert_eq!(v(lines[1].order_discount_share), dec("2.00"));
}

#[test]
fn order_rule_discounts_are_capped() {
    let mut r = rule(1, 0, "10", true);
    assert_eq!(v(r.discount_on(d("250.00")).unwrap()), dec("25.00"));
    r.discount_upto = Some(d("20"));
    assert_eq!(v(r.discount_on(d("250.00")).unwrap()), dec("20"));
    r.rate_or_discount = "discount_amount".to_string();
    r.discount_amount = Some(d("7.555"));
    assert_eq!(v(r.discount_on(d("250.00")).unwrap()), dec("7.56"));
    r.rate_or_discount = "rate".to_string();
    assert_eq!(v(r.discount_on(d("250.00")).unwrap()), Decimal::ZERO);
    r.customer_id = Some(3);
    assert_eq!(r.specificity(), 2);
}

#[test]
fn bundle_sets_and_rewards() {
    let cart = vec![cart_line(1, 100, None, "10", "4"), cart_line(2, 200, None, "20", "1")];
    let lines = vec![line(1, "10.00", "4"), line(2, "20.00", "1")];
    let b = bundle(5, vec![item_component(100, "2"), item_component(200, "1")]);
    let (sets, ids) = b.satisfied_sets(&cart, &lines).unwrap();
    assert_eq!(v(sets), Decimal::ONE);
    assert_eq!(ids, vec![1, 2]);
    let (fill, matched) = b.component_fill(&b.components[0], &cart, &lines).unwrap();
    assert_eq!(v(fill), dec("2"));
    assert_eq!(matched, vec![1]);
    let (disc, contributing) = b.reward(&cart, &lines).unwrap();
    assert_eq!(v(disc), dec("5"));
    assert_eq!(contributing, vec![1, 2]);
    let missing = bundle(6, vec![item_component(100, "2"), item_component(300, "1")]);
    let (sets, _) = missing.satisfied_sets(&cart, &lines).unwrap();
    assert_eq!(v(sets), Decimal::ZERO);
    let mut any = missing.clone();
    any.match_type = "any_n".to_string();
    any.required_distinct = Some(1);
    let (sets, _) = any.satisfied_sets(&cart, &lines).unwrap();
    assert_eq!(v(sets), Decimal::ONE);
}

#[test]
fn free_items_scale_with_the_sets() {
    let cart = vec![cart_line(1, 100, Some(9), "10", "6")];
    let lines = vec![line(1, "10.00", "6")];
    let mut b = bundle(5, vec![BundleComponentCand {
        apply_on: "item_group".to_string(),
        item_id: None,
        item_group_id: Some(9),
        brand_id: None,
        min_qty: d("3"),
    }]);
    b.reward_item_id = Some(777);
    b.reward_qty = Some(d("1"));
    let (item, qty) = b.free_reward(&cart, &lines).unwrap().unwrap();
    assert_eq!(item, 777);
    assert_eq!(v(qty), dec("2"));
    b.gifts = vec![(801, d("2")), (802, d("0"))];
    let gifts = b.free_rewards(&cart, &lines).unwrap();
    assert_eq!(gifts.len(), 1);
    assert_eq!(gifts[0].0, 801);
    assert_eq!(v(gifts[0].1), dec("4"));
}

#[test]
fn order_rules_apply_by_priority_and_the_coupon_gate() {
    let mut gated = rule(4, 9, "5", true);
    gated.coupon_required = true;
    let low = rule(2, 1, "5", true);
    let high = rule(3, 5, "5", true);
    let seq = order_rule_sequence(vec![low.clone(), gated.clone(), high.clone()], None);
    assert_eq!(seq.iter().map(|r| r.id).collect::<Vec<_>>(), vec![3, 2]);
    let seq = order_rule_sequence(vec![low, gated, high], Some(4));
    assert_eq!(seq.iter().map(|r| r.id).collect::<Vec<_>>(), vec![4, 3, 2]);
}

#[test]
fn line_pass_builds_lines_and_subtotal() {
    let cart = vec![cart_line(1, 100, None, "10", "3"), cart_line(2, 200, None, "0.335", "3")];
    let prices = vec![ResolvedPrice::passthrough(d("10")), ResolvedPrice::passthrough(d("0.335"))];
    let (lines, subtotal) = priced_lines(&cart, &prices).unwrap();
    assert_eq!(lines.len(), 2);
    assert_eq!(v(lines[1].net_line_total), dec("1.01"));
    assert_eq!(v(subtotal), dec("31.01"));
    assert_eq!(v(total_quantity(&cart).unwrap()), dec("6"));
}

#[test]
fn the_whole_cart_reconciles() {
    let cart = vec![cart_line(1, 100, None, "10.00", "4"), cart_line(2, 200, None, "20.00", "1")];
    let prices = vec![ResolvedPrice::passthrough(d("10.00")), ResolvedPrice::passthrough(d("20.00"))];
    let bundles = vec![bundle(5, vec![item_component(100, "2"), item_component(200, "1")])];
    let rules = vec![rule(8, 1, "10", true)];
    let c = resolve_cart_passes(&cart, &prices, &bundles, &rules).unwrap();
    assert_eq!(v(c.subtotal), dec("60.00"));
    assert_eq!(c.order_adjustments.len(), 2);
    assert_eq!(c.order_adjustments[0].source, AdjustmentSource::Bundle(5));
    assert_eq!(v(c.order_adjustments[0].discount_amount), dec("5.00"));
    // 10% of the remaining 55.00
    assert_eq!(c.order_adjustments[1].source, AdjustmentSource::OrderRule(8));
    assert_eq!(v(c.order_adjustments[1].discount_amount), dec("5.50"));
    assert_eq!(v(c.order_discount_total), dec("10.50"));
    assert_eq!(v(c.total), dec("49.50"));
    let nets: Decimal = c.lines.iter().map(|l| v(l.net_line_total)).sum();
    assert_eq!(nets, v(c.total));
}

#[test]
fn an_exclusive_bundle_stops_everything_after_it() {
    let cart = vec![cart_line(1, 100, None, "10.00", "2")];
    let prices = vec![ResolvedPrice::passthrough(d("10.00"))];
    let mut exclusive = bundle(5, vec![item_component(100, "1")]);
    exclusive.stackable = false;
    let bundles = vec![exclusive, bundle(6, vec![item_component(100, "1")])];
    let rules = vec![rule(8, 1, "10", true)];
    let c = resolve_cart_passes(&cart, &prices, &bundles, &rules).unwrap();
    assert_eq!(c.order_adjustments.len(), 1);
    assert_eq!(c.order_adjustments[0].source, AdjustmentSource::Bundle(5));
    assert_eq!(v(c.total), dec("10.00"));

    let mut pass = CartPass::start(vec![line(1, "10.00", "2")], d("20.00"));
    assert!(pass.bundle_pass(&bundles, &cart));
    assert!(pass.locked);
    assert!(pass.order_pass(&rules));
    assert_eq!(pass.adjustments.len(), 1);
}

#[test]
fn component_and_gift_rows_join_the_first_bundle_with_their_id() {
    let bundles = vec![bundle(1, vec![]), bundle(2, vec![]), bundle(1, vec![]), bundle(4, vec![])];
    let rows = vec![
        (1, item_component(10, "1")),
        (2, item_component(20, "2")),
        (1, item_component(11, "3")),
        (3, item_component(30, "1")),
    ];
    let gifts = vec![(2, (900, d("1"))), (1, (901, d("2"))), (4, (902, d("1")))];
    let out = assemble_bundles(bundles, &rows, &gifts);
    assert_eq!(out.len(), 2);
    assert_eq!(out[0].id, 1);
    assert_eq!(out[0].components.iter().map(|c| c.item_id).collect::<Vec<_>>(), vec![Some(10), Some(11)]);
    assert_eq!(out[0].gifts.iter().map(|g| (g.0, v(g.1))).collect::<Vec<_>>(), vec![(901, dec("2"))]);
    assert_eq!(out[1].id, 2);
    assert_eq!(out[1].components.len(), 1);
    assert_eq!(v(out[1].components[0].min_qty), dec("2"));
    assert_eq!(out[1].gifts.iter().map(|g| g.0).collect::<Vec<_>>(), vec![900]);
}

#[test]
fn the_remainder_never_pushes_a_line_past_its_capacity() {
    let prices = ["0.06", "0.41", "0.51", "0.42", "0.52", "0.02", "0.44"];
    let lines: Vec<ResolvedLine> =
        prices.iter().enumerate().map(|(i, p)| line(i as u128 + 1, p, "1")).collect();
    let (disc, alloc) = allocate(d("2.35"), &vec![1, 2, 3, 4, 5, 6, 7], &lines).unwrap();
    assert_eq!(v(disc), dec("2.35"));
    let total: Decimal = alloc.iter().map(|(_, s)| v(*s)).sum();
    assert_eq!(total, dec("2.35"));
    assert_eq!(
        shares(&alloc),
        vec![
            (1, dec("0.06")),
            (2, dec("0.41")),
            (3, dec("0.50")),
            (4, dec("0.41")),
            (5, dec("0.51")),
            (6, dec("0.02")),
            (7, dec("0.44")),
        ]
    );
    for (k, (_, share)) in alloc.iter().enumerate() {
        assert!(v(*share) <= dec(prices[k]));
    }
}

#[test]
fn five_small_lines_share_a_discount_within_their_capacity() {
    let lines: Vec<ResolvedLine> = (1..=5).map(|i| line(i, "0.05", "1")).collect();
    let (disc, alloc) = allocate(d("0.22"), &vec![1, 2, 3, 4, 5], &lines).unwrap();
    assert_eq!(v(disc), dec("0.22"));
    let total: Decimal = alloc.iter().map(|(_, s)| v(*s)).sum();
    assert_eq!(total, dec("0.22"));
    assert!(alloc.iter().all(|(_, s)| v(*s) <= dec("0.05") && v(*s) >= Decimal::ZERO));
    assert_eq!(
        shares(&alloc),
        vec![(1, dec("0.05")), (2, dec("0.04")), (3, dec("0.04")), (4, dec("0.04")), (5, dec("0.05"))]
    );
}

#[test]
fn line_nets_tie_out_to_the_total_when_rounding_falls_short() {
    let cart: Vec<CartLine> = (1..=3).map(|i| cart_line(i, 100 + i, None, "1.00", "0.333")).collect();
    let prices: Vec<ResolvedPrice> = (0..3).map(|_| ResolvedPrice::passthrough(d("1.00"))).collect();
    let c = resolve_cart_passes(&cart, &prices, &vec![], &vec![]).unwrap();
    assert_eq!(v(c.subtotal), dec("1.00"));
    assert_eq!(v(c.total), dec("1.00"));
    let nets: Vec<Decimal> = c.lines.iter().map(|l| v(l.net_line_total)).collect();
    assert_eq!(nets, vec![dec("0.34"), dec("0.33"), dec("0.33")]);
    assert_eq!(nets.iter().copied().sum::<Decimal>(), v(c.total));
}

#[test]
fn line_nets_tie_out_to_the_total_when_rounding_overshoots() {
    let cart: Vec<CartLine> = (1..=3).map(|i| cart_line(i, 100 + i, None, "1.00", "0.006")).collect();
    let prices: Vec<ResolvedPrice> = (0..3).map(|_| ResolvedPrice::passthrough(d("1.00"))).collect();
    let c = resolve_cart_passes(&cart, &prices, &vec![], &vec![]).unwrap();
    assert_eq!(v(c.total), dec("0.02"));
    let nets: Vec<Decimal> = c.lines.iter().map(|l| v(l.net_line_total)).collect();
    assert_eq!(nets, vec![dec("0.00"), dec("0.01"), dec("0.01")]);
    assert!(nets.iter().all(|n| *n >= Decimal::ZERO));
}

#[test]
fn line_nets_tie_out_for_large_baskets_too() {
    let cart: Vec<CartLine> =
        (1..=3).map(|i| cart_line(i, 100 + i, None, "100000000000000000000.00", "0.333")).collect();
    let prices: Vec<ResolvedPrice> =
        (0..3).map(|_| ResolvedPrice::passthrough(d("100000000000000000000.00"))).collect();
    let c = resolve_cart_passes(&cart, &prices, &vec![], &vec![]).unwrap();
    let nets: Decimal = c.lines.iter().map(|l| v(l.net_line_total)).sum();
    assert_eq!(v(c.total), dec("99900000000000000000.00"));
    assert_eq!(nets, v(c.total));
}
