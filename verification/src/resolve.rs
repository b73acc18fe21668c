//! Single-line price resolution: which pricing rule wins a line, and the effective unit price it
//! yields.  Deterministic: priority first, then specificity, then the newest rule, then the
//! smallest id.

use vstd::prelude::*;
use crate::decimal::{
    Dec, abs, unit, money_dec, is_cents, max_units, money, dec_sub,
    dec_mul, dec_div, spec_dec_sub, spec_dec_mul, spec_dec_div, product_fits, difference_fits,
    lemma_pow10_28, lemma_money_units,
};
use crate::loyalty::min_of;
use crate::ports::{PricingError, invalid};
use crate::text::str_eq;
use crate::timestamp::BackboneTimestamp;

verus! {

/// The larger of two decimals by value, `b` on a tie (as `Ord::max` picks it).
pub open spec fn max_of(a: Dec, b: Dec) -> Dec {
    if b.units() < a.units() {
        a
    } else {
        b
    }
}

/// The decimal zero as `Decimal::ZERO` holds it.
pub open spec fn zero_dec() -> Dec {
    Dec { mantissa: 0, scale: 0 }
}

/// One hundred as `Decimal::from(100)` holds it.
pub open spec fn hundred_dec() -> Dec {
    Dec { mantissa: 100, scale: 0 }
}

pub fn hundred() -> (r: Dec)
    ensures
        r == hundred_dec(),
        r.wf(),
        r.units() == 100 * unit(),
{
    proof {
        lemma_pow10_28();
    }
    Dec { mantissa: 100, scale: 0 }
}

pub fn zero() -> (r: Dec)
    ensures
        r == zero_dec(),
        r.wf(),
        r.units() == 0,
{
    Dec { mantissa: 0, scale: 0 }
}

/// One line to price, with the dimensions rules are matched against.
#[derive(Debug, Clone)]
pub struct PriceQuery {
    pub company_id: u128,
    /// The list unit price before any promotion.
    pub list_price: Dec,
    pub quantity: Dec,
    pub item_id: u128,
    pub item_group_id: Option<u128>,
    pub brand_id: Option<u128>,
    pub customer_id: Option<u128>,
    pub customer_group_id: Option<u128>,
    /// A coupon code the customer presented (case-insensitive).
    pub coupon_code: Option<String>,
    /// The instant validity windows are evaluated at.
    pub at: BackboneTimestamp,
}

/// The resolved price for a line.
#[derive(Debug, Clone)]
pub struct ResolvedPrice {
    /// Effective unit price (never negative); the list price when no rule applied.
    pub unit_price: Dec,
    /// Per-unit discount off list, zero when no rule applied.
    pub discount_amount: Dec,
    /// The rule that won, if any.
    pub applied_rule_id: Option<u128>,
    /// The coupon that unlocked the winning rule, if the win depended on one.
    pub applied_coupon_id: Option<u128>,
}

impl ResolvedPrice {
    /// No rule applied: charge the list price.
    pub fn passthrough(list_price: Dec) -> (r: ResolvedPrice)
        ensures
            r.unit_price == list_price,
            r.discount_amount == zero_dec(),
            r.applied_rule_id is None,
            r.applied_coupon_id is None,
    {
        ResolvedPrice {
            unit_price: list_price,
            discount_amount: zero(),
            applied_rule_id: None,
            applied_coupon_id: None,
        }
    }
}

/// A candidate line rule, with the fields resolution reads.
#[derive(Debug, Clone)]
pub struct Candidate {
    pub id: u128,
    pub priority: i32,
    pub apply_on: String,
    pub customer_id: Option<u128>,
    pub customer_group_id: Option<u128>,
    pub coupon_required: bool,
    pub rate_or_discount: String,
    pub rate: Option<Dec>,
    pub discount_percentage: Option<Dec>,
    pub discount_amount: Option<Dec>,
    pub discount_upto: Option<Dec>,
    pub valid_from: BackboneTimestamp,
}

/// Points a selector earns: item 30, brand or item group 20, anything else 10.
pub open spec fn selector_weight(apply_on: Seq<char>) -> int {
    if apply_on == "item"@ {
        30
    } else if apply_on == "brand"@ || apply_on == "item_group"@ {
        20
    } else {
        10
    }
}

/// +2 for a customer-specific rule, +1 for a customer-group rule.
pub open spec fn audience_weight(customer_id: Option<u128>, customer_group_id: Option<u128>) -> int {
    (if customer_id is Some { 2int } else { 0int }) + (if customer_group_id is Some { 1int } else { 0int })
}

pub open spec fn opt_wf(o: Option<Dec>) -> bool {
    o matches Some(d) ==> d.wf()
}

impl Candidate {
    /// How narrowly the rule targets the line.
    pub open spec fn weight(&self) -> int {
        selector_weight(self.apply_on@) + audience_weight(self.customer_id, self.customer_group_id)
    }

    /// The rule's amounts are representable decimals.
    pub open spec fn wf(&self) -> bool {
        &&& opt_wf(self.rate)
        &&& opt_wf(self.discount_percentage)
        &&& opt_wf(self.discount_amount)
        &&& opt_wf(self.discount_upto)
    }

    /// Specificity: a more targeted selector or narrower audience wins a priority tie.
    pub fn specificity(&self) -> (r: i32)
        ensures
            r == self.weight(),
    {
        let base: i32 = if str_eq(self.apply_on.as_str(), "item") {
            30
        } else if str_eq(self.apply_on.as_str(), "brand") || str_eq(self.apply_on.as_str(), "item_group") {
            20
        } else {
            10
        };
        let c: i32 = if self.customer_id.is_some() { 2 } else { 0 };
        let g: i32 = if self.customer_group_id.is_some() { 1 } else { 0 };
        base + c + g
    }
}

/// `a` wins over `b`: higher priority, then higher specificity, then the later `valid_from`,
/// then the smaller id.
pub open spec fn precedes(a: Candidate, b: Candidate) -> bool {
    ||| a.priority > b.priority
    ||| (a.priority == b.priority && a.weight() > b.weight())
    ||| (a.priority == b.priority && a.weight() == b.weight() && b.valid_from.lt(&a.valid_from))
    ||| (a.priority == b.priority && a.weight() == b.weight() && a.valid_from == b.valid_from
        && a.id < b.id)
}

/// A coupon-gated rule applies only when the presented coupon unlocks this very rule.
pub open spec fn eligible(c: Candidate, unlocked_rule: Option<u128>) -> bool {
    !c.coupon_required || unlocked_rule == Some(c.id)
}

fn precedes_exec(a: &Candidate, b: &Candidate) -> (r: bool)
    ensures
        r == precedes(*a, *b),
{
    if a.priority != b.priority {
        return a.priority > b.priority;
    }
    let sa = a.specificity();
    let sb = b.specificity();
    if sa != sb {
        return sa > sb;
    }
    if a.valid_from.secs != b.valid_from.secs {
        return a.valid_from.secs > b.valid_from.secs;
    }
    if a.valid_from.nanos != b.valid_from.nanos {
        return a.valid_from.nanos > b.valid_from.nanos;
    }
    a.id < b.id
}

proof fn lemma_precedes_order(a: Candidate, b: Candidate, c: Candidate)
    ensures
        !precedes(a, a),
        precedes(a, b) && precedes(b, c) ==> precedes(a, c),
        precedes(a, b) ==> precedes(a, c) || precedes(c, b),
{
}

/// The winning eligible candidate: none precedes it, and every eligible candidate listed before
/// it is strictly worse (the first of equals wins, as a stable sort leaves it).
pub open spec fn is_winner(cands: Seq<Candidate>, unlocked_rule: Option<u128>, i: int) -> bool {
    &&& 0 <= i < cands.len()
    &&& eligible(cands[i], unlocked_rule)
    &&& forall|j: int| 0 <= j < cands.len() && eligible(cands[j], unlocked_rule) ==> !precedes(cands[j], cands[i])
    &&& forall|j: int| 0 <= j < i && eligible(cands[j], unlocked_rule) ==> precedes(cands[i], cands[j])
}

/// Pick the winning candidate among those the presented coupon leaves eligible.
pub fn pick_winner(cands: &Vec<Candidate>, unlocked_rule: Option<u128>) -> (r: Option<usize>)
    ensures
        r is None <==> (forall|j: int| 0 <= j < cands.len() ==> !eligible(#[trigger] cands@[j], unlocked_rule)),
        r matches Some(i) ==> is_winner(cands@, unlocked_rule, i as int),
{
    let mut best: Option<usize> = None;
    let mut k: usize = 0;
    while k < cands.len()
        invariant
            k <= cands.len(),
            best is None <==> (forall|j: int| 0 <= j < k ==> !eligible(#[trigger] cands@[j], unlocked_rule)),
            best matches Some(b) ==> {
                &&& b < k
                &&& eligible(cands@[b as int], unlocked_rule)
                &&& forall|j: int| 0 <= j < k && eligible(cands@[j], unlocked_rule) ==> !precedes(cands@[j], cands@[b as int])
                &&& forall|j: int| 0 <= j < b && eligible(cands@[j], unlocked_rule) ==> precedes(cands@[b as int], cands@[j])
            },
        decreases cands.len() - k,
    {
        let c = &cands[k];
        let ok = !c.coupon_required || unlocked_rule == Some(c.id);
        if ok {
            match best {
                None => {
                    best = Some(k);
                    proof {
                        assert forall|j: int| 0 <= j < k + 1 && eligible(cands@[j], unlocked_rule)
                            implies !precedes(cands@[j], cands@[k as int]) by {
                            lemma_precedes_order(cands@[j], cands@[j], cands@[j]);
                        }
                    }
                },
                Some(b) => {
                    if precedes_exec(c, &cands[b]) {
                        best = Some(k);
                        proof {
                            assert forall|j: int| 0 <= j < k + 1 && eligible(cands@[j], unlocked_rule)
                                implies !precedes(cands@[j], cands@[k as int]) by {
                                lemma_precedes_order(cands@[j], cands@[k as int], cands@[b as int]);
                                lemma_precedes_order(cands@[k as int], cands@[k as int], cands@[k as int]);
                            }
                            assert forall|j: int| 0 <= j < k && eligible(cands@[j], unlocked_rule)
                                implies precedes(cands@[k as int], cands@[j]) by {
                                lemma_precedes_order(cands@[k as int], cands@[b as int], cands@[j]);
                            }
                        }
                    }
                },
            }
        }
        k = k + 1;
    }
    best
}

// ---- the winner's effect -------------------------------------------------------------------

/// The unit price a rule's effect gives before clamping and rounding.
pub open spec fn raw_effect(c: Candidate, list_price: Dec) -> Dec {
    if c.rate_or_discount@ == "rate"@ {
        match c.rate {
            Some(r) => r,
            None => list_price,
        }
    } else if c.rate_or_discount@ == "discount_percentage"@ {
        let pct = min_of(
            match c.discount_percentage {
                Some(p) => p,
                None => zero_dec(),
            },
            hundred_dec(),
        );
        spec_dec_sub(list_price, spec_dec_div(spec_dec_mul(list_price, pct), hundred_dec()))
    } else if c.rate_or_discount@ == "discount_amount"@ {
        spec_dec_sub(
            list_price,
            match c.discount_amount {
                Some(d) => d,
                None => zero_dec(),
            },
        )
    } else {
        list_price
    }
}

/// The effective unit price of the winning rule's effect: never negative, rounded to cents.
pub open spec fn effect_dec(c: Candidate, list_price: Dec) -> Dec {
    money_dec(max_of(raw_effect(c, list_price), zero_dec()))
}

/// Where computing the winning rule's effect stays within the decimal range (where the
/// arithmetic does not panic): the percentage product, and the list price minus the discount.
pub open spec fn effect_fits(c: Candidate, list_price: Dec) -> bool {
    if c.rate_or_discount@ == "rate"@ {
        true
    } else if c.rate_or_discount@ == "discount_percentage"@ {
        let pct = min_of(
            match c.discount_percentage {
                Some(p) => p,
                None => zero_dec(),
            },
            hundred_dec(),
        );
        &&& product_fits(list_price, pct)
        &&& difference_fits(list_price, spec_dec_div(spec_dec_mul(list_price, pct), hundred_dec()))
    } else if c.rate_or_discount@ == "discount_amount"@ {
        difference_fits(
            list_price,
            match c.discount_amount {
                Some(d) => d,
                None => zero_dec(),
            },
        )
    } else {
        true
    }
}

/// Compute the effective unit price for the winning rule's effect.
pub fn apply_effect(c: &Candidate, list_price: Dec) -> (r: Dec)
    requires
        c.wf(),
        list_price.wf(),
        effect_fits(*c, list_price),
    ensures
        r.wf(),
        r == effect_dec(*c, list_price),
        r.units() >= 0,
        r.scale <= 2,
{
    let h = hundred();
    let unit_price = if str_eq(c.rate_or_discount.as_str(), "rate") {
        match c.rate {
            Some(r) => r,
            None => list_price,
        }
    } else if str_eq(c.rate_or_discount.as_str(), "discount_percentage") {
        let p = match c.discount_percentage {
            Some(p) => p,
            None => zero(),
        };
        let pct = p.min(h);
        let prod = dec_mul(list_price, pct);
        proof {
            lemma_percent_quotient_fits(prod.units(), list_price.units() * pct.units());
        }
        let q = dec_div(prod, h);
        dec_sub(list_price, q)
    } else if str_eq(c.rate_or_discount.as_str(), "discount_amount") {
        let d = match c.discount_amount {
            Some(d) => d,
            None => zero(),
        };
        dec_sub(list_price, d)
    } else {
        list_price
    };
    let clamped = unit_price.max(zero());
    proof {
        crate::decimal::lemma_money_units(clamped.units());
    }
    money(clamped)
}

/// A product within range, divided by one hundred, stays within range.
proof fn lemma_percent_quotient_fits(p: int, exact: int)
    requires
        abs(exact) <= max_units() * unit(),
        abs(p * unit() - exact) <= unit() * unit(),
    ensures
        abs(p) * unit() <= max_units() * abs(100 * unit()),
{
    assert(abs(p) * unit() <= max_units() * abs(100 * unit())) by (nonlinear_arith)
        requires
            abs(exact) <= max_units() * unit(),
            abs(p * unit() - exact) <= unit() * unit(),
            unit() > 0,
            max_units() == crate::decimal::MAX_MANTISSA * unit(),
    ;
}

// ---- the line price ------------------------------------------------------------------------

/// A line's quantity must be positive and its list price non-negative; the line's gross
/// (`quantity · list_price`, rounded to cents) is what the rule search matches amounts against.
pub fn validate_price_query(quantity: Dec, list_price: Dec) -> (r: Result<Dec, PricingError>)
    requires
        quantity.wf(),
        list_price.wf(),
        (quantity.units() > 0 && list_price.units() >= 0) ==> product_fits(quantity, list_price),
    ensures
        quantity.units() <= 0 ==> (r matches Err(e) && e.is_invalid("quantity must be positive"@)),
        quantity.units() > 0 && list_price.units() < 0 ==> (r matches Err(e) && e.is_invalid(
            "list_price must be non-negative"@,
        )),
        quantity.units() > 0 && list_price.units() >= 0 ==> (r matches Ok(g) && g == money_dec(
            spec_dec_mul(quantity, list_price),
        )),
{
    if !quantity.is_positive() {
        return Err(invalid("quantity must be positive"));
    }
    if list_price.is_negative() {
        return Err(invalid("list_price must be non-negative"));
    }
    Ok(money(dec_mul(quantity, list_price)))
}

/// The first per-unit discount: list minus the effect, never negative.
pub open spec fn first_discount(c: Candidate, list_price: Dec) -> Dec {
    max_of(spec_dec_sub(list_price, effect_dec(c, list_price)), zero_dec())
}

/// The per-unit discount the winning rule grants: list minus its effect (never negative), and
/// when `discount_upto` caps the line's total discount and the cap binds, the cap spread over
/// the quantity, rounded to cents.
pub open spec fn line_discount(c: Candidate, list_price: Dec, quantity: Dec) -> Dec {
    let d0 = first_discount(c, list_price);
    match c.discount_upto {
        Some(cap) => if cap.units() < spec_dec_mul(d0, quantity).units() {
            money_dec(spec_dec_div(cap, quantity))
        } else {
            d0
        },
        None => d0,
    }
}

/// The unit price after the discount, never negative.
pub open spec fn discounted_unit(c: Candidate, list_price: Dec, quantity: Dec) -> Dec {
    max_of(spec_dec_sub(list_price, line_discount(c, list_price, quantity)), zero_dec())
}

/// Where pricing a line with rule `c` stays within the decimal range (where the arithmetic does
/// not panic): the effect, the line's discount total when a cap is set, the cap spread over the
/// quantity when it binds, and the list price minus the discount.
pub open spec fn line_fits(c: Candidate, list_price: Dec, quantity: Dec) -> bool {
    let d0 = first_discount(c, list_price);
    &&& effect_fits(c, list_price)
    &&& (c.discount_upto matches Some(cap) ==> {
        &&& product_fits(d0, quantity)
        &&& cap.units() < spec_dec_mul(d0, quantity).units() ==> abs(cap.units()) * unit() <= max_units()
            * abs(quantity.units())
    })
    &&& difference_fits(list_price, line_discount(c, list_price, quantity))
}

/// The price the winning rule `w` gives a line.
pub fn price_with_rule(
    w: &Candidate,
    list_price: Dec,
    quantity: Dec,
    unlocked_coupon: Option<u128>,
) -> (r: ResolvedPrice)
    requires
        w.wf(),
        list_price.wf(),
        list_price.units() >= 0,
        quantity.wf(),
        quantity.units() > 0,
        line_fits(*w, list_price, quantity),
    ensures
        r.unit_price == discounted_unit(*w, list_price, quantity),
        r.discount_amount == money_dec(line_discount(*w, list_price, quantity)),
        r.applied_rule_id == Some(w.id),
        r.applied_coupon_id == (if w.coupon_required { unlocked_coupon } else { None }),
        r.unit_price.wf(),
        r.discount_amount.wf(),
        r.unit_price.units() >= 0,
        (list_price.scale <= 12 && list_price.units() <= 10000000000000000 * unit() && (w.discount_upto matches Some(
            cap,
        ) ==> cap.units() >= 0)) ==> {
            &&& r.unit_price.units() <= list_price.units()
            &&& r.discount_amount.units() >= 0
        },
        list_price.scale <= 12 && list_price.units() <= 10000000000000000 * unit() && is_cents(list_price.units())
            && 0 <= line_discount(*w, list_price, quantity).units() <= list_price.units()
            ==> r.discount_amount.units() == list_price.units() - r.unit_price.units(),
{
    let base_unit = apply_effect(w, list_price);
    proof {
        crate::decimal::lemma_wf_units_bound(list_price);
        crate::decimal::lemma_wf_units_bound(base_unit);
    }
    let diff = dec_sub(list_price, base_unit);
    let d0 = diff.max(zero());
    proof {
        lemma_first_discount(list_price, base_unit, diff, d0);
    }
    let mut discount = d0;
    match w.discount_upto {
        Some(cap) => {
            let line_total = dec_mul(d0, quantity);
            if cap.lt(&line_total) {
                let q = dec_div(cap, quantity);
                proof {
                    lemma_money_units(q.units());
                }
                discount = money(q);
            }
        },
        None => {},
    }
    proof {
        lemma_money_units(discount.units());
        lemma_money_units(d0.units());
        if discount.scale <= 2 {
            crate::decimal::lemma_scale2_is_cents(discount);
        }
    }
    let net = dec_sub(list_price, discount);
    let unit_price = net.max(zero());
    proof {
        lemma_second_discount(list_price, discount, net, unit_price);
    }
    ResolvedPrice {
        unit_price,
        discount_amount: money(discount),
        applied_rule_id: Some(w.id),
        applied_coupon_id: if w.coupon_required { unlocked_coupon } else { None },
    }
}

/// `d0 = max(list - effect, 0)` lies in `[0, list + 1]`, and in `[0, list]` for a list price at
/// scale <= 12 within `10^16`.
proof fn lemma_first_discount(list: Dec, e: Dec, diff: Dec, d0: Dec)
    requires
        list.wf(),
        list.units() >= 0,
        e.wf(),
        e.units() >= 0,
        e.scale <= 2,
        diff.wf(),
        abs(diff.units() - (list.units() - e.units())) <= unit(),
        (list.scale <= 12 && e.scale <= 12 && abs(list.units() - e.units()) <= 10000000000000000 * unit())
            ==> (diff.units() == list.units() - e.units() && diff.scale <= (if list.scale >= e.scale { list.scale } else { e.scale })),
        d0 == max_of(diff, zero_dec()),
    ensures
        d0.wf(),
        0 <= d0.units() <= list.units() + unit(),
        (list.scale <= 12 && list.units() <= 10000000000000000 * unit()) ==> (d0.units() <= list.units() && d0.scale <= 12),
        (list.scale <= 12 && list.units() <= 10000000000000000 * unit() && is_cents(list.units())) ==> is_cents(d0.units()),
{
    assert(zero_dec().units() == 0);
    crate::decimal::lemma_scale2_is_cents(e);
    crate::decimal::lemma_cents_add_sub(e.units(), e.units());
    if is_cents(list.units()) {
        crate::decimal::lemma_cents_add_sub(list.units(), e.units());
    }
}

/// The clamped unit price is never negative; with a non-negative discount at scale <= 12 and a
/// list price within `10^16` it is at most the list price; and for a discount within the list
/// price, list minus unit price is the discount.
proof fn lemma_second_discount(list: Dec, disc: Dec, net: Dec, unit_price: Dec)
    requires
        list.wf(),
        list.units() >= 0,
        disc.wf(),
        abs(net.units() - (list.units() - disc.units())) <= unit(),
        (list.scale <= 12 && disc.scale <= 12 && abs(list.units() - disc.units()) <= 10000000000000000 * unit())
            ==> net.units() == list.units() - disc.units(),
        unit_price == max_of(net, zero_dec()),
    ensures
        unit_price.units() >= 0,
        (list.scale <= 12 && disc.scale <= 12 && disc.units() >= 0 && list.units() <= 10000000000000000 * unit())
            ==> unit_price.units() <= list.units(),
        (list.scale <= 12 && disc.scale <= 12 && 0 <= disc.units() <= list.units() && list.units()
            <= 10000000000000000 * unit()) ==> unit_price.units() == list.units() - disc.units(),
{
    assert(zero_dec().units() == 0);
}

/// Resolve a line against the structural candidates: the coupon-eligible winner's price, or the
/// list price when no candidate is eligible.  `unlocked` is the presented coupon and the rule it
/// unlocks.
pub fn price_line(
    list_price: Dec,
    quantity: Dec,
    cands: &Vec<Candidate>,
    unlocked: Option<(u128, u128)>,
) -> (r: ResolvedPrice)
    requires
        list_price.wf(),
        list_price.units() >= 0,
        quantity.wf(),
        quantity.units() > 0,
        forall|i: int| 0 <= i < cands.len() ==> (#[trigger] cands@[i]).wf(),
        forall|i: int| is_winner(cands@, unlocked_rule(unlocked), i) ==> line_fits(cands@[i], list_price, quantity),
    ensures
        (forall|j: int| 0 <= j < cands.len() ==> !eligible(#[trigger] cands@[j], unlocked_rule(unlocked)))
            ==> (r.unit_price == list_price && r.discount_amount == zero_dec() && r.applied_rule_id is None
            && r.applied_coupon_id is None),
        forall|i: int| is_winner(cands@, unlocked_rule(unlocked), i) ==> {
            &&& r.unit_price == discounted_unit(cands@[i], list_price, quantity)
            &&& r.discount_amount == money_dec(line_discount(cands@[i], list_price, quantity))
            &&& r.applied_rule_id == Some(cands@[i].id)
            &&& r.applied_coupon_id == (if cands@[i].coupon_required { unlocked_coupon(unlocked) } else { None })
        },
        (exists|j: int| 0 <= j < cands.len() && eligible(#[trigger] cands@[j], unlocked_rule(unlocked)))
            ==> exists|i: int| is_winner(cands@, unlocked_rule(unlocked), i),
        r.unit_price.units() >= 0,
{
    let rule = match unlocked {
        Some(p) => Some(p.1),
        None => None,
    };
    let coupon = match unlocked {
        Some(p) => Some(p.0),
        None => None,
    };
    match pick_winner(cands, rule) {
        None => ResolvedPrice::passthrough(list_price),
        Some(i) => {
            proof {
                assert forall|k: int| is_winner(cands@, rule, k) implies k == i as int by {
                    lemma_winner_unique(cands@, rule, k, i as int);
                }
            }
            price_with_rule(&cands[i], list_price, quantity, coupon)
        },
    }
}

/// The rule the presented coupon unlocks.
pub open spec fn unlocked_rule(unlocked: Option<(u128, u128)>) -> Option<u128> {
    match unlocked {
        Some(p) => Some(p.1),
        None => None,
    }
}

/// The presented coupon itself.
pub open spec fn unlocked_coupon(unlocked: Option<(u128, u128)>) -> Option<u128> {
    match unlocked {
        Some(p) => Some(p.0),
        None => None,
    }
}

/// There is at most one winner.
pub proof fn lemma_winner_unique(cands: Seq<Candidate>, rule: Option<u128>, i: int, k: int)
    requires
        is_winner(cands, rule, i),
        is_winner(cands, rule, k),
    ensures
        i == k,
{
    if i < k {
        assert(precedes(cands[k], cands[i]));
    } else if k < i {
        assert(precedes(cands[i], cands[k]));
    }
}


/// No two candidates share an id.
pub open spec fn ids_distinct(cands: Seq<Candidate>) -> bool {
    forall|a: int, b: int| 0 <= a < cands.len() && 0 <= b < cands.len() && #[trigger] cands[a].id == #[trigger] cands[b].id ==> a == b
}

/// The winner does not depend on the order the candidates are listed in: over the same
/// candidates (no two sharing an id), any two listings have the same winning rule.
pub proof fn lemma_winner_order_independent(
    s1: Seq<Candidate>,
    s2: Seq<Candidate>,
    rule: Option<u128>,
    i: int,
    j: int,
)
    requires
        s1.to_multiset() == s2.to_multiset(),
        ids_distinct(s2),
        is_winner(s1, rule, i),
        is_winner(s2, rule, j),
    ensures
        s1[i] == s2[j],
{
    broadcast use vstd::seq_lib::to_multiset_contains;
    let w1 = s1[i];
    let w2 = s2[j];
    assert(s1.contains(w1));
    assert(s1.to_multiset().count(w1) > 0);
    assert(s2.contains(w1));
    let k = choose|k: int| 0 <= k < s2.len() && s2[k] == w1;
    assert(s2.contains(w2));
    assert(s2.to_multiset().count(w2) > 0);
    assert(s1.contains(w2));
    let m = choose|m: int| 0 <= m < s1.len() && s1[m] == w2;
    assert(!precedes(s2[k], s2[j]));
    assert(!precedes(s1[m], s1[i]));
    if k != j {
        assert(s2[k].id != s2[j].id);
    }
}

} // verus!
