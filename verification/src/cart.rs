//! Cart-scoped price resolution: bundles and order-level rules on top of the per-line prices,
//! with every order-level discount allocated back across the lines it came from.
//!
//! Decimal arithmetic here uses the checked operations: a function returns `None` exactly where
//! one of its decimal operations would leave the decimal range.

use vstd::prelude::*;
use crate::decimal::{
    Dec, abs, unit, cent, money_dec, money_units, floor_dec, is_cents, money, dec_floor,
    dec_checked_add, dec_checked_sub, dec_checked_mul, dec_checked_div, spec_checked_add,
    spec_checked_sub, spec_checked_mul, spec_checked_div, lemma_pow10_28, lemma_money_units,
    lemma_cents_add_sub, lemma_scale2_is_cents, lemma_money_le_cents,
};
use crate::loyalty::min_of;
use crate::resolve::{PriceQuery, ResolvedPrice, max_of, zero_dec, hundred_dec, zero, hundred};
use crate::text::str_eq;
use crate::penny::{tie_nets, tie_out, tie_in_range, net_units_sum, nets_cents, nets_nonneg};
use crate::timestamp::BackboneTimestamp;

verus! {

/// One basket line: the caller's stable id and the line's pricing dimensions.
#[derive(Debug, Clone)]
pub struct CartLine {
    pub line_id: u128,
    pub query: PriceQuery,
}

/// A line's result inside a cart.
#[derive(Debug, Clone, Copy)]
pub struct ResolvedLine {
    pub line_id: u128,
    pub item_id: u128,
    pub quantity: Dec,
    /// Effective unit price after per-line rules.
    pub unit_price: Dec,
    /// Per-unit discount of the winning per-line rule.
    pub line_discount_amount: Dec,
    pub applied_rule_id: Option<u128>,
    /// This line's share of the order-level discounts.
    pub order_discount_share: Dec,
    /// `unit_price · quantity − order_discount_share`, never negative; in a resolved cart the
    /// nets are tied out to the total, so a line may carry a rounding cent of the basket.
    pub net_line_total: Dec,
}

impl ResolvedLine {
    pub open spec fn wf(&self) -> bool {
        &&& self.quantity.wf()
        &&& self.unit_price.wf()
        &&& self.line_discount_amount.wf()
        &&& self.order_discount_share.wf()
        &&& self.net_line_total.wf()
    }
}

pub open spec fn lines_wf(ls: Seq<ResolvedLine>) -> bool {
    forall|i: int| 0 <= i < ls.len() ==> (#[trigger] ls[i]).wf()
}

/// The decimal one as `Decimal::ONE` holds it.
pub open spec fn one_dec() -> Dec {
    Dec { mantissa: 1, scale: 0 }
}

fn one() -> (r: Dec)
    ensures
        r == one_dec(),
        r.wf(),
        r.units() == unit(),
{
    proof {
        lemma_pow10_28();
    }
    Dec { mantissa: 1, scale: 0 }
}

pub open spec fn opt_dec(o: Option<Dec>) -> Dec {
    match o {
        Some(d) => d,
        None => zero_dec(),
    }
}

pub open spec fn opt_wf(o: Option<Dec>) -> bool {
    o matches Some(d) ==> d.wf()
}

fn opt_or_zero(o: Option<Dec>) -> (r: Dec)
    requires
        opt_wf(o),
    ensures
        r == opt_dec(o),
        r.wf(),
{
    match o {
        Some(d) => d,
        None => zero(),
    }
}

fn same_id(a: Option<u128>, b: Option<u128>) -> (r: bool)
    ensures
        r == (a == b),
{
    match (a, b) {
        (Some(x), Some(y)) => x == y,
        (None, None) => true,
        _ => false,
    }
}

// ---- order-scoped rules --------------------------------------------------------------------

/// A `scope=order` rule pulled for the cart's order pass.
#[derive(Debug, Clone)]
pub struct OrderRuleCand {
    pub id: u128,
    pub priority: i32,
    pub customer_id: Option<u128>,
    pub customer_group_id: Option<u128>,
    pub coupon_required: bool,
    pub rate_or_discount: String,
    pub discount_percentage: Option<Dec>,
    pub discount_amount: Option<Dec>,
    pub discount_upto: Option<Dec>,
    pub stackable: bool,
    pub valid_from: BackboneTimestamp,
}

impl OrderRuleCand {
    pub open spec fn wf(&self) -> bool {
        opt_wf(self.discount_percentage) && opt_wf(self.discount_amount) && opt_wf(self.discount_upto)
    }

    /// +2 for a customer match, +1 for a group match.
    pub open spec fn weight(&self) -> int {
        (if self.customer_id is Some { 2int } else { 0int }) + (if self.customer_group_id is Some { 1int } else { 0int })
    }

    /// A narrower audience wins a priority tie.
    pub fn specificity(&self) -> (r: i32)
        ensures
            r == self.weight(),
    {
        (if self.customer_id.is_some() { 2 } else { 0 }) + (if self.customer_group_id.is_some() { 1 } else { 0 })
    }
}

/// The discount an order rule takes off `base` before its cap: a percentage (at most 100) of
/// the base or a fixed amount, rounded to cents; any other effect gives nothing.
pub open spec fn order_raw_discount(r: OrderRuleCand, base: Dec) -> Option<Dec> {
    if r.rate_or_discount@ == "discount_percentage"@ {
        let pct = min_of(opt_dec(r.discount_percentage), hundred_dec());
        match spec_checked_mul(base, pct) {
            None => None,
            Some(p) => match spec_checked_div(p, hundred_dec()) {
                None => None,
                Some(q) => Some(money_dec(q)),
            },
        }
    } else if r.rate_or_discount@ == "discount_amount"@ {
        Some(money_dec(opt_dec(r.discount_amount)))
    } else {
        Some(zero_dec())
    }
}

/// The discount an order rule takes off `base`, capped by a positive `discount_upto`.
pub open spec fn order_discount(r: OrderRuleCand, base: Dec) -> Option<Dec> {
    match order_raw_discount(r, base) {
        None => None,
        Some(raw) => match r.discount_upto {
            Some(cap) => if cap.units() > 0 { Some(min_of(raw, cap)) } else { Some(raw) },
            None => Some(raw),
        },
    }
}

impl OrderRuleCand {
    /// The discount this rule takes off `base` (the remaining order value); `None` when the
    /// decimal arithmetic overflows.
    pub fn discount_on(&self, base: Dec) -> (r: Option<Dec>)
        requires
            self.wf(),
            base.wf(),
        ensures
            r == order_discount(*self, base),
            r matches Some(d) ==> d.wf(),
            (r is Some && self.discount_upto is Some && self.discount_upto.unwrap().units() > 0)
                ==> r.unwrap().units() <= self.discount_upto.unwrap().units(),
    {
        let h = hundred();
        let raw = if str_eq(self.rate_or_discount.as_str(), "discount_percentage") {
            let pct = opt_or_zero(self.discount_percentage).min(h);
            let p = match dec_checked_mul(base, pct) {
                Some(p) => p,
                None => return None,
            };
            let q = match dec_checked_div(p, h) {
                Some(q) => q,
                None => return None,
            };
            money(q)
        } else if str_eq(self.rate_or_discount.as_str(), "discount_amount") {
            money(opt_or_zero(self.discount_amount))
        } else {
            zero()
        };
        match self.discount_upto {
            Some(cap) => {
                if cap.is_positive() {
                    Some(raw.min(cap))
                } else {
                    Some(raw)
                }
            },
            None => Some(raw),
        }
    }
}

// ---- bundles -------------------------------------------------------------------------------

/// One component of a bundle: a selector and the quantity one satisfied set needs.
#[derive(Debug, Clone)]
pub struct BundleComponentCand {
    pub apply_on: String,
    pub item_id: Option<u128>,
    pub item_group_id: Option<u128>,
    pub brand_id: Option<u128>,
    pub min_qty: Dec,
}

/// Does a resolved line (with its cart line) satisfy the component's selector?
pub open spec fn component_matches(c: BundleComponentCand, l: ResolvedLine, cl: CartLine) -> bool {
    if c.apply_on@ == "item"@ {
        c.item_id == Some(l.item_id)
    } else if c.apply_on@ == "item_group"@ {
        c.item_group_id is Some && c.item_group_id == cl.query.item_group_id
    } else if c.apply_on@ == "brand"@ {
        c.brand_id is Some && c.brand_id == cl.query.brand_id
    } else {
        false
    }
}

impl BundleComponentCand {
    /// Does this resolved line satisfy this component's selector?
    pub fn matches(&self, l: &ResolvedLine, cart_line: &CartLine) -> (r: bool)
        ensures
            r == component_matches(*self, *l, *cart_line),
    {
        if str_eq(self.apply_on.as_str(), "item") {
            same_id(self.item_id, Some(l.item_id))
        } else if str_eq(self.apply_on.as_str(), "item_group") {
            self.item_group_id.is_some() && same_id(self.item_group_id, cart_line.query.item_group_id)
        } else if str_eq(self.apply_on.as_str(), "brand") {
            self.brand_id.is_some() && same_id(self.brand_id, cart_line.query.brand_id)
        } else {
            false
        }
    }
}

/// A bundle pulled for the cart's bundle pass, with its components and gifts.
#[derive(Debug, Clone)]
pub struct BundleCand {
    pub id: u128,
    pub match_type: String,
    pub required_distinct: Option<i32>,
    pub reward: String,
    pub discount_percentage: Option<Dec>,
    pub discount_amount: Option<Dec>,
    pub reward_item_id: Option<u128>,
    pub reward_qty: Option<Dec>,
    pub stackable: bool,
    pub components: Vec<BundleComponentCand>,
    pub gifts: Vec<(u128, Dec)>,
}

impl BundleCand {
    pub open spec fn wf(&self) -> bool {
        &&& opt_wf(self.discount_percentage)
        &&& opt_wf(self.discount_amount)
        &&& opt_wf(self.reward_qty)
        &&& self.components.len() <= 0x7fff_ffff
        &&& forall|i: int| 0 <= i < self.components.len() ==> (#[trigger] self.components@[i]).min_qty.wf()
        &&& forall|i: int| 0 <= i < self.gifts.len() ==> (#[trigger] self.gifts@[i]).1.wf()
    }
}

/// The quantity matched by a component over the first `k` line pairs, with the matched ids.
pub open spec fn fill_prefix(
    c: BundleComponentCand,
    cls: Seq<CartLine>,
    ls: Seq<ResolvedLine>,
    k: int,
) -> Option<(Dec, Seq<u128>)>
    decreases k,
{
    if k <= 0 {
        Some((zero_dec(), Seq::<u128>::empty()))
    } else {
        match fill_prefix(c, cls, ls, k - 1) {
            None => None,
            Some(acc) => if component_matches(c, ls[k - 1], cls[k - 1]) {
                match spec_checked_add(acc.0, ls[k - 1].quantity) {
                    None => None,
                    Some(q) => Some((q, acc.1.push(ls[k - 1].line_id))),
                }
            } else {
                Some(acc)
            },
        }
    }
}

/// Whole sets a matched quantity makes: `floor(qty / min_qty)`, none without a positive
/// `min_qty`.
pub open spec fn sets_of(c: BundleComponentCand, qty: Dec) -> Option<Dec> {
    if c.min_qty.units() > 0 {
        match spec_checked_div(qty, c.min_qty) {
            None => None,
            Some(x) => Some(floor_dec(x)),
        }
    } else {
        Some(zero_dec())
    }
}

/// `(sets, matched line ids)` of one component over the paired lines.
pub open spec fn component_fill_spec(
    c: BundleComponentCand,
    cls: Seq<CartLine>,
    ls: Seq<ResolvedLine>,
) -> Option<(Dec, Seq<u128>)> {
    let n = if cls.len() < ls.len() { cls.len() as int } else { ls.len() as int };
    match fill_prefix(c, cls, ls, n) {
        None => None,
        Some(acc) => match sets_of(c, acc.0) {
            None => None,
            Some(s) => Some((s, acc.1)),
        },
    }
}

/// `ids` extended by the elements of `new` not yet present, in order.
pub open spec fn merge_ids(ids: Seq<u128>, new: Seq<u128>) -> Seq<u128>
    decreases new.len(),
{
    if new.len() == 0 {
        ids
    } else {
        let m = merge_ids(ids, new.drop_last());
        if m.contains(new.last()) {
            m
        } else {
            m.push(new.last())
        }
    }
}

/// Running state over the first `k` components: how many are satisfied (at least one set), the
/// fewest sets among them, and the contributing line ids.
pub open spec fn sat_prefix(
    b: BundleCand,
    cls: Seq<CartLine>,
    ls: Seq<ResolvedLine>,
    k: int,
) -> Option<(int, Option<Dec>, Seq<u128>)>
    decreases k,
{
    if k <= 0 {
        Some((0, None, Seq::<u128>::empty()))
    } else {
        match sat_prefix(b, cls, ls, k - 1) {
            None => None,
            Some(st) => match component_fill_spec(b.components@[k - 1], cls, ls) {
                None => None,
                Some(f) => if f.0.units() >= unit() {
                    Some(
                        (
                            st.0 + 1,
                            Some(
                                match st.1 {
                                    None => f.0,
                                    Some(m) => min_of(m, f.0),
                                },
                            ),
                            merge_ids(st.2, f.1),
                        ),
                    )
                } else {
                    Some(st)
                },
            },
        }
    }
}

/// Satisfied sets of the whole bundle: for `any_n`, one set when at least `required_distinct`
/// (default: all, at least 1) components are present; otherwise the fewest sets across the
/// components, provided every component is present.
pub open spec fn bundle_sets(b: BundleCand, cls: Seq<CartLine>, ls: Seq<ResolvedLine>) -> Option<(Dec, Seq<u128>)> {
    match sat_prefix(b, cls, ls, b.components.len() as int) {
        None => None,
        Some(st) => {
            let n = b.components.len() as int;
            let sets = if b.match_type@ == "any_n"@ {
                let need0 = match b.required_distinct {
                    Some(d) => d as int,
                    None => n,
                };
                let need = if need0 < 1 { 1 } else { need0 };
                if st.0 >= need { one_dec() } else { zero_dec() }
            } else {
                if st.0 == n {
                    match st.1 {
                        Some(m) => m,
                        None => zero_dec(),
                    }
                } else {
                    zero_dec()
                }
            };
            Some((sets, st.2))
        },
    }
}

impl BundleCand {
    /// Sets of one component in the cart and the ids of the lines that matched it.
    pub fn component_fill(
        &self,
        comp: &BundleComponentCand,
        cart_lines: &Vec<CartLine>,
        lines: &Vec<ResolvedLine>,
    ) -> (r: Option<(Dec, Vec<u128>)>)
        requires
            comp.min_qty.wf(),
            lines_wf(lines@),
        ensures
            r is Some <==> component_fill_spec(*comp, cart_lines@, lines@) is Some,
            r matches Some(v) ==> (v.0 == component_fill_spec(*comp, cart_lines@, lines@).unwrap().0
                && v.1@ == component_fill_spec(*comp, cart_lines@, lines@).unwrap().1 && v.0.wf()),
    {
        let n = if cart_lines.len() < lines.len() { cart_lines.len() } else { lines.len() };
        let mut qty = zero();
        let mut ids: Vec<u128> = Vec::new();
        let mut k: usize = 0;
        while k < n
            invariant
                n == (if cart_lines.len() < lines.len() { cart_lines.len() } else { lines.len() }),
                k <= n,
                lines_wf(lines@),
                qty.wf(),
                fill_prefix(*comp, cart_lines@, lines@, k as int) == Some((qty, ids@)),
            decreases n - k,
        {
            let l = &lines[k];
            if comp.matches(l, &cart_lines[k]) {
                proof {
                    assert(lines@[k as int].wf());
                }
                qty = match dec_checked_add(qty, l.quantity) {
                    Some(q) => q,
                    None => {
                        proof {
                            lemma_fill_prefix_none(*comp, cart_lines@, lines@, k as int + 1, n as int);
                            let nn = if cart_lines@.len() < lines@.len() { cart_lines@.len() as int } else { lines@.len() as int };
                            assert(nn == n as int);
                            assert(fill_prefix(*comp, cart_lines@, lines@, nn) is None);
                        }
                        return None;
                    },
                };
                ids.push(l.line_id);
            }
            k = k + 1;
        }
        let sets = if comp.min_qty.is_positive() {
            match dec_checked_div(qty, comp.min_qty) {
                Some(x) => dec_floor(x),
                None => return None,
            }
        } else {
            zero()
        };
        Some((sets, ids))
    }
}

/// Once the running fill overflows it stays overflowed.
proof fn lemma_fill_prefix_none(
    c: BundleComponentCand,
    cls: Seq<CartLine>,
    ls: Seq<ResolvedLine>,
    k: int,
    n: int,
)
    requires
        0 < k <= n,
        fill_prefix(c, cls, ls, k) is None,
    ensures
        fill_prefix(c, cls, ls, n) is None,
    decreases n - k,
{
    if k < n {
        assert(fill_prefix(c, cls, ls, k + 1) is None);
        lemma_fill_prefix_none(c, cls, ls, k + 1, n);
    }
}

/// Whether `v` holds `x`.
fn contains_id(v: &Vec<u128>, x: u128) -> (r: bool)
    ensures
        r == v@.contains(x),
{
    let mut i: usize = 0;
    while i < v.len()
        invariant
            i <= v.len(),
            forall|j: int| 0 <= j < i ==> v@[j] != x,
        decreases v.len() - i,
    {
        if v[i] == x {
            proof {
                assert(v@[i as int] == x);
            }
            return true;
        }
        i = i + 1;
    }
    false
}

/// Append to `ids` the elements of `new` it does not hold yet.
fn merge_into(ids: &mut Vec<u128>, new: &Vec<u128>)
    ensures
        final(ids)@ == merge_ids(old(ids)@, new@),
{
    let ghost start = ids@;
    let mut j: usize = 0;
    while j < new.len()
        invariant
            j <= new.len(),
            ids@ == merge_ids(start, new@.subrange(0, j as int)),
        decreases new.len() - j,
    {
        proof {
            assert(new@.subrange(0, j + 1).drop_last() =~= new@.subrange(0, j as int));
        }
        let x = new[j];
        if !contains_id(ids, x) {
            ids.push(x);
        }
        j = j + 1;
    }
    proof {
        assert(new@.subrange(0, new.len() as int) =~= new@);
    }
}

/// Once the running component state overflows it stays overflowed.
proof fn lemma_sat_prefix_none(b: BundleCand, cls: Seq<CartLine>, ls: Seq<ResolvedLine>, k: int, n: int)
    requires
        0 < k <= n,
        sat_prefix(b, cls, ls, k) is None,
    ensures
        sat_prefix(b, cls, ls, n) is None,
    decreases n - k,
{
    if k < n {
        assert(sat_prefix(b, cls, ls, k + 1) is None);
        lemma_sat_prefix_none(b, cls, ls, k + 1, n);
    }
}

/// The free item a buy-X-get-Y bundle grants when satisfied: `(reward_item, reward_qty · sets)`
/// when that quantity is positive.  The outer `Option` is `None` on decimal overflow.
pub open spec fn free_reward_spec(b: BundleCand, cls: Seq<CartLine>, ls: Seq<ResolvedLine>) -> Option<Option<(u128, Dec)>> {
    match b.reward_item_id {
        None => Some(None),
        Some(item) => match bundle_sets(b, cls, ls) {
            None => None,
            Some(st) => if st.0.units() < unit() {
                Some(None)
            } else {
                match spec_checked_mul(opt_dec(b.reward_qty), st.0) {
                    None => None,
                    Some(q) => if q.units() <= 0 { Some(None) } else { Some(Some((item, q))) },
                }
            },
        },
    }
}

/// The gifts over the first `k` entries of the gift list: `(gift_item, gift_qty · sets)` for
/// each positive quantity.
pub open spec fn gifts_prefix(gifts: Seq<(u128, Dec)>, sets: Dec, k: int) -> Option<Seq<(u128, Dec)>>
    decreases k,
{
    if k <= 0 {
        Some(Seq::<(u128, Dec)>::empty())
    } else {
        match gifts_prefix(gifts, sets, k - 1) {
            None => None,
            Some(acc) => match spec_checked_mul(gifts[k - 1].1, sets) {
                None => None,
                Some(q) => if q.units() > 0 { Some(acc.push((gifts[k - 1].0, q))) } else { Some(acc) },
            },
        }
    }
}

/// The free items of a satisfied bundle's gift list (empty when it has none or is unsatisfied).
pub open spec fn free_rewards_spec(b: BundleCand, cls: Seq<CartLine>, ls: Seq<ResolvedLine>) -> Option<Seq<(u128, Dec)>> {
    match bundle_sets(b, cls, ls) {
        None => None,
        Some(st) => if st.0.units() < unit() || b.gifts.len() == 0 {
            Some(Seq::<(u128, Dec)>::empty())
        } else {
            gifts_prefix(b.gifts@, st.0, b.gifts.len() as int)
        },
    }
}

/// Σ `unit_price · quantity` over the first `k` lines whose id is in `ids`.
pub open spec fn matched_prefix(ls: Seq<ResolvedLine>, ids: Seq<u128>, k: int) -> Option<Dec>
    decreases k,
{
    if k <= 0 {
        Some(zero_dec())
    } else {
        match matched_prefix(ls, ids, k - 1) {
            None => None,
            Some(acc) => if ids.contains(ls[k - 1].line_id) {
                match spec_checked_mul(ls[k - 1].unit_price, ls[k - 1].quantity) {
                    None => None,
                    Some(g) => spec_checked_add(acc, g),
                }
            } else {
                Some(acc)
            },
        }
    }
}

/// The discount a satisfied bundle grants on the value of its contributing lines: a percentage
/// (at most 100) of that value, or a fixed amount per satisfied set, rounded to cents; never more
/// than the value.
pub open spec fn bundle_reward_spec(b: BundleCand, cls: Seq<CartLine>, ls: Seq<ResolvedLine>) -> Option<(Dec, Seq<u128>)> {
    match bundle_sets(b, cls, ls) {
        None => None,
        Some(st) => if st.0.units() < unit() {
            Some((zero_dec(), Seq::<u128>::empty()))
        } else {
            match matched_prefix(ls, st.1, ls.len() as int) {
                None => None,
                Some(total) => {
                    let value = money_dec(total);
                    let disc = if b.reward@ == "discount_percentage"@ {
                        let pct = min_of(opt_dec(b.discount_percentage), hundred_dec());
                        match spec_checked_mul(value, pct) {
                            None => None,
                            Some(p) => match spec_checked_div(p, hundred_dec()) {
                                None => None,
                                Some(q) => Some(money_dec(q)),
                            },
                        }
                    } else if b.reward@ == "discount_amount"@ {
                        match spec_checked_mul(opt_dec(b.discount_amount), st.0) {
                            None => None,
                            Some(p) => Some(money_dec(p)),
                        }
                    } else {
                        Some(zero_dec())
                    };
                    match disc {
                        None => None,
                        Some(d) => Some((min_of(d, value), st.1)),
                    }
                },
            }
        },
    }
}

impl BundleCand {
    /// Satisfied sets of the whole bundle and the contributing line ids.
    pub fn satisfied_sets(&self, cart_lines: &Vec<CartLine>, lines: &Vec<ResolvedLine>) -> (r: Option<(Dec, Vec<u128>)>)
        requires
            self.wf(),
            lines_wf(lines@),
        ensures
            r is Some <==> bundle_sets(*self, cart_lines@, lines@) is Some,
            r matches Some(v) ==> (v.0 == bundle_sets(*self, cart_lines@, lines@).unwrap().0
                && v.1@ == bundle_sets(*self, cart_lines@, lines@).unwrap().1 && v.0.wf()),
    {
        let mut satisfied: i32 = 0;
        let mut min_sets: Option<Dec> = None;
        let mut contributing: Vec<u128> = Vec::new();
        let n = self.components.len();
        let one = one();
        let mut k: usize = 0;
        while k < n
            invariant
                n == self.components.len(),
                n <= 0x7fff_ffff,
                k <= n,
                self.wf(),
                lines_wf(lines@),
                0 <= satisfied <= k,
                opt_wf(min_sets),
                one == one_dec(),
                one.units() == unit(),
                sat_prefix(*self, cart_lines@, lines@, k as int) == Some((satisfied as int, min_sets, contributing@)),
            decreases n - k,
        {
            let comp = &self.components[k];
            proof {
                assert(self.components@[k as int].min_qty.wf());
            }
            let (sets, ids) = match self.component_fill(comp, cart_lines, lines) {
                Some(v) => v,
                None => {
                    proof {
                        assert(sat_prefix(*self, cart_lines@, lines@, k as int + 1) is None);
                        lemma_sat_prefix_none(*self, cart_lines@, lines@, k as int + 1, n as int);
                    }
                    return None;
                },
            };
            if one.le(&sets) {
                satisfied = satisfied + 1;
                min_sets = Some(
                    match min_sets {
                        None => sets,
                        Some(m) => m.min(sets),
                    },
                );
                merge_into(&mut contributing, &ids);
            }
            k = k + 1;
        }
        let sets = if str_eq(self.match_type.as_str(), "any_n") {
            let need0: i32 = match self.required_distinct {
                Some(d) => d,
                None => n as i32,
            };
            let need: i32 = if need0 < 1 { 1 } else { need0 };
            if satisfied >= need { one } else { zero() }
        } else {
            if satisfied == n as i32 {
                match min_sets {
                    Some(m) => m,
                    None => zero(),
                }
            } else {
                zero()
            }
        };
        Some((sets, contributing))
    }

    /// The free item this bundle grants, if it is a satisfied buy-X-get-Y bundle.  `None` on
    /// decimal overflow.
    pub fn free_reward(&self, cart_lines: &Vec<CartLine>, lines: &Vec<ResolvedLine>) -> (r: Option<Option<(u128, Dec)>>)
        requires
            self.wf(),
            lines_wf(lines@),
        ensures
            r == free_reward_spec(*self, cart_lines@, lines@),
    {
        let item = match self.reward_item_id {
            Some(i) => i,
            None => return Some(None),
        };
        let (sets, _ids) = match self.satisfied_sets(cart_lines, lines) {
            Some(v) => v,
            None => return None,
        };
        if sets.lt(&one()) {
            return Some(None);
        }
        let per_set = opt_or_zero(self.reward_qty);
        let qty = match dec_checked_mul(per_set, sets) {
            Some(q) => q,
            None => return None,
        };
        if !qty.is_positive() {
            return Some(None);
        }
        Some(Some((item, qty)))
    }

    /// The free items of this bundle's gift list when it is satisfied.  `None` on decimal
    /// overflow.
    pub fn free_rewards(&self, cart_lines: &Vec<CartLine>, lines: &Vec<ResolvedLine>) -> (r: Option<Vec<(u128, Dec)>>)
        requires
            self.wf(),
            lines_wf(lines@),
        ensures
            r is Some <==> free_rewards_spec(*self, cart_lines@, lines@) is Some,
            r matches Some(v) ==> v@ == free_rewards_spec(*self, cart_lines@, lines@).unwrap(),
    {
        let (sets, _ids) = match self.satisfied_sets(cart_lines, lines) {
            Some(v) => v,
            None => return None,
        };
        if sets.lt(&one()) || self.gifts.len() == 0 {
            return Some(Vec::new());
        }
        let mut out: Vec<(u128, Dec)> = Vec::new();
        let mut k: usize = 0;
        while k < self.gifts.len()
            invariant
                k <= self.gifts.len(),
                self.wf(),
                sets.wf(),
                gifts_prefix(self.gifts@, sets, k as int) == Some(out@),
                bundle_sets(*self, cart_lines@, lines@) is Some,
                bundle_sets(*self, cart_lines@, lines@).unwrap().0 == sets,
                sets.units() >= unit(),
                self.gifts.len() > 0,
            decreases self.gifts.len() - k,
        {
            let (item, per_set) = self.gifts[k];
            proof {
                assert(self.gifts@[k as int].1.wf());
            }
            let qty = match dec_checked_mul(per_set, sets) {
                Some(q) => q,
                None => {
                    proof {
                        lemma_gifts_prefix_none(self.gifts@, sets, k as int + 1, self.gifts.len() as int);
                        let st = bundle_sets(*self, cart_lines@, lines@).unwrap();
                        assert(st.0 == sets);
                        assert(free_rewards_spec(*self, cart_lines@, lines@) == gifts_prefix(self.gifts@, sets, self.gifts.len() as int));
                    }
                    return None;
                },
            };
            if qty.is_positive() {
                out.push((item, qty));
            }
            k = k + 1;
        }
        Some(out)
    }

    /// The reward discount and the lines that contributed to satisfying the bundle (zero and
    /// none when it is not satisfied).  `None` on decimal overflow.
    pub fn reward(&self, cart_lines: &Vec<CartLine>, lines: &Vec<ResolvedLine>) -> (r: Option<(Dec, Vec<u128>)>)
        requires
            self.wf(),
            lines_wf(lines@),
        ensures
            r is Some <==> bundle_reward_spec(*self, cart_lines@, lines@) is Some,
            r matches Some(v) ==> (v.0 == bundle_reward_spec(*self, cart_lines@, lines@).unwrap().0
                && v.1@ == bundle_reward_spec(*self, cart_lines@, lines@).unwrap().1 && v.0.wf()),
    {
        let (sets, contributing) = match self.satisfied_sets(cart_lines, lines) {
            Some(v) => v,
            None => return None,
        };
        if sets.lt(&one()) {
            return Some((zero(), Vec::new()));
        }
        let mut total = zero();
        let mut k: usize = 0;
        while k < lines.len()
            invariant
                k <= lines.len(),
                lines_wf(lines@),
                total.wf(),
                matched_prefix(lines@, contributing@, k as int) == Some(total),
                bundle_sets(*self, cart_lines@, lines@) is Some,
                bundle_sets(*self, cart_lines@, lines@).unwrap().0 == sets,
                bundle_sets(*self, cart_lines@, lines@).unwrap().1 == contributing@,
                sets.units() >= unit(),
            decreases lines.len() - k,
        {
            let l = &lines[k];
            proof {
                assert(lines@[k as int].wf());
            }
            if contains_id(&contributing, l.line_id) {
                let g = match dec_checked_mul(l.unit_price, l.quantity) {
                    Some(g) => g,
                    None => {
                        proof {
                            lemma_matched_prefix_none(lines@, contributing@, k as int + 1, lines.len() as int);
                            let st = bundle_sets(*self, cart_lines@, lines@).unwrap();
                            assert(st.0 == sets && st.1 == contributing@);
                            assert(matched_prefix(lines@, st.1, lines@.len() as int) is None);
                        }
                        return None;
                    },
                };
                total = match dec_checked_add(total, g) {
                    Some(t) => t,
                    None => {
                        proof {
                            lemma_matched_prefix_none(lines@, contributing@, k as int + 1, lines.len() as int);
                            let st = bundle_sets(*self, cart_lines@, lines@).unwrap();
                            assert(st.0 == sets && st.1 == contributing@);
                            assert(matched_prefix(lines@, st.1, lines@.len() as int) is None);
                        }
                        return None;
                    },
                };
            }
            k = k + 1;
        }
        let value = money(total);
        let h = hundred();
        let disc = if str_eq(self.reward.as_str(), "discount_percentage") {
            let pct = opt_or_zero(self.discount_percentage).min(h);
            let p = match dec_checked_mul(value, pct) {
                Some(p) => p,
                None => return None,
            };
            match dec_checked_div(p, h) {
                Some(q) => money(q),
                None => return None,
            }
        } else if str_eq(self.reward.as_str(), "discount_amount") {
            match dec_checked_mul(opt_or_zero(self.discount_amount), sets) {
                Some(p) => money(p),
                None => return None,
            }
        } else {
            zero()
        };
        Some((disc.min(value), contributing))
    }
}

proof fn lemma_gifts_prefix_none(gifts: Seq<(u128, Dec)>, sets: Dec, k: int, n: int)
    requires
        0 < k <= n,
        gifts_prefix(gifts, sets, k) is None,
    ensures
        gifts_prefix(gifts, sets, n) is None,
    decreases n - k,
{
    if k < n {
        assert(gifts_prefix(gifts, sets, k + 1) is None);
        lemma_gifts_prefix_none(gifts, sets, k + 1, n);
    }
}

proof fn lemma_matched_prefix_none(ls: Seq<ResolvedLine>, ids: Seq<u128>, k: int, n: int)
    requires
        0 < k <= n,
        matched_prefix(ls, ids, k) is None,
    ensures
        matched_prefix(ls, ids, n) is None,
    decreases n - k,
{
    if k < n {
        assert(matched_prefix(ls, ids, k + 1) is None);
        lemma_matched_prefix_none(ls, ids, k + 1, n);
    }
}

// ---- allocation ----------------------------------------------------------------------------

/// Index of the first line at or after `i` with id `id`.
pub open spec fn find_line(ls: Seq<ResolvedLine>, id: u128, i: int) -> Option<int>
    decreases ls.len() - i,
{
    if i >= ls.len() || i < 0 {
        None
    } else if ls[i].line_id == id {
        Some(i)
    } else {
        find_line(ls, id, i + 1)
    }
}

/// Remaining capacity of line `id`: its gross (`unit_price · quantity`) minus the shares prior
/// adjustments already took, at least zero; zero for an unknown id.
pub open spec fn capacity(ls: Seq<ResolvedLine>, id: u128) -> Option<Dec> {
    match find_line(ls, id, 0) {
        None => Some(zero_dec()),
        Some(i) => match spec_checked_mul(ls[i].unit_price, ls[i].quantity) {
            None => None,
            Some(g) => match spec_checked_sub(g, ls[i].order_discount_share) {
                None => None,
                Some(d) => Some(max_of(d, zero_dec())),
            },
        },
    }
}

/// A capacity that was computed and is not negative.
pub open spec fn nonneg_cap(c: Option<Dec>) -> bool {
    c is Some && c.unwrap().units() >= 0
}

/// Σ of the capacities of the first `k` ids, added up from zero.
pub open spec fn cap_sum_prefix(ls: Seq<ResolvedLine>, ids: Seq<u128>, k: int) -> Option<Dec>
    decreases k,
{
    if k <= 0 {
        Some(zero_dec())
    } else {
        match cap_sum_prefix(ls, ids, k - 1) {
            None => None,
            Some(acc) => match capacity(ls, ids[k - 1]) {
                None => None,
                Some(c) => spec_checked_add(acc, c),
            },
        }
    }
}

/// The exact total of the capacities of the first `k` ids (as whole units).
pub open spec fn cap_total(ls: Seq<ResolvedLine>, ids: Seq<u128>, k: int) -> int
    decreases k,
{
    if k <= 0 {
        0
    } else {
        cap_total(ls, ids, k - 1) + capacity(ls, ids[k - 1]).unwrap().units()
    }
}

/// A line's proportional share: `disc · cap / cap_sum` rounded to cents, at most `cap`.
pub open spec fn share_of(disc: Dec, cap: Dec, cap_sum: Dec) -> Option<Dec> {
    match spec_checked_mul(disc, cap) {
        None => None,
        Some(p) => match spec_checked_div(p, cap_sum) {
            None => None,
            Some(q) => Some(min_of(money_dec(q), cap)),
        },
    }
}

/// The shares of the first `k` ids and their running total.
pub open spec fn shares_prefix(
    ls: Seq<ResolvedLine>,
    ids: Seq<u128>,
    disc: Dec,
    cap_sum: Dec,
    k: int,
) -> Option<(Seq<(u128, Dec)>, Dec)>
    decreases k,
{
    if k <= 0 {
        Some((Seq::<(u128, Dec)>::empty(), zero_dec()))
    } else {
        match shares_prefix(ls, ids, disc, cap_sum, k - 1) {
            None => None,
            Some(acc) => match capacity(ls, ids[k - 1]) {
                None => None,
                Some(c) => match share_of(disc, c, cap_sum) {
                    None => None,
                    Some(sh) => match spec_checked_add(acc.1, sh) {
                        None => None,
                        Some(run) => Some((acc.0.push((ids[k - 1], sh)), run)),
                    },
                },
            },
        }
    }
}

/// Room a share leaves on its line.
pub open spec fn slack(ls: Seq<ResolvedLine>, sh: Seq<(u128, Dec)>, i: int) -> Option<Dec> {
    match capacity(ls, sh[i].0) {
        None => None,
        Some(c) => spec_checked_sub(c, sh[i].1),
    }
}

/// The index with the most slack among the first `k` (the last of equals, as `max_by` picks).
pub open spec fn most_slack_prefix(ls: Seq<ResolvedLine>, sh: Seq<(u128, Dec)>, k: int) -> Option<int>
    decreases k,
{
    if k <= 1 {
        Some(0)
    } else {
        match most_slack_prefix(ls, sh, k - 1) {
            None => None,
            Some(b) => match (slack(ls, sh, b), slack(ls, sh, k - 1)) {
                (Some(sb), Some(sk)) => if sk.units() < sb.units() { Some(b) } else { Some(k - 1) },
                _ => None,
            },
        }
    }
}

/// One step of spreading the rounding remainder `r` over the share at `i`, never past its
/// line's capacity nor below zero: a positive remainder fills the line's room (all of it when it
/// fits, else the room and the rest stays), a negative one is taken back from the share (all of
/// it when the share covers it, else the share drops to zero and the rest stays).
/// `(shares, remainder left)`.
pub open spec fn spread_step(ls: Seq<ResolvedLine>, sh: Seq<(u128, Dec)>, r: Dec, i: int) -> Option<
    (Seq<(u128, Dec)>, Dec),
> {
    if r.units() == 0 {
        Some((sh, r))
    } else {
        match capacity(ls, sh[i].0) {
            None => None,
            Some(c) => if r.units() > 0 {
                match spec_checked_sub(c, sh[i].1) {
                    None => None,
                    Some(room) => if r.units() <= room.units() {
                        match spec_checked_add(sh[i].1, r) {
                            None => None,
                            Some(x) => Some((sh.update(i, (sh[i].0, x)), zero_dec())),
                        }
                    } else {
                        match spec_checked_sub(r, room) {
                            None => None,
                            Some(left) => Some((sh.update(i, (sh[i].0, c)), left)),
                        }
                    },
                }
            } else {
                match spec_checked_add(sh[i].1, r) {
                    None => None,
                    Some(x) => if x.units() >= 0 {
                        Some((sh.update(i, (sh[i].0, x)), zero_dec()))
                    } else {
                        Some((sh.update(i, (sh[i].0, zero_dec())), x))
                    },
                }
            },
        }
    }
}

/// The remainder spread over the first `k` shares, in order.
pub open spec fn spread_prefix(ls: Seq<ResolvedLine>, sh: Seq<(u128, Dec)>, r: Dec, k: int) -> Option<
    (Seq<(u128, Dec)>, Dec),
>
    decreases k,
{
    if k <= 0 {
        Some((sh, r))
    } else {
        match spread_prefix(ls, sh, r, k - 1) {
            None => None,
            Some(st) => spread_step(ls, st.0, st.1, k - 1),
        }
    }
}

/// `total` spread over `ids` in proportion to each line's remaining capacity, never more than
/// the lines can absorb, with the rounding remainder folded onto the line with the most slack
/// as far as its capacity allows and any rest spread over the lines in order, each within its
/// capacity.  `(allocated, shares)`; `None` on decimal overflow.
pub open spec fn allocate_spec(total: Dec, ids: Seq<u128>, ls: Seq<ResolvedLine>) -> Option<(Dec, Seq<(u128, Dec)>)> {
    if total.units() <= 0 || ids.len() == 0 {
        Some((zero_dec(), Seq::<(u128, Dec)>::empty()))
    } else {
        match cap_sum_prefix(ls, ids, ids.len() as int) {
            None => None,
            Some(cs) => if cs.units() <= 0 {
                Some((zero_dec(), Seq::<(u128, Dec)>::empty()))
            } else {
                let disc = min_of(total, cs);
                match shares_prefix(ls, ids, disc, cs, ids.len() as int) {
                    None => None,
                    Some(acc) => match spec_checked_sub(disc, acc.1) {
                        None => None,
                        Some(rem) => if rem.units() == 0 {
                            Some((disc, acc.0))
                        } else {
                            match most_slack_prefix(ls, acc.0, acc.0.len() as int) {
                                None => None,
                                Some(idx) => match spread_step(ls, acc.0, rem, idx) {
                                    None => None,
                                    Some(first) => match spread_prefix(ls, first.0, first.1, acc.0.len() as int) {
                                        None => None,
                                        Some(st) => Some((disc, st.0)),
                                    },
                                },
                            }
                        },
                    },
                }
            },
        }
    }
}

/// Σ of the shares' values (in units).
pub open spec fn sum_shares(sh: Seq<(u128, Dec)>) -> int
    decreases sh.len(),
{
    if sh.len() == 0 {
        0
    } else {
        sum_shares(sh.drop_last()) + sh.last().1.units()
    }
}

/// Every capacity is a whole number of cents at scale at most 12, and they total at most 10^16.
pub open spec fn cents_capacities(ls: Seq<ResolvedLine>, ids: Seq<u128>) -> bool {
    &&& forall|j: int| 0 <= j < ids.len() ==> {
        let c = #[trigger] capacity(ls, ids[j]);
        c is Some && c.unwrap().scale <= 12 && is_cents(c.unwrap().units())
    }
    &&& cap_total(ls, ids, ids.len() as int) <= 10000000000000000 * unit()
}

/// The capacities are whole cents (see `cents_capacities`) and so is the amount to allocate,
/// at scale at most 12.
pub open spec fn whole_cent_allocation(total: Dec, ids: Seq<u128>, ls: Seq<ResolvedLine>) -> bool {
    &&& total.scale <= 12
    &&& is_cents(total.units())
    &&& cents_capacities(ls, ids)
}

fn capacity_of(lines: &Vec<ResolvedLine>, id: u128) -> (r: Option<Dec>)
    requires
        lines_wf(lines@),
    ensures
        r == capacity(lines@, id),
        r matches Some(c) ==> c.wf() && c.units() >= 0,
{
    let mut i: usize = 0;
    while i < lines.len()
        invariant
            i <= lines.len(),
            lines_wf(lines@),
            find_line(lines@, id, 0) == find_line(lines@, id, i as int),
        decreases lines.len() - i,
    {
        if lines[i].line_id == id {
            let l = &lines[i];
            proof {
                assert(lines@[i as int].wf());
            }
            let g = match dec_checked_mul(l.unit_price, l.quantity) {
                Some(g) => g,
                None => return None,
            };
            let d = match dec_checked_sub(g, l.order_discount_share) {
                Some(d) => d,
                None => return None,
            };
            return Some(d.max(zero()));
        }
        i = i + 1;
    }
    Some(zero())
}

proof fn lemma_cap_total_monotone(ls: Seq<ResolvedLine>, ids: Seq<u128>, k: int, n: int)
    requires
        0 <= k <= n <= ids.len(),
        forall|j: int| 0 <= j < ids.len() ==> nonneg_cap(#[trigger] capacity(ls, ids[j])),
    ensures
        0 <= cap_total(ls, ids, k) <= cap_total(ls, ids, n),
    decreases n - k,
{
    lemma_cap_total_nonneg(ls, ids, k);
    if k < n {
        lemma_cap_total_monotone(ls, ids, k + 1, n);
        assert(nonneg_cap(capacity(ls, ids[k])));
        assert(cap_total(ls, ids, k + 1) == cap_total(ls, ids, k) + capacity(ls, ids[k]).unwrap().units());
    }
}

proof fn lemma_cap_total_nonneg(ls: Seq<ResolvedLine>, ids: Seq<u128>, k: int)
    requires
        0 <= k <= ids.len(),
        forall|j: int| 0 <= j < ids.len() ==> nonneg_cap(#[trigger] capacity(ls, ids[j])),
    ensures
        0 <= cap_total(ls, ids, k),
    decreases k,
{
    if k > 0 {
        lemma_cap_total_nonneg(ls, ids, k - 1);
        assert(nonneg_cap(capacity(ls, ids[k - 1])));
    }
}

fn capacity_sum(lines: &Vec<ResolvedLine>, ids: &Vec<u128>) -> (r: Option<Dec>)
    requires
        lines_wf(lines@),
    ensures
        r == cap_sum_prefix(lines@, ids@, ids.len() as int),
        r matches Some(s) ==> s.wf(),
        r is Some ==> forall|j: int| 0 <= j < ids.len() ==> nonneg_cap(#[trigger] capacity(lines@, ids@[j])),
        (r is Some && cents_capacities(lines@, ids@)) ==> (r.unwrap().units()
            == cap_total(lines@, ids@, ids.len() as int) && r.unwrap().scale <= 12 && is_cents(r.unwrap().units())),
{
    let mut acc = zero();
    let mut k: usize = 0;
    let ghost good = cents_capacities(lines@, ids@);
    while k < ids.len()
        invariant
            k <= ids.len(),
            lines_wf(lines@),
            acc.wf(),
            cap_sum_prefix(lines@, ids@, k as int) == Some(acc),
            forall|j: int| 0 <= j < k ==> nonneg_cap(#[trigger] capacity(lines@, ids@[j])),
            good == cents_capacities(lines@, ids@),
            good ==> (acc.units() == cap_total(lines@, ids@, k as int) && acc.scale <= 12 && is_cents(acc.units())),
        decreases ids.len() - k,
    {
        let c = match capacity_of(lines, ids[k]) {
            Some(c) => c,
            None => {
                proof {
                    assert(cap_sum_prefix(lines@, ids@, k as int + 1) is None);
                    lemma_cap_sum_none(lines@, ids@, k as int + 1, ids.len() as int);
                }
                return None;
            },
        };
        proof {
            if good {
                assert(capacity(lines@, ids@[k as int]) is Some);
                lemma_all_caps_nonneg_from_good(lines@, ids@);
                lemma_cap_total_monotone(lines@, ids@, k as int + 1, ids.len() as int);
                lemma_cents_add_sub(acc.units(), c.units());
            }
        }
        acc = match dec_checked_add(acc, c) {
            Some(a) => a,
            None => {
                proof {
                    assert(cap_sum_prefix(lines@, ids@, k as int + 1) is None);
                    lemma_cap_sum_none(lines@, ids@, k as int + 1, ids.len() as int);
                }
                return None;
            },
        };
        k = k + 1;
    }
    Some(acc)
}

proof fn lemma_all_caps_nonneg_from_good(ls: Seq<ResolvedLine>, ids: Seq<u128>)
    requires
        forall|j: int| 0 <= j < ids.len() ==> {
            let c = #[trigger] capacity(ls, ids[j]);
            c is Some && c.unwrap().scale <= 12 && is_cents(c.unwrap().units())
        },
    ensures
        forall|j: int| 0 <= j < ids.len() ==> nonneg_cap(#[trigger] capacity(ls, ids[j])),
{
    assert forall|j: int| 0 <= j < ids.len() implies nonneg_cap(#[trigger] capacity(ls, ids[j])) by {
        lemma_capacity_nonneg(ls, ids[j]);
    }
}

proof fn lemma_capacity_nonneg(ls: Seq<ResolvedLine>, id: u128)
    ensures
        capacity(ls, id) is Some ==> nonneg_cap(capacity(ls, id)),
{
    assert(zero_dec().units() == 0);
}

proof fn lemma_cap_sum_none(ls: Seq<ResolvedLine>, ids: Seq<u128>, k: int, n: int)
    requires
        0 < k <= n,
        cap_sum_prefix(ls, ids, k) is None,
    ensures
        cap_sum_prefix(ls, ids, n) is None,
    decreases n - k,
{
    if k < n {
        assert(cap_sum_prefix(ls, ids, k + 1) is None);
        lemma_cap_sum_none(ls, ids, k + 1, n);
    }
}

proof fn lemma_sum_push(sh: Seq<(u128, Dec)>, x: (u128, Dec))
    ensures
        sum_shares(sh.push(x)) == sum_shares(sh) + x.1.units(),
{
    assert(sh.push(x).drop_last() =~= sh);
}

proof fn lemma_sum_update(sh: Seq<(u128, Dec)>, i: int, x: (u128, Dec))
    requires
        0 <= i < sh.len(),
    ensures
        sum_shares(sh.update(i, x)) == sum_shares(sh) - sh[i].1.units() + x.1.units(),
    decreases sh.len(),
{
    if i == sh.len() - 1 {
        assert(sh.update(i, x).drop_last() =~= sh.drop_last());
    } else {
        lemma_sum_update(sh.drop_last(), i, x);
        assert(sh.update(i, x).drop_last() =~= sh.drop_last().update(i, x));
    }
}

proof fn lemma_sum_ge_elem(sh: Seq<(u128, Dec)>, i: int)
    requires
        0 <= i < sh.len(),
        forall|k: int| 0 <= k < sh.len() ==> (#[trigger] sh[k]).1.units() >= 0,
    ensures
        0 <= sh[i].1.units() <= sum_shares(sh),
    decreases sh.len(),
{
    lemma_sum_nonneg(sh.drop_last());
    if i < sh.len() - 1 {
        lemma_sum_ge_elem(sh.drop_last(), i);
    }
}

proof fn lemma_sum_nonneg(sh: Seq<(u128, Dec)>)
    requires
        forall|k: int| 0 <= k < sh.len() ==> (#[trigger] sh[k]).1.units() >= 0,
    ensures
        sum_shares(sh) >= 0,
    decreases sh.len(),
{
    if sh.len() > 0 {
        lemma_sum_nonneg(sh.drop_last());
    }
}

proof fn lemma_shares_none(ls: Seq<ResolvedLine>, ids: Seq<u128>, disc: Dec, cs: Dec, k: int, n: int)
    requires
        0 < k <= n,
        shares_prefix(ls, ids, disc, cs, k) is None,
    ensures
        shares_prefix(ls, ids, disc, cs, n) is None,
    decreases n - k,
{
    if k < n {
        assert(shares_prefix(ls, ids, disc, cs, k + 1) is None);
        lemma_shares_none(ls, ids, disc, cs, k + 1, n);
    }
}

/// The proportional shares and their running total.
fn proportional_shares(
    lines: &Vec<ResolvedLine>,
    ids: &Vec<u128>,
    disc: Dec,
    cap_sum: Dec,
) -> (r: Option<(Vec<(u128, Dec)>, Dec)>)
    requires
        lines_wf(lines@),
        disc.wf(),
        disc.units() >= 0,
        cap_sum.wf(),
        cap_sum.units() > 0,
        forall|j: int| 0 <= j < ids.len() ==> nonneg_cap(#[trigger] capacity(lines@, ids@[j])),
    ensures
        r is Some <==> shares_prefix(lines@, ids@, disc, cap_sum, ids.len() as int) is Some,
        r matches Some(v) ==> {
            &&& v.0@ == shares_prefix(lines@, ids@, disc, cap_sum, ids.len() as int).unwrap().0
            &&& v.1 == shares_prefix(lines@, ids@, disc, cap_sum, ids.len() as int).unwrap().1
            &&& v.1.wf()
            &&& v.0.len() == ids.len()
            &&& forall|k: int| 0 <= k < ids.len() ==> {
                &&& (#[trigger] v.0@[k]).0 == ids@[k]
                &&& v.0@[k].1.wf()
                &&& 0 <= v.0@[k].1.units() <= capacity(lines@, ids@[k]).unwrap().units()
            }
        },
        (r is Some && cents_capacities(lines@, ids@)) ==> {
            let v = r.unwrap();
            &&& v.1.units() == sum_shares(v.0@)
            &&& v.1.scale <= 12
            &&& is_cents(v.1.units())
            &&& sum_shares(v.0@) <= cap_total(lines@, ids@, ids.len() as int)
            &&& forall|k: int| 0 <= k < ids.len() ==> (#[trigger] v.0@[k]).1.scale <= 12 && is_cents(v.0@[k].1.units())
        },
{
    let mut out: Vec<(u128, Dec)> = Vec::new();
    let mut running = zero();
    let ghost good = cents_capacities(lines@, ids@);
    let mut k: usize = 0;
    while k < ids.len()
        invariant
            k <= ids.len(),
            lines_wf(lines@),
            disc.wf(),
            disc.units() >= 0,
            cap_sum.wf(),
            cap_sum.units() > 0,
            forall|j: int| 0 <= j < ids.len() ==> nonneg_cap(#[trigger] capacity(lines@, ids@[j])),
            running.wf(),
            shares_prefix(lines@, ids@, disc, cap_sum, k as int) == Some((out@, running)),
            out.len() == k,
            forall|i: int| 0 <= i < k ==> {
                &&& (#[trigger] out@[i]).0 == ids@[i]
                &&& out@[i].1.wf()
                &&& 0 <= out@[i].1.units() <= capacity(lines@, ids@[i]).unwrap().units()
            },
            good == cents_capacities(lines@, ids@),
            good ==> {
                &&& running.units() == sum_shares(out@)
                &&& running.scale <= 12
                &&& is_cents(running.units())
                &&& sum_shares(out@) <= cap_total(lines@, ids@, k as int)
                &&& forall|i: int| 0 <= i < k ==> (#[trigger] out@[i]).1.scale <= 12 && is_cents(out@[i].1.units())
            },
        decreases ids.len() - k,
    {
        let id = ids[k];
        let c = match capacity_of(lines, id) {
            Some(c) => c,
            None => {
                proof {
                    assert(nonneg_cap(capacity(lines@, ids@[k as int])));
                }
                return None;
            },
        };
        let p = match dec_checked_mul(disc, c) {
            Some(p) => p,
            None => {
                proof {
                    lemma_shares_none(lines@, ids@, disc, cap_sum, k as int + 1, ids.len() as int);
                }
                return None;
            },
        };
        let q = match dec_checked_div(p, cap_sum) {
            Some(q) => q,
            None => {
                proof {
                    lemma_shares_none(lines@, ids@, disc, cap_sum, k as int + 1, ids.len() as int);
                }
                return None;
            },
        };
        let m = money(q);
        proof {
            lemma_money_units(q.units());
        }
        let share = m.min(c);
        proof {
            if good {
                assert(capacity(lines@, ids@[k as int]) is Some);
                lemma_cap_total_monotone(lines@, ids@, k as int + 1, ids.len() as int);
                assert(cap_total(lines@, ids@, k as int + 1) == cap_total(lines@, ids@, k as int) + c.units());
                lemma_cents_add_sub(running.units(), share.units());
                lemma_scale2_is_cents(m);
                lemma_sum_nonneg(out@);
                assert(abs(running.units() + share.units()) <= 10000000000000000 * unit());
            }
        }
        let next = match dec_checked_add(running, share) {
            Some(n) => n,
            None => {
                proof {
                    lemma_shares_none(lines@, ids@, disc, cap_sum, k as int + 1, ids.len() as int);
                }
                return None;
            },
        };
        proof {
            lemma_sum_push(out@, (id, share));
            if good {
                assert(share.scale <= 12);
                assert(is_cents(share.units()));
                assert(running.units() + share.units() <= 10000000000000000 * unit());
                assert(next.units() == running.units() + share.units());
                assert(next.scale <= 12);
            }
        }
        out.push((id, share));
        running = next;
        k = k + 1;
    }
    Some((out, running))
}

proof fn lemma_spread_none(ls: Seq<ResolvedLine>, sh: Seq<(u128, Dec)>, r: Dec, k: int, n: int)
    requires
        0 < k <= n,
        spread_prefix(ls, sh, r, k) is None,
    ensures
        spread_prefix(ls, sh, r, n) is None,
    decreases n - k,
{
    if k < n {
        assert(spread_prefix(ls, sh, r, k + 1) is None);
        lemma_spread_none(ls, sh, r, k + 1, n);
    }
}

/// Shares that each equal their line's capacity add up to the capacities' total.
proof fn lemma_sum_full(ls: Seq<ResolvedLine>, ids: Seq<u128>, sh: Seq<(u128, Dec)>, n: int)
    requires
        0 <= n <= sh.len(),
        sh.len() == ids.len(),
        forall|k: int| 0 <= k < n ==> (#[trigger] sh[k]).1.units() == capacity(ls, ids[k]).unwrap().units(),
    ensures
        sum_shares(sh.take(n)) == cap_total(ls, ids, n),
    decreases n,
{
    if n > 0 {
        lemma_sum_full(ls, ids, sh, n - 1);
        assert(sh.take(n).drop_last() =~= sh.take(n - 1));
    }
}

/// Shares that are all zero add up to zero.
proof fn lemma_sum_empty(sh: Seq<(u128, Dec)>, n: int)
    requires
        0 <= n <= sh.len(),
        forall|k: int| 0 <= k < n ==> (#[trigger] sh[k]).1.units() == 0,
    ensures
        sum_shares(sh.take(n)) == 0,
    decreases n,
{
    if n > 0 {
        lemma_sum_empty(sh, n - 1);
        assert(sh.take(n).drop_last() =~= sh.take(n - 1));
    }
}

/// Within whole cents: every share is between zero and its line's capacity and a whole number
/// of cents at scale at most 12.
pub open spec fn shares_within(ls: Seq<ResolvedLine>, ids: Seq<u128>, sh: Seq<(u128, Dec)>) -> bool {
    forall|k: int| 0 <= k < sh.len() ==> {
        &&& 0 <= (#[trigger] sh[k]).1.units() <= capacity(ls, ids[k]).unwrap().units()
        &&& is_cents(sh[k].1.units())
        &&& sh[k].1.scale <= 12
    }
}

/// Room the share at `i` leaves on its line.
fn slack_at(lines: &Vec<ResolvedLine>, shares: &Vec<(u128, Dec)>, i: usize) -> (r: Option<Dec>)
    requires
        lines_wf(lines@),
        i < shares.len(),
        shares@[i as int].1.wf(),
    ensures
        r == slack(lines@, shares@, i as int),
        r matches Some(x) ==> x.wf(),
{
    let c = match capacity_of(lines, shares[i].0) {
        Some(c) => c,
        None => return None,
    };
    dec_checked_sub(c, shares[i].1)
}

proof fn lemma_slack_none(ls: Seq<ResolvedLine>, sh: Seq<(u128, Dec)>, k: int, n: int)
    requires
        1 < k <= n,
        most_slack_prefix(ls, sh, k) is None,
    ensures
        most_slack_prefix(ls, sh, n) is None,
    decreases n - k,
{
    if k < n {
        assert(most_slack_prefix(ls, sh, k + 1) is None);
        lemma_slack_none(ls, sh, k + 1, n);
    }
}

/// The index whose share leaves the most slack (the last of equals).
fn most_slack(lines: &Vec<ResolvedLine>, shares: &Vec<(u128, Dec)>) -> (r: Option<usize>)
    requires
        lines_wf(lines@),
        shares.len() >= 1,
        forall|k: int| 0 <= k < shares.len() ==> (#[trigger] shares@[k]).1.wf(),
    ensures
        r is Some <==> most_slack_prefix(lines@, shares@, shares.len() as int) is Some,
        r matches Some(i) ==> (i < shares.len() && i as int == most_slack_prefix(lines@, shares@, shares.len() as int).unwrap()),
{
    let mut best: usize = 0;
    let mut k: usize = 1;
    while k < shares.len()
        invariant
            1 <= k <= shares.len(),
            lines_wf(lines@),
            forall|j: int| 0 <= j < shares.len() ==> (#[trigger] shares@[j]).1.wf(),
            best < k,
            most_slack_prefix(lines@, shares@, k as int) == Some(best as int),
        decreases shares.len() - k,
    {
        proof {
            assert(shares@[best as int].1.wf());
            assert(shares@[k as int].1.wf());
        }
        let sb = slack_at(lines, shares, best);
        let sk = slack_at(lines, shares, k);
        match (sb, sk) {
            (Some(b), Some(x)) => {
                if !x.lt(&b) {
                    best = k;
                }
            },
            _ => {
                proof {
                    assert(most_slack_prefix(lines@, shares@, k as int + 1) is None);
                    if k + 1 < shares.len() {
                        lemma_slack_none(lines@, shares@, k as int + 1, shares.len() as int);
                    }
                }
                return None;
            },
        }
        k = k + 1;
    }
    Some(best)
}

/// The facts a whole-cent spread keeps: shares within capacity, shares plus what is left equal
/// to `disc`, and that within the capacities' total.
pub open spec fn spread_good(ls: Seq<ResolvedLine>, ids: Seq<u128>, sh: Seq<(u128, Dec)>, r: Dec, disc: Dec) -> bool {
    &&& cents_capacities(ls, ids)
    &&& shares_within(ls, ids, sh)
    &&& sum_shares(sh) + r.units() == disc.units()
    &&& is_cents(r.units())
    &&& r.scale <= 12
    &&& 0 <= disc.units() <= cap_total(ls, ids, ids.len() as int)
}

/// One step of the spread at share `i` (see `spread_step`).  `None` where a decimal operation
/// overflows.
fn spread_at(
    lines: &Vec<ResolvedLine>,
    ids: &Vec<u128>,
    shares: &mut Vec<(u128, Dec)>,
    r: Dec,
    i: usize,
    Ghost(disc): Ghost<Dec>,
) -> (left: Option<Dec>)
    requires
        lines_wf(lines@),
        r.wf(),
        i < ids.len(),
        old(shares).len() == ids.len(),
        forall|k: int| 0 <= k < ids.len() ==> (#[trigger] old(shares)@[k]).0 == ids@[k] && old(shares)@[k].1.wf(),
    ensures
        left is Some <==> spread_step(lines@, old(shares)@, r, i as int) is Some,
        left matches Some(x) ==> (final(shares)@, x) == spread_step(lines@, old(shares)@, r, i as int).unwrap(),
        left matches Some(x) ==> x.wf(),
        final(shares).len() == ids.len(),
        forall|k: int| 0 <= k < ids.len() ==> (#[trigger] final(shares)@[k]).0 == ids@[k] && final(shares)@[k].1.wf(),
        (left is Some && spread_good(lines@, ids@, old(shares)@, r, disc)) ==> {
            let x = left.unwrap();
            &&& spread_good(lines@, ids@, final(shares)@, x, disc)
            &&& r.units() >= 0 ==> 0 <= x.units() <= r.units()
            &&& r.units() <= 0 ==> r.units() <= x.units() <= 0
            &&& x.units() > 0 ==> final(shares)@[i as int].1.units() == capacity(lines@, ids@[i as int]).unwrap().units()
            &&& x.units() < 0 ==> final(shares)@[i as int].1.units() == 0
            &&& forall|k: int| 0 <= k < ids.len() && k != i ==> (#[trigger] final(shares)@[k]) == old(shares)@[k]
        },
{
    let ghost before = shares@;
    let ghost good = spread_good(lines@, ids@, before, r, disc);
    proof {
        if good {
            lemma_sum_ge_elem_within(lines@, ids@, before, i as int);
            lemma_all_caps_nonneg_from_good(lines@, ids@);
        }
    }
    if r.is_zero() {
        return Some(r);
    }
    let (id, cur) = shares[i];
    let c = match capacity_of(lines, id) {
        Some(c) => c,
        None => return None,
    };
    if r.is_positive() {
        proof {
            if good {
                crate::decimal::lemma_cents_add_sub(c.units(), cur.units());
            }
        }
        let room = match dec_checked_sub(c, cur) {
            Some(x) => x,
            None => return None,
        };
        if r.le(&room) {
            proof {
                if good {
                    crate::decimal::lemma_cents_add_sub(cur.units(), r.units());
                }
            }
            let x = match dec_checked_add(cur, r) {
                Some(x) => x,
                None => return None,
            };
            shares.set(i, (id, x));
            proof {
                lemma_sum_update(before, i as int, (id, x));
                crate::decimal::lemma_cents_add_sub(0, 0);
            }
            Some(zero())
        } else {
            proof {
                if good {
                    crate::decimal::lemma_cents_add_sub(r.units(), room.units());
                }
            }
            let left = match dec_checked_sub(r, room) {
                Some(x) => x,
                None => return None,
            };
            shares.set(i, (id, c));
            proof {
                lemma_sum_update(before, i as int, (id, c));
            }
            Some(left)
        }
    } else {
        proof {
            if good {
                crate::decimal::lemma_cents_add_sub(cur.units(), r.units());
            }
        }
        let x = match dec_checked_add(cur, r) {
            Some(x) => x,
            None => return None,
        };
        if !x.is_negative() {
            shares.set(i, (id, x));
            proof {
                lemma_sum_update(before, i as int, (id, x));
                crate::decimal::lemma_cents_add_sub(0, 0);
            }
            Some(zero())
        } else {
            shares.set(i, (id, zero()));
            proof {
                lemma_sum_update(before, i as int, (id, zero_dec()));
                crate::decimal::lemma_cents_add_sub(0, 0);
            }
            Some(x)
        }
    }
}

/// Spread the rounding remainder `rem` over the shares in order, within each line's capacity.
/// `None` where a decimal operation overflows.  From a whole-cent state whose remainder is what
/// the shares miss of `disc`, the shares end up adding to exactly `disc`, each within its
/// line's capacity.
fn spread_remainder(
    lines: &Vec<ResolvedLine>,
    ids: &Vec<u128>,
    shares: &mut Vec<(u128, Dec)>,
    rem: Dec,
    Ghost(disc): Ghost<Dec>,
) -> (ok: bool)
    requires
        lines_wf(lines@),
        rem.wf(),
        old(shares).len() == ids.len(),
        forall|k: int| 0 <= k < ids.len() ==> (#[trigger] old(shares)@[k]).0 == ids@[k] && old(shares)@[k].1.wf(),
    ensures
        ok <==> spread_prefix(lines@, old(shares)@, rem, ids.len() as int) is Some,
        ok ==> final(shares)@ == spread_prefix(lines@, old(shares)@, rem, ids.len() as int).unwrap().0,
        final(shares).len() == ids.len(),
        forall|k: int| 0 <= k < ids.len() ==> (#[trigger] final(shares)@[k]).0 == ids@[k] && final(shares)@[k].1.wf(),
        (ok && spread_good(lines@, ids@, old(shares)@, rem, disc)) ==> {
            &&& sum_shares(final(shares)@) == disc.units()
            &&& shares_within(lines@, ids@, final(shares)@)
        },
{
    let ghost init = shares@;
    let ghost n = ids.len() as int;
    let ghost good = spread_good(lines@, ids@, init, rem, disc);
    let mut r = rem;
    let mut i: usize = 0;
    while i < ids.len()
        invariant
            i <= ids.len(),
            n == ids.len(),
            lines_wf(lines@),
            r.wf(),
            shares.len() == ids.len(),
            forall|k: int| 0 <= k < ids.len() ==> (#[trigger] shares@[k]).0 == ids@[k] && shares@[k].1.wf(),
            spread_prefix(lines@, init, rem, i as int) == Some((shares@, r)),
            init == old(shares)@,
            good == spread_good(lines@, ids@, init, rem, disc),
            good ==> {
                &&& spread_good(lines@, ids@, shares@, r, disc)
                &&& rem.units() >= 0 ==> r.units() >= 0
                &&& rem.units() <= 0 ==> r.units() <= 0
                &&& r.units() > 0 ==> forall|k: int| 0 <= k < i ==> (#[trigger] shares@[k]).1.units()
                    == capacity(lines@, ids@[k]).unwrap().units()
                &&& r.units() < 0 ==> forall|k: int| 0 <= k < i ==> (#[trigger] shares@[k]).1.units() == 0
            },
        decreases ids.len() - i,
    {
        let ghost before = shares@;
        match spread_at(lines, ids, shares, r, i, Ghost(disc)) {
            Some(x) => {
                proof {
                    if good {
                        assert forall|k: int| 0 <= k < i + 1 && x.units() > 0 implies (#[trigger] shares@[k]).1.units()
                            == capacity(lines@, ids@[k]).unwrap().units() by {
                            if k < i {
                                assert(shares@[k] == before[k]);
                            }
                        }
                        assert forall|k: int| 0 <= k < i + 1 && x.units() < 0 implies (#[trigger] shares@[k]).1.units()
                            == 0 by {
                            if k < i {
                                assert(shares@[k] == before[k]);
                            }
                        }
                    }
                }
                r = x;
            },
            None => {
                proof {
                    assert(spread_prefix(lines@, init, rem, i as int + 1) is None);
                    lemma_spread_none(lines@, init, rem, i as int + 1, n);
                }
                return false;
            },
        }
        i = i + 1;
    }
    proof {
        if good {
            if r.units() > 0 {
                lemma_sum_full(lines@, ids@, shares@, n);
                assert(shares@.take(n) =~= shares@);
            }
            if r.units() < 0 {
                lemma_sum_empty(shares@, n);
                assert(shares@.take(n) =~= shares@);
            }
        }
    }
    true
}

/// A share within its capacity is at most the capacities' total.
proof fn lemma_sum_ge_elem_within(ls: Seq<ResolvedLine>, ids: Seq<u128>, sh: Seq<(u128, Dec)>, i: int)
    requires
        0 <= i < sh.len(),
        sh.len() == ids.len(),
        shares_within(ls, ids, sh),
        cents_capacities(ls, ids),
    ensures
        0 <= sh[i].1.units() <= sum_shares(sh),
        sum_shares(sh) <= cap_total(ls, ids, ids.len() as int),
        capacity(ls, ids[i]).unwrap().units() <= cap_total(ls, ids, ids.len() as int),
{
    assert forall|k: int| 0 <= k < sh.len() implies (#[trigger] sh[k]).1.units() >= 0 by {}
    lemma_sum_ge_elem(sh, i);
    lemma_sum_le_caps(ls, ids, sh, ids.len() as int);
    assert(sh.take(ids.len() as int) =~= sh);
    lemma_all_caps_nonneg_from_good(ls, ids);
    lemma_cap_le_total(ls, ids, i, ids.len() as int);
}

proof fn lemma_sum_le_caps(ls: Seq<ResolvedLine>, ids: Seq<u128>, sh: Seq<(u128, Dec)>, n: int)
    requires
        0 <= n <= sh.len(),
        sh.len() == ids.len(),
        shares_within(ls, ids, sh),
    ensures
        sum_shares(sh.take(n)) <= cap_total(ls, ids, n),
    decreases n,
{
    if n > 0 {
        lemma_sum_le_caps(ls, ids, sh, n - 1);
        assert(sh.take(n).drop_last() =~= sh.take(n - 1));
        assert(0 <= sh[n - 1].1.units() <= capacity(ls, ids[n - 1]).unwrap().units());
    }
}

proof fn lemma_cap_le_total(ls: Seq<ResolvedLine>, ids: Seq<u128>, i: int, n: int)
    requires
        0 <= i < n <= ids.len(),
        forall|j: int| 0 <= j < ids.len() ==> nonneg_cap(#[trigger] capacity(ls, ids[j])),
    ensures
        capacity(ls, ids[i]).unwrap().units() <= cap_total(ls, ids, n),
    decreases n,
{
    if i < n - 1 {
        lemma_cap_le_total(ls, ids, i, n - 1);
        assert(nonneg_cap(capacity(ls, ids[n - 1])));
    } else {
        lemma_cap_total_nonneg(ls, ids, n - 1);
    }
}

/// Spread `total` across `line_ids` in proportion to each line's remaining capacity (gross
/// minus shares already taken), never allocating more than the lines can absorb in all, with
/// the rounding remainder folded onto the line with the most slack.  Returns
/// `(actually_allocated, shares)`; `None` where the decimal arithmetic overflows.
pub fn allocate(total: Dec, line_ids: &Vec<u128>, lines: &Vec<ResolvedLine>) -> (r: Option<(Dec, Vec<(u128, Dec)>)>)
    requires
        total.wf(),
        lines_wf(lines@),
    ensures
        r is Some <==> allocate_spec(total, line_ids@, lines@) is Some,
        r matches Some(v) ==> {
            &&& v.0 == allocate_spec(total, line_ids@, lines@).unwrap().0
            &&& v.1@ == allocate_spec(total, line_ids@, lines@).unwrap().1
            &&& v.0.wf()
            &&& v.0.units() >= 0
            &&& total.units() > 0 ==> v.0.units() <= total.units()
            &&& v.1.len() == 0 || v.1.len() == line_ids.len()
            &&& forall|k: int| 0 <= k < v.1.len() ==> (#[trigger] v.1@[k]).0 == line_ids@[k] && v.1@[k].1.wf()
            &&& v.1.len() == 0 ==> v.0.units() == 0
        },
        (r is Some && whole_cent_allocation(total, line_ids@, lines@)) ==> sum_shares(r.unwrap().1@) == r.unwrap().0.units(),
        (r is Some && whole_cent_allocation(total, line_ids@, lines@)) ==> shares_within(lines@, line_ids@, r.unwrap().1@),
        (r is Some && r.unwrap().1.len() > 0 && whole_cent_allocation(total, line_ids@, lines@)) ==> r.unwrap().0.units()
            == min_of(total, cap_sum_prefix(lines@, line_ids@, line_ids.len() as int).unwrap()).units(),
{
    if !total.is_positive() || line_ids.len() == 0 {
        return Some((zero(), Vec::new()));
    }
    let cap_sum = match capacity_sum(lines, line_ids) {
        Some(c) => c,
        None => return None,
    };
    if !cap_sum.is_positive() {
        return Some((zero(), Vec::new()));
    }
    let disc = total.min(cap_sum);
    let (mut shares, running) = match proportional_shares(lines, line_ids, disc, cap_sum) {
        Some(v) => v,
        None => return None,
    };
    let rem = match dec_checked_sub(disc, running) {
        Some(x) => x,
        None => return None,
    };
    let ghost good = whole_cent_allocation(total, line_ids@, lines@);
    proof {
        if good {
            assert(disc.units() <= cap_total(lines@, line_ids@, line_ids.len() as int));
            lemma_sum_nonneg(shares@);
            lemma_cents_add_sub(disc.units(), running.units());
        }
    }
    if !rem.is_zero() {
        proof {
            if good {
                assert(shares_within(lines@, line_ids@, shares@));
                assert(sum_shares(shares@) + rem.units() == disc.units());
            }
        }
        let idx = match most_slack(lines, &shares) {
            Some(i) => i,
            None => return None,
        };
        let r1 = match spread_at(lines, line_ids, &mut shares, rem, idx, Ghost(disc)) {
            Some(x) => x,
            None => return None,
        };
        if !spread_remainder(lines, line_ids, &mut shares, r1, Ghost(disc)) {
            return None;
        }
    }
    Some((disc, shares))
}

/// The lines after adding the first `k` allocated shares, each to the first line with its id.
pub open spec fn apply_prefix(ls: Seq<ResolvedLine>, alloc: Seq<(u128, Dec)>, k: int) -> Option<Seq<ResolvedLine>>
    decreases k,
{
    if k <= 0 {
        Some(ls)
    } else {
        match apply_prefix(ls, alloc, k - 1) {
            None => None,
            Some(cur) => match find_line(cur, alloc[k - 1].0, 0) {
                None => Some(cur),
                Some(i) => match spec_checked_add(cur[i].order_discount_share, alloc[k - 1].1) {
                    None => None,
                    Some(s) => Some(cur.update(i, ResolvedLine { order_discount_share: s, ..cur[i] })),
                },
            },
        }
    }
}

proof fn lemma_apply_none(ls: Seq<ResolvedLine>, alloc: Seq<(u128, Dec)>, k: int, n: int)
    requires
        0 < k <= n,
        apply_prefix(ls, alloc, k) is None,
    ensures
        apply_prefix(ls, alloc, n) is None,
    decreases n - k,
{
    if k < n {
        assert(apply_prefix(ls, alloc, k + 1) is None);
        lemma_apply_none(ls, alloc, k + 1, n);
    }
}

/// Index of the first line with id `id`.
fn find_line_index(lines: &Vec<ResolvedLine>, id: u128) -> (r: Option<usize>)
    ensures
        r matches Some(i) ==> i < lines.len(),
        r == (match find_line(lines@, id, 0) {
            Some(i) => Some(i as usize),
            None => None::<usize>,
        }),
{
    let mut i: usize = 0;
    while i < lines.len()
        invariant
            i <= lines.len(),
            find_line(lines@, id, 0) == find_line(lines@, id, i as int),
        decreases lines.len() - i,
    {
        if lines[i].line_id == id {
            return Some(i);
        }
        i = i + 1;
    }
    None
}

proof fn lemma_find_line_range(ls: Seq<ResolvedLine>, id: u128, i: int)
    requires
        0 <= i,
    ensures
        find_line(ls, id, i) matches Some(j) ==> (i <= j < ls.len() && ls[j].line_id == id),
    decreases ls.len() - i,
{
    if i < ls.len() && ls[i].line_id != id {
        lemma_find_line_range(ls, id, i + 1);
    }
}

/// Add each allocated share onto its line's running `order_discount_share`, so the next
/// allocation sees the reduced capacity.  `false` (with the lines partly updated) where a sum
/// overflows.
pub fn apply_shares(lines: &mut Vec<ResolvedLine>, allocated: &Vec<(u128, Dec)>) -> (ok: bool)
    requires
        lines_wf(old(lines)@),
        forall|k: int| 0 <= k < allocated.len() ==> (#[trigger] allocated@[k]).1.wf(),
    ensures
        ok <==> apply_prefix(old(lines)@, allocated@, allocated.len() as int) is Some,
        ok ==> final(lines)@ == apply_prefix(old(lines)@, allocated@, allocated.len() as int).unwrap(),
        lines_wf(final(lines)@),
        final(lines)@.len() == old(lines)@.len(),
        forall|i: int| 0 <= i < final(lines)@.len() ==> (#[trigger] final(lines)@[i]).line_id == old(lines)@[i].line_id,
{
    let ghost start = lines@;
    let mut k: usize = 0;
    while k < allocated.len()
        invariant
            k <= allocated.len(),
            forall|j: int| 0 <= j < allocated.len() ==> (#[trigger] allocated@[j]).1.wf(),
            lines_wf(lines@),
            start == old(lines)@,
            lines@.len() == start.len(),
            forall|i: int| 0 <= i < lines@.len() ==> (#[trigger] lines@[i]).line_id == start[i].line_id,
            apply_prefix(start, allocated@, k as int) == Some(lines@),
        decreases allocated.len() - k,
    {
        let (id, share) = allocated[k];
        proof {
            assert(allocated@[k as int].1.wf());
            lemma_find_line_range(lines@, id, 0);
        }
        match find_line_index(lines, id) {
            None => {},
            Some(i) => {
                proof {
                    assert(lines@[i as int].wf());
                }
                let cur = lines[i].order_discount_share;
                match dec_checked_add(cur, share) {
                    None => {
                        proof {
                            assert(apply_prefix(start, allocated@, k as int + 1) is None);
                            lemma_apply_none(start, allocated@, k as int + 1, allocated.len() as int);
                        }
                        return false;
                    },
                    Some(s) => {
                        let mut l = lines[i];
                        l.order_discount_share = s;
                        lines.set(i, l);
                        proof {
                            assert(lines@ =~= apply_prefix(start, allocated@, k as int + 1).unwrap());
                        }
                    },
                }
            },
        }
        k = k + 1;
    }
    true
}

// ---- the cart pipeline ---------------------------------------------------------------------

/// What produced an order-level discount.
#[derive(Debug, Clone, Copy, PartialEq, Eq, Structural)]
pub enum AdjustmentSource {
    /// A `scope=order` pricing rule fired on the cart.
    OrderRule(u128),
    /// A bundle was satisfied by the basket.
    Bundle(u128),
}

/// One order-level discount and how it was spread across lines.
#[derive(Debug, Clone)]
pub struct OrderAdjustment {
    pub source: AdjustmentSource,
    pub discount_amount: Dec,
    /// `(line_id, share)` pairs.
    pub allocated: Vec<(u128, Dec)>,
}

/// A free item a satisfied buy-X-get-Y bundle grants (a zero-priced line, not a discount).
#[derive(Debug, Clone, Copy)]
pub struct RewardLine {
    pub bundle_id: u128,
    pub item_id: u128,
    pub quantity: Dec,
}

/// An adjustment as a value.
pub type AdjView = (AdjustmentSource, Dec, Seq<(u128, Dec)>);

/// The pipeline's state as a value: lines, the order value still open to discounts, whether an
/// exclusive adjustment has fired, the adjustments so far and the free items granted.
pub type PassView = (Seq<ResolvedLine>, Dec, bool, Seq<AdjView>, Seq<RewardLine>);

pub open spec fn adj_view(a: OrderAdjustment) -> AdjView {
    (a.source, a.discount_amount, a.allocated@)
}

/// The running state of a cart resolution between its passes.
#[derive(Debug, Clone)]
pub struct CartPass {
    pub lines: Vec<ResolvedLine>,
    /// Order value still open to order-level discounts.
    pub remaining: Dec,
    /// An exclusive (non-stackable) adjustment has fired; nothing may stack on it.
    pub locked: bool,
    pub adjustments: Vec<OrderAdjustment>,
    pub reward_lines: Vec<RewardLine>,
}

impl CartPass {
    pub open spec fn view_of(&self) -> PassView {
        (self.lines@, self.remaining, self.locked, self.adjustments@.map_values(|a: OrderAdjustment| adj_view(a)), self.reward_lines@)
    }

    pub open spec fn wf(&self) -> bool {
        lines_wf(self.lines@) && self.remaining.wf()
    }
}

/// Reward lines for a bundle's free items.
pub open spec fn reward_lines_of(bundle_id: u128, items: Seq<(u128, Dec)>) -> Seq<RewardLine> {
    items.map_values(|x: (u128, Dec)| RewardLine { bundle_id, item_id: x.0, quantity: x.1 })
}

/// Record a discount `disc` allocated as `alloc` from `source`: the shares are applied to the
/// lines, `remaining` drops by `disc`, and a non-stackable source locks the cart.
pub open spec fn record_adjustment(m: PassView, source: AdjustmentSource, stackable: bool, disc: Dec, alloc: Seq<(u128, Dec)>) -> Option<PassView> {
    match apply_prefix(m.0, alloc, alloc.len() as int) {
        None => None,
        Some(nl) => match spec_checked_sub(m.1, disc) {
            None => None,
            Some(rem) => Some((nl, rem, m.2 || !stackable, m.3.push((source, disc, alloc)), m.4)),
        },
    }
}

/// Offer a discount of (at most) `raw` on `ids` from `source`: capped by what remains and
/// rounded to cents; skipped when nothing is left to grant, when a non-stackable source would
/// join earlier adjustments, or when the lines can absorb nothing.
pub open spec fn offer_discount(m: PassView, source: AdjustmentSource, stackable: bool, raw: Dec, ids: Seq<u128>) -> Option<PassView> {
    let want = money_dec(min_of(raw, m.1));
    if want.units() <= 0 {
        Some(m)
    } else if !stackable && m.3.len() > 0 {
        Some(m)
    } else {
        match allocate_spec(want, ids, m.0) {
            None => None,
            Some(al) => if al.0.units() <= 0 { Some(m) } else { record_adjustment(m, source, stackable, al.0, al.1) },
        }
    }
}

/// One bundle of the bundle pass: gifts first, then a legacy free item, else (unless the cart
/// is locked or nothing remains, which ends the pass) its discount.  `(state, pass ended)`.
pub open spec fn bundle_step(m: PassView, b: BundleCand, cls: Seq<CartLine>) -> Option<(PassView, bool)> {
    match free_rewards_spec(b, cls, m.0) {
        None => None,
        Some(g) => if g.len() > 0 {
            Some(((m.0, m.1, m.2, m.3, m.4 + reward_lines_of(b.id, g)), false))
        } else if b.reward_item_id is Some {
            match free_reward_spec(b, cls, m.0) {
                None => None,
                Some(fr) => match fr {
                    Some(x) => Some(((m.0, m.1, m.2, m.3, m.4.push(RewardLine { bundle_id: b.id, item_id: x.0, quantity: x.1 })), false)),
                    None => Some((m, false)),
                },
            }
        } else if m.2 || m.1.units() <= 0 {
            Some((m, true))
        } else {
            match bundle_reward_spec(b, cls, m.0) {
                None => None,
                Some(rw) => match offer_discount(m, AdjustmentSource::Bundle(b.id), b.stackable, rw.0, rw.1) {
                    None => None,
                    Some(m2) => Some((m2, false)),
                },
            }
        },
    }
}

/// A free-item bundle grants goods, not a discount: when the bundle has gifts that fire, or a
/// legacy free item, its step leaves the lines, what remains open, the lock and the
/// adjustments as they were, and never ends the pass.
pub proof fn lemma_free_item_bundles_leave_the_budget(m: PassView, b: BundleCand, cls: Seq<CartLine>)
    requires
        bundle_step(m, b, cls) is Some,
        (free_rewards_spec(b, cls, m.0) matches Some(g) && g.len() > 0) || b.reward_item_id is Some,
    ensures
        ({
            let (m2, stop) = bundle_step(m, b, cls).unwrap();
            &&& m2.0 == m.0
            &&& m2.1 == m.1
            &&& m2.2 == m.2
            &&& m2.3 == m.3
            &&& !stop
        }),
{
}

/// The bundle pass over the first `k` bundles.
pub open spec fn bundle_pass_prefix(m: PassView, bs: Seq<BundleCand>, cls: Seq<CartLine>, k: int) -> Option<(PassView, bool)>
    decreases k,
{
    if k <= 0 {
        Some((m, false))
    } else {
        match bundle_pass_prefix(m, bs, cls, k - 1) {
            None => None,
            Some(st) => if st.1 { Some(st) } else { bundle_step(st.0, bs[k - 1], cls) },
        }
    }
}

/// One rule of the order pass (ends the pass when the cart is locked or nothing remains).
pub open spec fn order_step(m: PassView, r: OrderRuleCand, ids: Seq<u128>) -> Option<(PassView, bool)> {
    if m.2 || m.1.units() <= 0 {
        Some((m, true))
    } else {
        match order_discount(r, m.1) {
            None => None,
            Some(d) => match offer_discount(m, AdjustmentSource::OrderRule(r.id), r.stackable, d, ids) {
                None => None,
                Some(m2) => Some((m2, false)),
            },
        }
    }
}

/// The order pass over the first `k` rules, offering each discount to every line.
pub open spec fn order_pass_prefix(m: PassView, rs: Seq<OrderRuleCand>, ids: Seq<u128>, k: int) -> Option<(PassView, bool)>
    decreases k,
{
    if k <= 0 {
        Some((m, false))
    } else {
        match order_pass_prefix(m, rs, ids, k - 1) {
            None => None,
            Some(st) => if st.1 { Some(st) } else { order_step(st.0, rs[k - 1], ids) },
        }
    }
}

pub open spec fn line_ids_of(ls: Seq<ResolvedLine>) -> Seq<u128> {
    ls.map_values(|l: ResolvedLine| l.line_id)
}

/// An exclusive adjustment is alone: once the cart is locked it holds exactly one adjustment.
pub open spec fn exclusive_ok(m: PassView) -> bool {
    m.2 ==> m.3.len() == 1
}

/// Σ of the adjustments' discounts (in units).
pub open spec fn sum_discs(adjs: Seq<AdjView>) -> int
    decreases adjs.len(),
{
    if adjs.len() == 0 {
        0
    } else {
        sum_discs(adjs.drop_last()) + adjs.last().1.units()
    }
}

/// Every adjustment's discount is positive.
pub open spec fn discs_positive(adjs: Seq<AdjView>) -> bool {
    forall|i: int| 0 <= i < adjs.len() ==> (#[trigger] adjs[i]).1.units() > 0
}

/// Every adjustment's discount is a whole number of cents at scale at most 12.
pub open spec fn discs_cents(adjs: Seq<AdjView>) -> bool {
    forall|i: int| 0 <= i < adjs.len() ==> is_cents((#[trigger] adjs[i]).1.units()) && adjs[i].1.scale <= 12
}

/// The order value the state accounts for: what remains plus what was granted.
pub open spec fn open_value(m: PassView) -> int {
    m.1.units() + sum_discs(m.3)
}

/// While every discount is whole cents, what remains is whole cents, not negative, and the
/// accounted order value stays within 10^16.
pub open spec fn budget_ok(m: PassView) -> bool {
    discs_cents(m.3) ==> (m.1.scale <= 12 && is_cents(m.1.units()) && 0 <= m.1.units() && 0 <= sum_discs(m.3)
        && open_value(m) <= 10000000000000000 * unit())
}

proof fn lemma_sum_discs_push(adjs: Seq<AdjView>, a: AdjView)
    ensures
        sum_discs(adjs.push(a)) == sum_discs(adjs) + a.1.units(),
        discs_cents(adjs.push(a)) ==> discs_cents(adjs),
        discs_positive(adjs) && a.1.units() > 0 ==> discs_positive(adjs.push(a)),
{
    assert(adjs.push(a).drop_last() =~= adjs);
    if discs_cents(adjs.push(a)) {
        assert forall|i: int| 0 <= i < adjs.len() implies is_cents((#[trigger] adjs[i]).1.units()) && adjs[i].1.scale <= 12 by {
            assert(adjs.push(a)[i] == adjs[i]);
        }
    }
    if discs_positive(adjs) && a.1.units() > 0 {
        assert forall|i: int| 0 <= i < adjs.push(a).len() implies (#[trigger] adjs.push(a)[i]).1.units() > 0 by {
            if i < adjs.len() {
                assert(adjs.push(a)[i] == adjs[i]);
            }
        }
    }
}

proof fn lemma_sum_discs_nonneg(adjs: Seq<AdjView>)
    requires
        discs_positive(adjs),
    ensures
        sum_discs(adjs) >= 0,
    decreases adjs.len(),
{
    if adjs.len() > 0 {
        assert(discs_positive(adjs.drop_last())) by {
            assert forall|i: int| 0 <= i < adjs.drop_last().len() implies (#[trigger] adjs.drop_last()[i]).1.units() > 0 by {
                assert(adjs.drop_last()[i] == adjs[i]);
            }
        }
        lemma_sum_discs_nonneg(adjs.drop_last());
        assert(adjs[adjs.len() - 1].1.units() > 0);
    }
}

proof fn lemma_offer_keeps_exclusive(m: PassView, source: AdjustmentSource, stackable: bool, raw: Dec, ids: Seq<u128>)
    requires
        exclusive_ok(m),
        !m.2,
        offer_discount(m, source, stackable, raw, ids) is Some,
    ensures
        exclusive_ok(offer_discount(m, source, stackable, raw, ids).unwrap()),
{
}

proof fn lemma_bundle_pass_none(m: PassView, bs: Seq<BundleCand>, cls: Seq<CartLine>, k: int, n: int)
    requires
        0 < k <= n,
        bundle_pass_prefix(m, bs, cls, k) is None,
    ensures
        bundle_pass_prefix(m, bs, cls, n) is None,
    decreases n - k,
{
    if k < n {
        assert(bundle_pass_prefix(m, bs, cls, k + 1) is None);
        lemma_bundle_pass_none(m, bs, cls, k + 1, n);
    }
}

proof fn lemma_order_pass_none(m: PassView, rs: Seq<OrderRuleCand>, ids: Seq<u128>, k: int, n: int)
    requires
        0 < k <= n,
        order_pass_prefix(m, rs, ids, k) is None,
    ensures
        order_pass_prefix(m, rs, ids, n) is None,
    decreases n - k,
{
    if k < n {
        assert(order_pass_prefix(m, rs, ids, k + 1) is None);
        lemma_order_pass_none(m, rs, ids, k + 1, n);
    }
}

impl CartPass {
    /// The state the bundle pass starts from: the priced lines and the whole subtotal open.
    pub fn start(lines: Vec<ResolvedLine>, subtotal: Dec) -> (r: CartPass)
        ensures
            r.lines@ == lines@,
            r.remaining == subtotal,
            !r.locked,
            r.adjustments.len() == 0,
            r.reward_lines.len() == 0,
    {
        CartPass { lines, remaining: subtotal, locked: false, adjustments: Vec::new(), reward_lines: Vec::new() }
    }

    /// Record an allocated discount (the shares are applied, `remaining` drops).  `false` on
    /// overflow.
    fn record(&mut self, source: AdjustmentSource, stackable: bool, disc: Dec, alloc: Vec<(u128, Dec)>) -> (ok: bool)
        requires
            old(self).wf(),
            disc.wf(),
            disc.units() > 0,
            (old(self).remaining.scale <= 12 && is_cents(old(self).remaining.units())) ==> disc.units() <= old(self).remaining.units(),
            forall|k: int| 0 <= k < alloc.len() ==> (#[trigger] alloc@[k]).1.wf(),
        ensures
            ok <==> record_adjustment(old(self).view_of(), source, stackable, disc, alloc@) is Some,
            ok ==> final(self).view_of() == record_adjustment(old(self).view_of(), source, stackable, disc, alloc@).unwrap(),
            ok ==> final(self).wf(),
            ok ==> (budget_ok(old(self).view_of()) ==> budget_ok(final(self).view_of())),
            ok ==> ((budget_ok(old(self).view_of()) && discs_cents(final(self).view_of().3)) ==> open_value(final(self).view_of()) == open_value(old(self).view_of())),
            ok ==> (discs_positive(old(self).view_of().3) ==> discs_positive(final(self).view_of().3)),
            ok ==> adjustments_wf(old(self).view_of().3) ==> adjustments_wf(final(self).view_of().3),
            ok ==> (discs_cents(final(self).view_of().3) ==> discs_cents(old(self).view_of().3)),
    {
        let ghost m = self.view_of();
        if !apply_shares(&mut self.lines, &alloc) {
            return false;
        }
        let ghost cents_case = discs_cents(m.3.push((source, disc, alloc@)));
        proof {
            lemma_sum_discs_push(m.3, (source, disc, alloc@));
            if budget_ok(m) && cents_case {
                assert((m.3.push((source, disc, alloc@)))[m.3.len() as int] == (source, disc, alloc@));
                lemma_cents_add_sub(self.remaining.units(), disc.units());
            }
        }
        let rem = match dec_checked_sub(self.remaining, disc) {
            Some(r) => r,
            None => return false,
        };
        proof {
            if budget_ok(m) && cents_case {
                assert(discs_cents(m.3));
                assert(abs(self.remaining.units() - disc.units()) <= 10000000000000000 * unit());
                assert(rem.units() == self.remaining.units() - disc.units());
            }
        }
        let ghost before = self.adjustments@;
        self.adjustments.push(OrderAdjustment { source, discount_amount: disc, allocated: alloc });
        proof {
            assert(self.adjustments@.map_values(|a: OrderAdjustment| adj_view(a)) =~= before.map_values(|a: OrderAdjustment| adj_view(a)).push((source, disc, alloc@)));
        }
        self.remaining = rem;
        if !stackable {
            self.locked = true;
        }
        proof {
            if adjustments_wf(m.3) {
                assert forall|i: int| 0 <= i < self.view_of().3.len() implies (#[trigger] self.view_of().3[i]).1.wf() by {
                    if i < m.3.len() {
                        assert(self.view_of().3[i] == m.3[i]);
                    }
                }
            }
        }
        true
    }

    /// Offer a discount of at most `raw` on `ids` (see `offer_discount`).  `false` on overflow.
    fn offer(&mut self, source: AdjustmentSource, stackable: bool, raw: Dec, ids: &Vec<u128>) -> (ok: bool)
        requires
            old(self).wf(),
            raw.wf(),
        ensures
            ok <==> offer_discount(old(self).view_of(), source, stackable, raw, ids@) is Some,
            ok ==> final(self).view_of() == offer_discount(old(self).view_of(), source, stackable, raw, ids@).unwrap(),
            ok ==> final(self).wf(),
            ok ==> (budget_ok(old(self).view_of()) ==> budget_ok(final(self).view_of())),
            ok ==> ((budget_ok(old(self).view_of()) && discs_cents(final(self).view_of().3)) ==> open_value(final(self).view_of()) == open_value(old(self).view_of())),
            ok ==> (discs_positive(old(self).view_of().3) ==> discs_positive(final(self).view_of().3)),
            ok ==> adjustments_wf(old(self).view_of().3) ==> adjustments_wf(final(self).view_of().3),
            ok ==> (discs_cents(final(self).view_of().3) ==> discs_cents(old(self).view_of().3)),
    {
        let low = raw.min(self.remaining);
        let want = money(low);
        proof {
            if self.remaining.scale <= 12 && is_cents(self.remaining.units()) {
                lemma_money_le_cents(low.units(), self.remaining.units());
            }
        }
        if !want.is_positive() {
            return true;
        }
        if !stackable && self.adjustments.len() > 0 {
            return true;
        }
        let (disc, allocated) = match allocate(want, ids, &self.lines) {
            Some(v) => v,
            None => return false,
        };
        if !disc.is_positive() {
            return true;
        }
        self.record(source, stackable, disc, allocated)
    }

    /// Run one bundle through the bundle pass.  `None` on overflow, else whether the pass ends.
    pub fn bundle_step(&mut self, b: &BundleCand, cart_lines: &Vec<CartLine>) -> (r: Option<bool>)
        requires
            old(self).wf(),
            b.wf(),
        ensures
            r is Some <==> bundle_step(old(self).view_of(), *b, cart_lines@) is Some,
            r matches Some(stop) ==> (final(self).view_of(), stop) == bundle_step(old(self).view_of(), *b, cart_lines@).unwrap(),
            r is Some ==> final(self).wf(),
            r is Some ==> (budget_ok(old(self).view_of()) ==> budget_ok(final(self).view_of())),
            r is Some ==> ((budget_ok(old(self).view_of()) && discs_cents(final(self).view_of().3)) ==> open_value(final(self).view_of()) == open_value(old(self).view_of())),
            r is Some ==> (discs_positive(old(self).view_of().3) ==> discs_positive(final(self).view_of().3)),
            r is Some ==> (adjustments_wf(old(self).view_of().3) ==> adjustments_wf(final(self).view_of().3)),
            r is Some ==> (discs_cents(final(self).view_of().3) ==> discs_cents(old(self).view_of().3)),
    {
        let gifts = match b.free_rewards(cart_lines, &self.lines) {
            Some(g) => g,
            None => return None,
        };
        if gifts.len() > 0 {
            let ghost before = self.reward_lines@;
            let ghost pre = self.view_of();
            let ghost adj0 = self.adjustments@;
            let mut k: usize = 0;
            while k < gifts.len()
                invariant
                    k <= gifts.len(),
                    pre == old(self).view_of(),
                    gifts@ == free_rewards_spec(*b, cart_lines@, pre.0).unwrap(),
                    self.lines@ == pre.0,
                    self.remaining == pre.1,
                    self.locked == pre.2,
                    self.adjustments@ == adj0,
                    adj0.map_values(|a: OrderAdjustment| adj_view(a)) == pre.3,
                    before == pre.4,
                    self.wf(),
                    self.reward_lines@ == before + reward_lines_of(b.id, gifts@.subrange(0, k as int)),
                decreases gifts.len() - k,
            {
                let (item_id, quantity) = gifts[k];
                self.reward_lines.push(RewardLine { bundle_id: b.id, item_id, quantity });
                proof {
                    assert(reward_lines_of(b.id, gifts@.subrange(0, k + 1)) =~= reward_lines_of(b.id, gifts@.subrange(0, k as int)).push(RewardLine { bundle_id: b.id, item_id, quantity }));
                }
                k = k + 1;
            }
            proof {
                assert(gifts@.subrange(0, gifts.len() as int) =~= gifts@);
            }
            return Some(false);
        }
        if b.reward_item_id.is_some() {
            match b.free_reward(cart_lines, &self.lines) {
                None => return None,
                Some(Some((item_id, quantity))) => {
                    self.reward_lines.push(RewardLine { bundle_id: b.id, item_id, quantity });
                },
                Some(None) => {},
            }
            return Some(false);
        }
        if self.locked || !self.remaining.is_positive() {
            return Some(true);
        }
        let (raw, contributing) = match b.reward(cart_lines, &self.lines) {
            Some(v) => v,
            None => return None,
        };
        if self.offer(AdjustmentSource::Bundle(b.id), b.stackable, raw, &contributing) {
            Some(false)
        } else {
            None
        }
    }

    /// The bundle pass: each bundle in order until the pass ends.  `false` on overflow.
    pub fn bundle_pass(&mut self, bundles: &Vec<BundleCand>, cart_lines: &Vec<CartLine>) -> (ok: bool)
        requires
            old(self).wf(),
            forall|i: int| 0 <= i < bundles.len() ==> (#[trigger] bundles@[i]).wf(),
        ensures
            ok <==> bundle_pass_prefix(old(self).view_of(), bundles@, cart_lines@, bundles.len() as int) is Some,
            ok ==> final(self).view_of() == bundle_pass_prefix(old(self).view_of(), bundles@, cart_lines@, bundles.len() as int).unwrap().0,
            ok ==> final(self).wf(),
            (ok && exclusive_ok(old(self).view_of())) ==> exclusive_ok(final(self).view_of()),
            ok ==> (budget_ok(old(self).view_of()) ==> budget_ok(final(self).view_of())),
            ok ==> ((budget_ok(old(self).view_of()) && discs_cents(final(self).view_of().3)) ==> open_value(final(self).view_of()) == open_value(old(self).view_of())),
            ok ==> (discs_positive(old(self).view_of().3) ==> discs_positive(final(self).view_of().3)),
            ok ==> (adjustments_wf(old(self).view_of().3) ==> adjustments_wf(final(self).view_of().3)),
            ok ==> (discs_cents(final(self).view_of().3) ==> discs_cents(old(self).view_of().3)),
    {
        let ghost m0 = self.view_of();
        let mut k: usize = 0;
        while k < bundles.len()
            invariant
                k <= bundles.len(),
                self.wf(),
                forall|i: int| 0 <= i < bundles.len() ==> (#[trigger] bundles@[i]).wf(),
                m0 == old(self).view_of(),
                bundle_pass_prefix(m0, bundles@, cart_lines@, k as int) == Some((self.view_of(), false)),
                exclusive_ok(m0) ==> exclusive_ok(self.view_of()),
                budget_ok(m0) ==> budget_ok(self.view_of()),
                (budget_ok(m0) && discs_cents(self.view_of().3)) ==> open_value(self.view_of()) == open_value(m0),
                discs_positive(m0.3) ==> discs_positive(self.view_of().3),
                adjustments_wf(m0.3) ==> adjustments_wf(self.view_of().3),
                discs_cents(self.view_of().3) ==> discs_cents(m0.3),
            decreases bundles.len() - k,
        {
            let ghost before = self.view_of();
            match self.bundle_step(&bundles[k], cart_lines) {
                None => {
                    proof {
                        assert(bundle_pass_prefix(m0, bundles@, cart_lines@, k as int + 1) is None);
                        lemma_bundle_pass_none(m0, bundles@, cart_lines@, k as int + 1, bundles.len() as int);
                    }
                    return false;
                },
                Some(stop) => {
                    proof {
                        if exclusive_ok(m0) {
                            lemma_bundle_step_exclusive(before, bundles@[k as int], cart_lines@);
                        }
                    }
                    if stop {
                        proof {
                            lemma_bundle_pass_stopped(m0, bundles@, cart_lines@, k as int + 1, bundles.len() as int);
                        }
                        return true;
                    }
                },
            }
            k = k + 1;
        }
        true
    }

    /// One order rule of the order pass.  `None` on overflow, else whether the pass ends.
    pub fn order_step(&mut self, rule: &OrderRuleCand, ids: &Vec<u128>) -> (r: Option<bool>)
        requires
            old(self).wf(),
            rule.wf(),
        ensures
            r is Some <==> order_step(old(self).view_of(), *rule, ids@) is Some,
            r matches Some(stop) ==> (final(self).view_of(), stop) == order_step(old(self).view_of(), *rule, ids@).unwrap(),
            r is Some ==> final(self).wf(),
            r is Some ==> (budget_ok(old(self).view_of()) ==> budget_ok(final(self).view_of())),
            r is Some ==> ((budget_ok(old(self).view_of()) && discs_cents(final(self).view_of().3)) ==> open_value(final(self).view_of()) == open_value(old(self).view_of())),
            r is Some ==> (discs_positive(old(self).view_of().3) ==> discs_positive(final(self).view_of().3)),
            r is Some ==> (adjustments_wf(old(self).view_of().3) ==> adjustments_wf(final(self).view_of().3)),
            r is Some ==> (discs_cents(final(self).view_of().3) ==> discs_cents(old(self).view_of().3)),
    {
        if self.locked || !self.remaining.is_positive() {
            return Some(true);
        }
        let d = match rule.discount_on(self.remaining) {
            Some(d) => d,
            None => return None,
        };
        if self.offer(AdjustmentSource::OrderRule(rule.id), rule.stackable, d, ids) {
            Some(false)
        } else {
            None
        }
    }

    /// The order pass (only when no exclusive adjustment fired): each rule in order, offering
    /// its discount on the remaining order value to every line.  `false` on overflow.
    pub fn order_pass(&mut self, rules: &Vec<OrderRuleCand>) -> (ok: bool)
        requires
            old(self).wf(),
            forall|i: int| 0 <= i < rules.len() ==> (#[trigger] rules@[i]).wf(),
        ensures
            old(self).locked ==> (ok && final(self).view_of() == old(self).view_of()),
            !old(self).locked ==> (ok <==> order_pass_prefix(old(self).view_of(), rules@, line_ids_of(old(self).lines@), rules.len() as int) is Some),
            (!old(self).locked && ok) ==> final(self).view_of() == order_pass_prefix(old(self).view_of(), rules@, line_ids_of(old(self).lines@), rules.len() as int).unwrap().0,
            ok ==> final(self).wf(),
            (ok && exclusive_ok(old(self).view_of())) ==> exclusive_ok(final(self).view_of()),
            ok ==> (budget_ok(old(self).view_of()) ==> budget_ok(final(self).view_of())),
            ok ==> ((budget_ok(old(self).view_of()) && discs_cents(final(self).view_of().3)) ==> open_value(final(self).view_of()) == open_value(old(self).view_of())),
            ok ==> (discs_positive(old(self).view_of().3) ==> discs_positive(final(self).view_of().3)),
            ok ==> (adjustments_wf(old(self).view_of().3) ==> adjustments_wf(final(self).view_of().3)),
            ok ==> (discs_cents(final(self).view_of().3) ==> discs_cents(old(self).view_of().3)),
    {
        if self.locked {
            return true;
        }
        let mut ids: Vec<u128> = Vec::new();
        let mut j: usize = 0;
        while j < self.lines.len()
            invariant
                j <= self.lines.len(),
                self.view_of() == old(self).view_of(),
                ids@ == line_ids_of(self.lines@.subrange(0, j as int)),
            decreases self.lines.len() - j,
        {
            ids.push(self.lines[j].line_id);
            proof {
                assert(line_ids_of(self.lines@.subrange(0, j + 1)) =~= line_ids_of(self.lines@.subrange(0, j as int)).push(self.lines@[j as int].line_id));
            }
            j = j + 1;
        }
        proof {
            assert(self.lines@.subrange(0, self.lines.len() as int) =~= self.lines@);
        }
        let ghost m0 = self.view_of();
        let mut k: usize = 0;
        while k < rules.len()
            invariant
                k <= rules.len(),
                self.wf(),
                forall|i: int| 0 <= i < rules.len() ==> (#[trigger] rules@[i]).wf(),
                ids@ == line_ids_of(m0.0),
                m0 == old(self).view_of(),
                !old(self).locked,
                order_pass_prefix(m0, rules@, ids@, k as int) == Some((self.view_of(), false)),
                exclusive_ok(m0) ==> exclusive_ok(self.view_of()),
                budget_ok(m0) ==> budget_ok(self.view_of()),
                (budget_ok(m0) && discs_cents(self.view_of().3)) ==> open_value(self.view_of()) == open_value(m0),
                discs_positive(m0.3) ==> discs_positive(self.view_of().3),
                adjustments_wf(m0.3) ==> adjustments_wf(self.view_of().3),
                discs_cents(self.view_of().3) ==> discs_cents(m0.3),
            decreases rules.len() - k,
        {
            let ghost before = self.view_of();
            match self.order_step(&rules[k], &ids) {
                None => {
                    proof {
                        assert(order_pass_prefix(m0, rules@, ids@, k as int + 1) is None);
                        lemma_order_pass_none(m0, rules@, ids@, k as int + 1, rules.len() as int);
                    }
                    return false;
                },
                Some(stop) => {
                    proof {
                        if exclusive_ok(m0) && !before.2 {
                            lemma_offer_keeps_exclusive_order(before, rules@[k as int], ids@);
                        }
                    }
                    if stop {
                        proof {
                            lemma_order_pass_stopped(m0, rules@, ids@, k as int + 1, rules.len() as int);
                        }
                        return true;
                    }
                },
            }
            k = k + 1;
        }
        true
    }
}

proof fn lemma_bundle_step_exclusive(m: PassView, b: BundleCand, cls: Seq<CartLine>)
    requires
        exclusive_ok(m),
        bundle_step(m, b, cls) is Some,
    ensures
        exclusive_ok(bundle_step(m, b, cls).unwrap().0),
{
    if !(free_rewards_spec(b, cls, m.0).unwrap().len() > 0) && !(b.reward_item_id is Some) && !(m.2 || m.1.units() <= 0) {
        let rw = bundle_reward_spec(b, cls, m.0).unwrap();
        lemma_offer_keeps_exclusive(m, AdjustmentSource::Bundle(b.id), b.stackable, rw.0, rw.1);
    }
}

proof fn lemma_offer_keeps_exclusive_order(m: PassView, r: OrderRuleCand, ids: Seq<u128>)
    requires
        exclusive_ok(m),
        !m.2,
        order_step(m, r, ids) is Some,
    ensures
        exclusive_ok(order_step(m, r, ids).unwrap().0),
{
    if !(m.1.units() <= 0) {
        let d = order_discount(r, m.1).unwrap();
        lemma_offer_keeps_exclusive(m, AdjustmentSource::OrderRule(r.id), r.stackable, d, ids);
    }
}

proof fn lemma_bundle_pass_stopped(m: PassView, bs: Seq<BundleCand>, cls: Seq<CartLine>, k: int, n: int)
    requires
        0 < k <= n,
        bundle_pass_prefix(m, bs, cls, k) is Some,
        bundle_pass_prefix(m, bs, cls, k).unwrap().1,
    ensures
        bundle_pass_prefix(m, bs, cls, n) == bundle_pass_prefix(m, bs, cls, k),
    decreases n - k,
{
    if k < n {
        lemma_bundle_pass_stopped(m, bs, cls, k + 1, n);
    }
}

proof fn lemma_order_pass_stopped(m: PassView, rs: Seq<OrderRuleCand>, ids: Seq<u128>, k: int, n: int)
    requires
        0 < k <= n,
        order_pass_prefix(m, rs, ids, k) is Some,
        order_pass_prefix(m, rs, ids, k).unwrap().1,
    ensures
        order_pass_prefix(m, rs, ids, n) == order_pass_prefix(m, rs, ids, k),
    decreases n - k,
{
    if k < n {
        lemma_order_pass_stopped(m, rs, ids, k + 1, n);
    }
}

// ---- building the lines and reconciling ----------------------------------------------------

/// The whole basket: customer, coupon and instant are cart-wide.
#[derive(Debug, Clone)]
pub struct CartQuery {
    pub company_id: u128,
    pub customer_id: Option<u128>,
    pub customer_group_id: Option<u128>,
    /// A coupon code the customer presented (unlocks coupon-gated rules).
    pub coupon_code: Option<String>,
    pub lines: Vec<CartLine>,
    /// The instant every validity window is evaluated at.
    pub at: BackboneTimestamp,
}

/// The resolved basket.
#[derive(Debug, Clone)]
pub struct ResolvedCart {
    pub lines: Vec<ResolvedLine>,
    pub order_adjustments: Vec<OrderAdjustment>,
    /// Free items granted by satisfied buy-X-get-Y bundles.
    pub reward_lines: Vec<RewardLine>,
    /// Σ line `unit_price · quantity`, rounded to cents.
    pub subtotal: Dec,
    /// Σ of the adjustments' discounts, rounded to cents.
    pub order_discount_total: Dec,
    /// `subtotal − order_discount_total`, rounded to cents.
    pub total: Dec,
}

fn clone_code(c: &Option<String>) -> (r: Option<String>)
    ensures
        r is Some <==> c is Some,
        r is Some ==> r.unwrap()@ == c.unwrap()@,
{
    match c {
        Some(s) => Some(s.clone()),
        None => None,
    }
}

/// The query a cart line is priced with: the cart's company, customer, coupon and instant win
/// over anything on the line's own query.
pub fn line_query(cart: &CartQuery, cl: &CartLine) -> (q: PriceQuery)
    ensures
        q.company_id == cart.company_id,
        q.customer_id == cart.customer_id,
        q.customer_group_id == cart.customer_group_id,
        q.coupon_code is Some <==> cart.coupon_code is Some,
        q.coupon_code is Some ==> q.coupon_code.unwrap()@ == cart.coupon_code.unwrap()@,
        q.at == cart.at,
        q.list_price == cl.query.list_price,
        q.quantity == cl.query.quantity,
        q.item_id == cl.query.item_id,
        q.item_group_id == cl.query.item_group_id,
        q.brand_id == cl.query.brand_id,
{
    PriceQuery {
        company_id: cart.company_id,
        list_price: cl.query.list_price,
        quantity: cl.query.quantity,
        item_id: cl.query.item_id,
        item_group_id: cl.query.item_group_id,
        brand_id: cl.query.brand_id,
        customer_id: cart.customer_id,
        customer_group_id: cart.customer_group_id,
        coupon_code: clone_code(&cart.coupon_code),
        at: cart.at,
    }
}

/// A cart line's result from its resolved price: gross `unit_price · quantity` rounded to cents,
/// no order-level share yet.
pub open spec fn line_from_price(cl: CartLine, rp: ResolvedPrice) -> Option<ResolvedLine> {
    match spec_checked_mul(rp.unit_price, cl.query.quantity) {
        None => None,
        Some(g) => Some(ResolvedLine {
            line_id: cl.line_id,
            item_id: cl.query.item_id,
            quantity: cl.query.quantity,
            unit_price: rp.unit_price,
            line_discount_amount: rp.discount_amount,
            applied_rule_id: rp.applied_rule_id,
            order_discount_share: zero_dec(),
            net_line_total: money_dec(g),
        }),
    }
}

/// The first `k` lines built from their prices.
pub open spec fn lines_prefix(cls: Seq<CartLine>, rps: Seq<ResolvedPrice>, k: int) -> Option<Seq<ResolvedLine>>
    decreases k,
{
    if k <= 0 {
        Some(Seq::<ResolvedLine>::empty())
    } else {
        match lines_prefix(cls, rps, k - 1) {
            None => None,
            Some(acc) => match line_from_price(cls[k - 1], rps[k - 1]) {
                None => None,
                Some(l) => Some(acc.push(l)),
            },
        }
    }
}

/// Σ `unit_price · quantity` over the first `k` lines.
pub open spec fn gross_prefix(ls: Seq<ResolvedLine>, k: int) -> Option<Dec>
    decreases k,
{
    if k <= 0 {
        Some(zero_dec())
    } else {
        match gross_prefix(ls, k - 1) {
            None => None,
            Some(acc) => match spec_checked_mul(ls[k - 1].unit_price, ls[k - 1].quantity) {
                None => None,
                Some(g) => spec_checked_add(acc, g),
            },
        }
    }
}

/// Σ of the cart lines' quantities (what order rules gate on).
pub open spec fn quantity_prefix(cls: Seq<CartLine>, k: int) -> Option<Dec>
    decreases k,
{
    if k <= 0 {
        Some(zero_dec())
    } else {
        match quantity_prefix(cls, k - 1) {
            None => None,
            Some(acc) => spec_checked_add(acc, cls[k - 1].query.quantity),
        }
    }
}

pub open spec fn prices_wf(rps: Seq<ResolvedPrice>) -> bool {
    forall|i: int| 0 <= i < rps.len() ==> (#[trigger] rps[i]).unit_price.wf() && rps[i].discount_amount.wf()
}

pub open spec fn cart_lines_wf(cls: Seq<CartLine>) -> bool {
    forall|i: int| 0 <= i < cls.len() ==> (#[trigger] cls[i]).query.quantity.wf()
}

proof fn lemma_lines_prefix_none(cls: Seq<CartLine>, rps: Seq<ResolvedPrice>, k: int, n: int)
    requires
        0 < k <= n,
        lines_prefix(cls, rps, k) is None,
    ensures
        lines_prefix(cls, rps, n) is None,
    decreases n - k,
{
    if k < n {
        assert(lines_prefix(cls, rps, k + 1) is None);
        lemma_lines_prefix_none(cls, rps, k + 1, n);
    }
}

proof fn lemma_gross_prefix_none(ls: Seq<ResolvedLine>, k: int, n: int)
    requires
        0 < k <= n,
        gross_prefix(ls, k) is None,
    ensures
        gross_prefix(ls, n) is None,
    decreases n - k,
{
    if k < n {
        assert(gross_prefix(ls, k + 1) is None);
        lemma_gross_prefix_none(ls, k + 1, n);
    }
}

proof fn lemma_quantity_prefix_none(cls: Seq<CartLine>, k: int, n: int)
    requires
        0 < k <= n,
        quantity_prefix(cls, k) is None,
    ensures
        quantity_prefix(cls, n) is None,
    decreases n - k,
{
    if k < n {
        assert(quantity_prefix(cls, k + 1) is None);
        lemma_quantity_prefix_none(cls, k + 1, n);
    }
}

/// The line pass: one resolved line per cart line (from the price each line resolved to) and
/// the cart subtotal.  `None` on decimal overflow.
pub fn priced_lines(cart_lines: &Vec<CartLine>, prices: &Vec<ResolvedPrice>) -> (r: Option<(Vec<ResolvedLine>, Dec)>)
    requires
        cart_lines.len() == prices.len(),
        prices_wf(prices@),
        cart_lines_wf(cart_lines@),
    ensures
        r is Some <==> (lines_prefix(cart_lines@, prices@, cart_lines.len() as int) is Some
            && gross_prefix(lines_prefix(cart_lines@, prices@, cart_lines.len() as int).unwrap(), cart_lines.len() as int) is Some),
        r matches Some(v) ==> {
            &&& v.0@ == lines_prefix(cart_lines@, prices@, cart_lines.len() as int).unwrap()
            &&& v.1 == money_dec(gross_prefix(v.0@, cart_lines.len() as int).unwrap())
            &&& lines_wf(v.0@)
            &&& v.1.wf()
            &&& v.1.scale <= 2
            &&& is_cents(v.1.units())
        },
{
    let n = cart_lines.len();
    let mut lines: Vec<ResolvedLine> = Vec::new();
    let mut k: usize = 0;
    while k < n
        invariant
            n == cart_lines.len(),
            n == prices.len(),
            k <= n,
            prices_wf(prices@),
            cart_lines_wf(cart_lines@),
            lines_wf(lines@),
            lines.len() == k,
            lines_prefix(cart_lines@, prices@, k as int) == Some(lines@),
        decreases n - k,
    {
        let cl = &cart_lines[k];
        let rp = &prices[k];
        proof {
            assert(prices@[k as int].unit_price.wf());
            assert(cart_lines@[k as int].query.quantity.wf());
        }
        let g = match dec_checked_mul(rp.unit_price, cl.query.quantity) {
            Some(g) => g,
            None => {
                proof {
                    assert(lines_prefix(cart_lines@, prices@, k as int + 1) is None);
                    lemma_lines_prefix_none(cart_lines@, prices@, k as int + 1, n as int);
                }
                return None;
            },
        };
        let l = ResolvedLine {
            line_id: cl.line_id,
            item_id: cl.query.item_id,
            quantity: cl.query.quantity,
            unit_price: rp.unit_price,
            line_discount_amount: rp.discount_amount,
            applied_rule_id: rp.applied_rule_id,
            order_discount_share: zero(),
            net_line_total: money(g),
        };
        lines.push(l);
        proof {
            assert(lines_wf(lines@)) by {
                assert forall|i: int| 0 <= i < lines@.len() implies (#[trigger] lines@[i]).wf() by {
                    if i < k as int {
                        assert(lines@[i] == lines@.drop_last()[i]);
                    }
                }
            }
        }
        k = k + 1;
    }
    let mut total = zero();
    let mut j: usize = 0;
    while j < n
        invariant
            n == lines.len(),
            n == cart_lines.len(),
            lines_prefix(cart_lines@, prices@, n as int) == Some(lines@),
            j <= n,
            lines_wf(lines@),
            total.wf(),
            gross_prefix(lines@, j as int) == Some(total),
        decreases n - j,
    {
        proof {
            assert(lines@[j as int].wf());
        }
        let g = match dec_checked_mul(lines[j].unit_price, lines[j].quantity) {
            Some(g) => g,
            None => {
                proof {
                    assert(gross_prefix(lines@, j as int + 1) is None);
                    lemma_gross_prefix_none(lines@, j as int + 1, n as int);
                }
                return None;
            },
        };
        total = match dec_checked_add(total, g) {
            Some(t) => t,
            None => {
                proof {
                    assert(gross_prefix(lines@, j as int + 1) is None);
                    lemma_gross_prefix_none(lines@, j as int + 1, n as int);
                }
                return None;
            },
        };
        j = j + 1;
    }
    Some((lines, money(total)))
}

/// Σ of the cart lines' quantities.  `None` on decimal overflow.
pub fn total_quantity(cart_lines: &Vec<CartLine>) -> (r: Option<Dec>)
    requires
        cart_lines_wf(cart_lines@),
    ensures
        r == quantity_prefix(cart_lines@, cart_lines.len() as int),
        r matches Some(q) ==> q.wf(),
{
    let mut total = zero();
    let mut k: usize = 0;
    while k < cart_lines.len()
        invariant
            k <= cart_lines.len(),
            cart_lines_wf(cart_lines@),
            total.wf(),
            quantity_prefix(cart_lines@, k as int) == Some(total),
        decreases cart_lines.len() - k,
    {
        proof {
            assert(cart_lines@[k as int].query.quantity.wf());
        }
        total = match dec_checked_add(total, cart_lines[k].query.quantity) {
            Some(t) => t,
            None => {
                proof {
                    assert(quantity_prefix(cart_lines@, k as int + 1) is None);
                    lemma_quantity_prefix_none(cart_lines@, k as int + 1, cart_lines.len() as int);
                }
                return None;
            },
        };
        k = k + 1;
    }
    Some(total)
}

/// A line reconciled: share rounded to cents, net = gross (rounded to cents) minus the share,
/// never negative.
pub open spec fn reconciled_line(l: ResolvedLine) -> Option<ResolvedLine> {
    match spec_checked_mul(l.unit_price, l.quantity) {
        None => None,
        Some(p) => {
            let gross = money_dec(p);
            let share = money_dec(l.order_discount_share);
            match spec_checked_sub(gross, share) {
                None => None,
                Some(d) => Some(ResolvedLine { order_discount_share: share, net_line_total: max_of(d, zero_dec()), ..l }),
            }
        },
    }
}

pub open spec fn reconcile_prefix(ls: Seq<ResolvedLine>, k: int) -> Option<Seq<ResolvedLine>>
    decreases k,
{
    if k <= 0 {
        Some(Seq::<ResolvedLine>::empty())
    } else {
        match reconcile_prefix(ls, k - 1) {
            None => None,
            Some(acc) => match reconciled_line(ls[k - 1]) {
                None => None,
                Some(l) => Some(acc.push(l)),
            },
        }
    }
}

/// Σ of the first `k` adjustments' discounts, added up from zero.
pub open spec fn discount_prefix(adjs: Seq<AdjView>, k: int) -> Option<Dec>
    decreases k,
{
    if k <= 0 {
        Some(zero_dec())
    } else {
        match discount_prefix(adjs, k - 1) {
            None => None,
            Some(acc) => spec_checked_add(acc, adjs[k - 1].1),
        }
    }
}

/// The lines of a finished pass state reconciled one by one, before their nets are tied out to
/// the total.
pub open spec fn untied_lines(m: PassView) -> Seq<ResolvedLine> {
    reconcile_prefix(m.0, m.0.len() as int).unwrap()
}

/// The resolved cart a finished pass state gives: reconciled lines with their nets tied out to
/// the total, the order discount total (rounded to cents) and the total
/// (`subtotal − order_discount_total`, rounded to cents).
pub open spec fn reconcile_spec(m: PassView, subtotal: Dec) -> Option<(Seq<ResolvedLine>, Dec, Dec)> {
    match reconcile_prefix(m.0, m.0.len() as int) {
        None => None,
        Some(ls) => match discount_prefix(m.3, m.3.len() as int) {
            None => None,
            Some(sum) => {
                let odt = money_dec(sum);
                match spec_checked_sub(subtotal, odt) {
                    None => None,
                    Some(t) => match tie_nets(ls, money_dec(t)) {
                        None => None,
                        Some(tied) => Some((tied, odt, money_dec(t))),
                    },
                }
            },
        },
    }
}

proof fn lemma_sum_discs_prefix(adjs: Seq<AdjView>, j: int)
    requires
        0 <= j <= adjs.len(),
        discs_positive(adjs),
    ensures
        0 <= sum_discs(adjs.subrange(0, j)) <= sum_discs(adjs),
    decreases adjs.len(),
{
    lemma_sum_discs_nonneg(adjs);
    if j == adjs.len() {
        assert(adjs.subrange(0, j) =~= adjs);
    } else {
        let d = adjs.drop_last();
        assert(discs_positive(d)) by {
            assert forall|i: int| 0 <= i < d.len() implies (#[trigger] d[i]).1.units() > 0 by {
                assert(d[i] == adjs[i]);
            }
        }
        lemma_sum_discs_prefix(d, j);
        assert(d.subrange(0, j) =~= adjs.subrange(0, j));
        assert(adjs[adjs.len() - 1].1.units() > 0);
    }
}

proof fn lemma_reconcile_none(ls: Seq<ResolvedLine>, k: int, n: int)
    requires
        0 < k <= n,
        reconcile_prefix(ls, k) is None,
    ensures
        reconcile_prefix(ls, n) is None,
    decreases n - k,
{
    if k < n {
        assert(reconcile_prefix(ls, k + 1) is None);
        lemma_reconcile_none(ls, k + 1, n);
    }
}

proof fn lemma_discount_none(adjs: Seq<AdjView>, k: int, n: int)
    requires
        0 < k <= n,
        discount_prefix(adjs, k) is None,
    ensures
        discount_prefix(adjs, n) is None,
    decreases n - k,
{
    if k < n {
        assert(discount_prefix(adjs, k + 1) is None);
        lemma_discount_none(adjs, k + 1, n);
    }
}

pub open spec fn adjustments_wf(adjs: Seq<AdjView>) -> bool {
    forall|i: int| 0 <= i < adjs.len() ==> (#[trigger] adjs[i]).1.wf()
}

impl CartPass {
    /// Reconcile the finished passes into the resolved cart.  `None` on decimal overflow.
    pub fn reconcile(self, subtotal: Dec) -> (r: Option<ResolvedCart>)
        requires
            self.wf(),
            subtotal.wf(),
            adjustments_wf(self.view_of().3),
        ensures
            r is Some <==> reconcile_spec(self.view_of(), subtotal) is Some,
            (r is Some && budget_ok(self.view_of()) && discs_cents(self.view_of().3) && discs_positive(
                self.view_of().3,
            ) && subtotal.scale <= 12 && is_cents(subtotal.units()) && open_value(self.view_of())
                == subtotal.units()) ==> {
                let c = r.unwrap();
                &&& c.order_discount_total.units() == sum_discs(self.view_of().3)
                &&& 0 <= c.order_discount_total.units() <= c.subtotal.units()
                &&& c.total.units() == c.subtotal.units() - c.order_discount_total.units()
            },
            r matches Some(c) ==> {
                let e = reconcile_spec(self.view_of(), subtotal).unwrap();
                &&& c.lines@ == e.0
                &&& c.order_adjustments@.map_values(|a: OrderAdjustment| adj_view(a)) == self.view_of().3
                &&& c.reward_lines@ == self.reward_lines@
                &&& c.subtotal == subtotal
                &&& c.order_discount_total == e.1
                &&& c.total == e.2
            },
            (r matches Some(c) && tie_in_range(untied_lines(self.view_of()), c.total)) ==> {
                let c = r.unwrap();
                &&& net_units_sum(c.lines@) == c.total.units()
                &&& nets_cents(c.lines@)
            },
    {
        let ghost m = self.view_of();
        let n = self.lines.len();
        let mut out: Vec<ResolvedLine> = Vec::new();
        let mut k: usize = 0;
        while k < n
            invariant
                n == self.lines.len(),
                k <= n,
                lines_wf(self.lines@),
                m == self.view_of(),
                reconcile_prefix(self.lines@, k as int) == Some(out@),
                lines_wf(out@),
                nets_nonneg(out@),
            decreases n - k,
        {
            let l = self.lines[k];
            proof {
                assert(self.lines@[k as int].wf());
            }
            let p = match dec_checked_mul(l.unit_price, l.quantity) {
                Some(p) => p,
                None => {
                    proof {
                        assert(reconcile_prefix(self.lines@, k as int + 1) is None);
                        lemma_reconcile_none(self.lines@, k as int + 1, n as int);
                    }
                    return None;
                },
            };
            let gross = money(p);
            let share = money(l.order_discount_share);
            let d = match dec_checked_sub(gross, share) {
                Some(d) => d,
                None => {
                    proof {
                        assert(reconcile_prefix(self.lines@, k as int + 1) is None);
                        lemma_reconcile_none(self.lines@, k as int + 1, n as int);
                    }
                    return None;
                },
            };
            let mut nl = l;
            nl.order_discount_share = share;
            nl.net_line_total = d.max(zero());
            proof {
                let o2 = out@.push(nl);
                assert(lines_wf(o2) && nets_nonneg(o2)) by {
                    assert forall|i: int| 0 <= i < o2.len() implies (#[trigger] o2[i]).wf()
                        && o2[i].net_line_total.units() >= 0 by {
                        if i < out@.len() {
                            assert(o2[i] == out@[i]);
                        }
                    }
                }
            }
            out.push(nl);
            k = k + 1;
        }
        let na = self.adjustments.len();
        let mut sum = zero();
        let ghost good = budget_ok(m) && discs_cents(m.3) && discs_positive(m.3);
        proof {
            if good {
                lemma_sum_discs_prefix(m.3, 0);
                assert(m.3.subrange(0, 0) =~= Seq::<AdjView>::empty());
            }
        }
        let mut j: usize = 0;
        while j < na
            invariant
                na == self.adjustments.len(),
                j <= na,
                m == self.view_of(),
                adjustments_wf(m.3),
                sum.wf(),
                discount_prefix(m.3, j as int) == Some(sum),
                good == (budget_ok(m) && discs_cents(m.3) && discs_positive(m.3)),
                good ==> (sum.units() == sum_discs(m.3.subrange(0, j as int)) && sum.scale <= 12 && is_cents(sum.units())),
            decreases na - j,
        {
            proof {
                assert(m.3[j as int] == adj_view(self.adjustments@[j as int]));
                assert(m.3[j as int].1.wf());
                if good {
                    lemma_sum_discs_prefix(m.3, j as int + 1);
                    assert(m.3.subrange(0, j as int + 1).drop_last() =~= m.3.subrange(0, j as int));
                    assert(is_cents(m.3[j as int].1.units()) && m.3[j as int].1.scale <= 12);
                    assert(m.3[j as int].1.units() > 0);
                    lemma_cents_add_sub(sum.units(), m.3[j as int].1.units());
                }
            }
            sum = match dec_checked_add(sum, self.adjustments[j].discount_amount) {
                Some(x) => x,
                None => {
                    proof {
                        assert(discount_prefix(m.3, j as int + 1) is None);
                        lemma_discount_none(m.3, j as int + 1, na as int);
                    }
                    return None;
                },
            };
            j = j + 1;
        }
        let odt = money(sum);
        proof {
            if good {
                assert(m.3.subrange(0, na as int) =~= m.3);
                lemma_money_units(sum.units());
                lemma_sum_discs_nonneg(m.3);
                if subtotal.scale <= 12 && is_cents(subtotal.units()) && open_value(m) == subtotal.units() {
                    lemma_cents_add_sub(subtotal.units(), odt.units());
                }
            }
        }
        let t = match dec_checked_sub(subtotal, odt) {
            Some(t) => t,
            None => return None,
        };
        proof {
            lemma_money_units(t.units());
            assert(untied_lines(m) == out@);
        }
        let total = money(t);
        let tied = match tie_out(out, total) {
            Some(v) => v,
            None => return None,
        };
        Some(
            ResolvedCart {
                lines: tied,
                order_adjustments: self.adjustments,
                reward_lines: self.reward_lines,
                subtotal,
                order_discount_total: odt,
                total,
            },
        )
    }
}

/// The basket the passes give, as a value: the reconciled lines, the order discount total and
/// the total; `None` where a pass's decimal arithmetic overflows.
pub open spec fn cart_outcome(
    cls: Seq<CartLine>,
    rps: Seq<ResolvedPrice>,
    bs: Seq<BundleCand>,
    rs: Seq<OrderRuleCand>,
) -> Option<(Seq<ResolvedLine>, Dec, Dec)> {
    match lines_prefix(cls, rps, cls.len() as int) {
        None => None,
        Some(ls) => match gross_prefix(ls, cls.len() as int) {
            None => None,
            Some(g) => {
                let subtotal = money_dec(g);
                let m0: PassView = (ls, subtotal, false, Seq::<AdjView>::empty(), Seq::<RewardLine>::empty());
                match bundle_pass_prefix(m0, bs, cls, bs.len() as int) {
                    None => None,
                    Some(bp) => {
                        let b = bp.0;
                        if b.2 {
                            reconcile_spec(b, subtotal)
                        } else {
                            match order_pass_prefix(b, rs, line_ids_of(b.0), rs.len() as int) {
                                None => None,
                                Some(op) => reconcile_spec(op.0, subtotal),
                            }
                        }
                    },
                }
            },
        },
    }
}

/// Resolve a basket from its lines' resolved prices and the bundles and order rules loaded for
/// it (each in the order they apply): the line pass, the bundle pass, the order pass (skipped
/// once an exclusive adjustment fired) and the reconciliation.  `None` where the decimal
/// arithmetic overflows.
///
/// While every order-level discount is a whole number of cents, the order discount total is
/// the sum of the adjustments, never exceeds the subtotal, and the total is the subtotal minus
/// it.
#[verifier::spinoff_prover]
#[verifier::rlimit(60)]
pub fn resolve_cart_passes(
    cart_lines: &Vec<CartLine>,
    prices: &Vec<ResolvedPrice>,
    bundles: &Vec<BundleCand>,
    rules: &Vec<OrderRuleCand>,
) -> (r: Option<ResolvedCart>)
    requires
        cart_lines.len() == prices.len(),
        prices_wf(prices@),
        cart_lines_wf(cart_lines@),
        forall|i: int| 0 <= i < bundles.len() ==> (#[trigger] bundles@[i]).wf(),
        forall|i: int| 0 <= i < rules.len() ==> (#[trigger] rules@[i]).wf(),
    ensures
        r is Some <==> cart_outcome(cart_lines@, prices@, bundles@, rules@) is Some,
        r matches Some(c) ==> {
            let ls = lines_prefix(cart_lines@, prices@, cart_lines.len() as int).unwrap();
            let subtotal = money_dec(gross_prefix(ls, cart_lines.len() as int).unwrap());
            let m0: PassView = (ls, subtotal, false, Seq::<AdjView>::empty(), Seq::<RewardLine>::empty());
            let b = bundle_pass_prefix(m0, bundles@, cart_lines@, bundles.len() as int).unwrap().0;
            let o = if b.2 { b } else { order_pass_prefix(b, rules@, line_ids_of(b.0), rules.len() as int).unwrap().0 };
            let e = reconcile_spec(o, subtotal).unwrap();
            &&& c.subtotal == subtotal
            &&& c.lines@ == e.0
            &&& c.order_adjustments@.map_values(|a: OrderAdjustment| adj_view(a)) == o.3
            &&& c.reward_lines@ == o.4
            &&& c.order_discount_total == e.1
            &&& c.total == e.2
            &&& tie_in_range(untied_lines(o), c.total) ==> (net_units_sum(c.lines@) == c.total.units()
                && nets_cents(c.lines@))
        },
        (r is Some && 0 <= r.unwrap().subtotal.units() <= 10000000000000000 * unit() && discs_cents(
            r.unwrap().order_adjustments@.map_values(|a: OrderAdjustment| adj_view(a)),
        )) ==> {
            let c = r.unwrap();
            &&& 0 <= c.order_discount_total.units() <= c.subtotal.units()
            &&& c.total.units() == c.subtotal.units() - c.order_discount_total.units()
        },
{
    let (lines, subtotal) = match priced_lines(cart_lines, prices) {
        Some(v) => v,
        None => return None,
    };
    let mut pass = CartPass::start(lines, subtotal);
    proof {
        assert(pass.view_of().3 =~= Seq::<AdjView>::empty());
        lemma_money_units(subtotal.units());
        assert(sum_discs(pass.view_of().3) == 0);
    }
    let ghost m0 = pass.view_of();
    proof {
        assert(pass.view_of().4 =~= Seq::<RewardLine>::empty());
        assert(m0 == (lines@, subtotal, false, Seq::<AdjView>::empty(), Seq::<RewardLine>::empty()));
        assert(discs_positive(m0.3));
        assert(adjustments_wf(m0.3));
        assert(exclusive_ok(m0));
    }
    if !pass.bundle_pass(bundles, cart_lines) {
        return None;
    }
    let ghost b = pass.view_of();
    if !pass.order_pass(rules) {
        return None;
    }
    let ghost o = pass.view_of();
    let r = pass.reconcile(subtotal);
    proof {
        if r is Some && 0 <= subtotal.units() <= 10000000000000000 * unit() {
            assert(sum_discs(m0.3) == 0);
            assert(open_value(m0) == subtotal.units());
            assert(budget_ok(m0));
            assert(budget_ok(o));
        }
    }
    r
}

// ---- order-rule selection ------------------------------------------------------------------

/// `a` applies before `b`: higher priority, then the narrower audience, then the newer rule,
/// then the smaller id.
pub open spec fn rule_precedes(a: OrderRuleCand, b: OrderRuleCand) -> bool {
    ||| a.priority > b.priority
    ||| (a.priority == b.priority && a.weight() > b.weight())
    ||| (a.priority == b.priority && a.weight() == b.weight() && b.valid_from.lt(&a.valid_from))
    ||| (a.priority == b.priority && a.weight() == b.weight() && a.valid_from == b.valid_from
        && a.id < b.id)
}

fn rule_precedes_exec(a: &OrderRuleCand, b: &OrderRuleCand) -> (r: bool)
    ensures
        r == rule_precedes(*a, *b),
{
    if a.priority != b.priority {
        return a.priority > b.priority;
    }
    let sa = a.specificity();
    let sb = b.specificity();
    if sa != sb {
        return sa > sb;
    }
    if a.valid_from.secs != b.valid_from.secs {
        return a.valid_from.secs > b.valid_from.secs;
    }
    if a.valid_from.nanos != b.valid_from.nanos {
        return a.valid_from.nanos > b.valid_from.nanos;
    }
    a.id < b.id
}

/// A coupon-gated rule takes part only when the cart's coupon unlocks this very rule.
pub open spec fn rule_unlocked(r: OrderRuleCand, unlocked_rule: Option<u128>) -> bool {
    !r.coupon_required || unlocked_rule == Some(r.id)
}

/// The rules of `rs` that take part, in the order given.
pub open spec fn unlocked_rules(rs: Seq<OrderRuleCand>, unlocked_rule: Option<u128>) -> Seq<OrderRuleCand> {
    rs.filter(|r: OrderRuleCand| rule_unlocked(r, unlocked_rule))
}

/// No rule in `rs` is preceded by a rule after it.
pub open spec fn rules_ordered(rs: Seq<OrderRuleCand>) -> bool {
    forall|i: int, j: int| 0 <= i < j < rs.len() ==> !rule_precedes(#[trigger] rs[j], #[trigger] rs[i])
}

proof fn lemma_rule_precedes_order(a: OrderRuleCand, b: OrderRuleCand, c: OrderRuleCand)
    ensures
        !rule_precedes(a, a),
        rule_precedes(a, b) && rule_precedes(b, c) ==> rule_precedes(a, c),
        !rule_precedes(a, b) && !rule_precedes(b, c) ==> !rule_precedes(a, c),
        !rule_precedes(a, b) ==> rule_precedes(b, a) || (a.priority == b.priority && a.weight()
            == b.weight() && a.valid_from == b.valid_from && a.id == b.id),
{
}

/// The cart's order rules in the order they apply: the coupon gate filters, then a stable sort
/// by priority, audience, recency and id.
pub fn order_rule_sequence(cands: Vec<OrderRuleCand>, unlocked_rule: Option<u128>) -> (r: Vec<OrderRuleCand>)
    ensures
        rules_ordered(r@),
        r@.to_multiset() == unlocked_rules(cands@, unlocked_rule).to_multiset(),
{
    let ghost orig = cands@;
    let ghost pred = |r: OrderRuleCand| rule_unlocked(r, unlocked_rule);
    let mut rest = cands;
    let mut out: Vec<OrderRuleCand> = Vec::new();
    let ghost mut k: int = 0;
    proof {
        assert(orig.subrange(0, 0).filter(pred) =~= Seq::<OrderRuleCand>::empty()) by {
            reveal(Seq::filter);
        }
    }
    while rest.len() > 0
        invariant
            0 <= k <= orig.len(),
            rest@ == orig.subrange(k, orig.len() as int),
            pred == (|r: OrderRuleCand| rule_unlocked(r, unlocked_rule)),
            rules_ordered(out@),
            out@.to_multiset() == orig.subrange(0, k).filter(pred).to_multiset(),
        decreases rest.len(),
    {
        let c = rest.remove(0);
        let ghost prev = orig.subrange(0, k).filter(pred);
        proof {
            assert(c == orig[k]);
            assert(orig.subrange(0, k + 1) =~= orig.subrange(0, k).push(c));
            orig.subrange(0, k).lemma_filter_push(c, pred);
            k = k + 1;
            assert(rest@ =~= orig.subrange(k, orig.len() as int));
            if pred(c) {
                assert(orig.subrange(0, k).filter(pred) == prev.push(c));
                vstd::seq_lib::to_multiset_build(prev, c);
            } else {
                assert(orig.subrange(0, k).filter(pred) == prev);
            }
        }
        if !c.coupon_required || unlocked_rule == Some(c.id) {
            let mut pos: usize = out.len();
            while pos > 0 && rule_precedes_exec(&c, &out[pos - 1])
                invariant
                    pos <= out.len(),
                    forall|j: int| pos <= j < out.len() ==> rule_precedes(c, #[trigger] out@[j]),
                decreases pos,
            {
                pos = pos - 1;
            }
            let ghost before = out@;
            proof {
                if pos > 0 {
                    assert(!rule_precedes(c, before[pos - 1]));
                }
            }
            out.insert(pos, c);
            proof {
                assert(out@ == before.insert(pos as int, c));
                vstd::seq_lib::to_multiset_insert(before, pos as int, c);
                assert forall|i: int, j: int| 0 <= i < j < out@.len() implies !rule_precedes(#[trigger] out@[j], #[trigger] out@[i]) by {
                    if j < pos {
                        assert(out@[i] == before[i] && out@[j] == before[j]);
                    } else if j == pos {
                        assert(out@[i] == before[i]);
                        lemma_rule_precedes_order(c, before[pos - 1], before[i]);
                        lemma_rule_precedes_order(before[pos - 1], c, before[pos - 1]);
                        if i < pos - 1 {
                            assert(!rule_precedes(before[pos - 1], before[i]));
                            lemma_rule_precedes_order(c, before[pos - 1], before[i]);
                        }
                    } else if i == pos {
                        assert(out@[j] == before[j - 1]);
                        assert(rule_precedes(c, before[j - 1]));
                        lemma_rule_precedes_order(before[j - 1], c, before[j - 1]);
                    } else if i > pos {
                        assert(out@[i] == before[i - 1] && out@[j] == before[j - 1]);
                    } else {
                        assert(out@[i] == before[i] && out@[j] == before[j - 1]);
                    }
                }
            }
        }
    }
    proof {
        assert(orig.subrange(0, orig.len() as int) =~= orig);
    }
    out
}


// ---- bundle assembly -----------------------------------------------------------------------

/// The payloads of the rows keyed by `id`, in row order.
pub open spec fn rows_for<T>(rows: Seq<(u128, T)>, id: u128) -> Seq<T>
    decreases rows.len(),
{
    if rows.len() == 0 {
        Seq::empty()
    } else {
        let prev = rows_for(rows.drop_last(), id);
        if rows.last().0 == id {
            prev.push(rows.last().1)
        } else {
            prev
        }
    }
}

/// Is the bundle at `i` the first of `bs` with its id?  Component and gift rows attach there.
pub open spec fn first_with_id(bs: Seq<BundleCand>, i: int) -> bool {
    forall|k: int| 0 <= k < i ==> #[trigger] bs[k].id != bs[i].id
}

/// The components the bundle at `i` carries once the component rows are attached.
pub open spec fn attached_components(
    bs: Seq<BundleCand>,
    i: int,
    rows: Seq<(u128, BundleComponentCand)>,
) -> Seq<BundleComponentCand> {
    if first_with_id(bs, i) {
        bs[i].components@ + rows_for(rows, bs[i].id)
    } else {
        bs[i].components@
    }
}

/// The gifts the bundle at `i` carries once the gift rows are attached.
pub open spec fn attached_gifts(bs: Seq<BundleCand>, i: int, rows: Seq<(u128, (u128, Dec))>) -> Seq<
    (u128, Dec),
> {
    if first_with_id(bs, i) {
        bs[i].gifts@ + rows_for(rows, bs[i].id)
    } else {
        bs[i].gifts@
    }
}

/// The positions among the first `n` bundles of those left with at least one component.
pub open spec fn kept_bundles(bs: Seq<BundleCand>, rows: Seq<(u128, BundleComponentCand)>, n: int) -> Seq<
    int,
>
    decreases n,
{
    if n <= 0 {
        Seq::empty()
    } else {
        let prev = kept_bundles(bs, rows, n - 1);
        if attached_components(bs, n - 1, rows).len() > 0 {
            prev.push(n - 1)
        } else {
            prev
        }
    }
}

/// `b` is `src` with the given components and gifts.
pub open spec fn bundle_with(
    b: BundleCand,
    src: BundleCand,
    comps: Seq<BundleComponentCand>,
    gifts: Seq<(u128, Dec)>,
) -> bool {
    &&& b.id == src.id
    &&& b.match_type == src.match_type
    &&& b.required_distinct == src.required_distinct
    &&& b.reward == src.reward
    &&& b.discount_percentage == src.discount_percentage
    &&& b.discount_amount == src.discount_amount
    &&& b.reward_item_id == src.reward_item_id
    &&& b.reward_qty == src.reward_qty
    &&& b.stackable == src.stackable
    &&& b.components@ == comps
    &&& b.gifts@ == gifts
}

proof fn lemma_kept_bounds(bs: Seq<BundleCand>, rows: Seq<(u128, BundleComponentCand)>, n: int)
    ensures
        kept_bundles(bs, rows, n).len() <= if n < 0 { 0 } else { n },
        forall|j: int| 0 <= j < kept_bundles(bs, rows, n).len() ==> 0 <= #[trigger] kept_bundles(bs, rows, n)[j] < n,
    decreases n,
{
    if n > 0 {
        lemma_kept_bounds(bs, rows, n - 1);
    }
}

fn copy_component(c: &BundleComponentCand) -> (r: BundleComponentCand)
    ensures
        r == *c,
{
    BundleComponentCand {
        apply_on: c.apply_on.clone(),
        item_id: c.item_id,
        item_group_id: c.item_group_id,
        brand_id: c.brand_id,
        min_qty: c.min_qty,
    }
}

/// Append to the bundle's components those of the rows keyed by its id, in row order.
fn attach_components(b: &mut BundleCand, rows: &Vec<(u128, BundleComponentCand)>)
    ensures
        bundle_with(*final(b), *old(b), old(b).components@ + rows_for(rows@, old(b).id), old(b).gifts@),
{
    let ghost start = b.components@;
    let mut c: usize = 0;
    while c < rows.len()
        invariant
            c <= rows.len(),
            bundle_with(*b, *old(b), start + rows_for(rows@.take(c as int), old(b).id), old(b).gifts@),
            start == old(b).components@,
        decreases rows.len() - c,
    {
        proof {
            assert(rows@.take(c as int + 1).drop_last() =~= rows@.take(c as int));
        }
        if rows[c].0 == b.id {
            let comp = copy_component(&rows[c].1);
            b.components.push(comp);
            proof {
                assert(b.components@ =~= start + rows_for(rows@.take(c as int + 1), old(b).id));
            }
        }
        c = c + 1;
    }
    proof {
        assert(rows@.take(rows.len() as int) =~= rows@);
    }
}

/// Append to the bundle's gifts those of the rows keyed by its id, in row order.
fn attach_gifts(b: &mut BundleCand, rows: &Vec<(u128, (u128, Dec))>)
    ensures
        bundle_with(*final(b), *old(b), old(b).components@, old(b).gifts@ + rows_for(rows@, old(b).id)),
{
    let ghost start = b.gifts@;
    let mut c: usize = 0;
    while c < rows.len()
        invariant
            c <= rows.len(),
            bundle_with(*b, *old(b), old(b).components@, start + rows_for(rows@.take(c as int), old(b).id)),
            start == old(b).gifts@,
        decreases rows.len() - c,
    {
        proof {
            assert(rows@.take(c as int + 1).drop_last() =~= rows@.take(c as int));
        }
        if rows[c].0 == b.id {
            b.gifts.push(rows[c].1);
            proof {
                assert(b.gifts@ =~= start + rows_for(rows@.take(c as int + 1), old(b).id));
            }
        }
        c = c + 1;
    }
    proof {
        assert(rows@.take(rows.len() as int) =~= rows@);
    }
}

fn id_listed(ids: &Vec<u128>, id: u128) -> (r: bool)
    ensures
        r == exists|k: int| 0 <= k < ids.len() && ids@[k] == id,
{
    let mut k: usize = 0;
    while k < ids.len()
        invariant
            k <= ids.len(),
            forall|t: int| 0 <= t < k ==> ids@[t] != id,
        decreases ids.len() - k,
    {
        if ids[k] == id {
            return true;
        }
        k = k + 1;
    }
    false
}

/// Give each bundle its component and gift rows (a row joins the first bundle with its id, rows
/// keeping their order), then drop every bundle left without components: such a bundle can
/// never be satisfied.
pub fn assemble_bundles(
    bundles: Vec<BundleCand>,
    components: &Vec<(u128, BundleComponentCand)>,
    gifts: &Vec<(u128, (u128, Dec))>,
) -> (r: Vec<BundleCand>)
    ensures
        r.len() == kept_bundles(bundles@, components@, bundles.len() as int).len(),
        forall|j: int|
            0 <= j < r.len() ==> {
                let i = #[trigger] kept_bundles(bundles@, components@, bundles.len() as int)[j];
                bundle_with(
                    r@[j],
                    bundles@[i],
                    attached_components(bundles@, i, components@),
                    attached_gifts(bundles@, i, gifts@),
                )
            },
{
    let ghost orig = bundles@;
    let mut rest = bundles;
    let mut out: Vec<BundleCand> = Vec::new();
    let mut seen: Vec<u128> = Vec::new();
    let ghost mut i: int = 0;
    while rest.len() > 0
        invariant
            0 <= i <= orig.len(),
            rest@ == orig.subrange(i, orig.len() as int),
            seen.len() == i,
            forall|k: int| 0 <= k < i ==> seen@[k] == #[trigger] orig[k].id,
            out.len() == kept_bundles(orig, components@, i).len(),
            forall|j: int|
                0 <= j < out.len() ==> {
                    let t = #[trigger] kept_bundles(orig, components@, i)[j];
                    bundle_with(
                        out@[j],
                        orig[t],
                        attached_components(orig, t, components@),
                        attached_gifts(orig, t, gifts@),
                    )
                },
        decreases rest.len(),
    {
        let mut b = rest.remove(0);
        let ghost b0 = b;
        proof {
            assert(b0 == orig[i]);
        }
        let listed = id_listed(&seen, b.id);
        proof {
            if listed {
                let k = choose|k: int| 0 <= k < seen.len() && seen@[k] == b0.id;
                assert(orig[k].id == orig[i].id);
                assert(!first_with_id(orig, i));
            } else {
                assert forall|k: int| 0 <= k < i implies #[trigger] orig[k].id != orig[i].id by {
                    assert(seen@[k] == orig[k].id);
                }
                assert(first_with_id(orig, i));
            }
        }
        if !listed {
            attach_components(&mut b, components);
            attach_gifts(&mut b, gifts);
        }
        proof {
            assert(bundle_with(b, orig[i], attached_components(orig, i, components@), attached_gifts(orig, i, gifts@)));
        }
        seen.push(b.id);
        let ghost prev_out = out@;
        let ghost prev_kept = kept_bundles(orig, components@, i);
        if b.components.len() > 0 {
            out.push(b);
        }
        proof {
            assert(kept_bundles(orig, components@, i + 1) == if attached_components(orig, i, components@).len() > 0 {
                prev_kept.push(i)
            } else {
                prev_kept
            });
            i = i + 1;
            assert(rest@ =~= orig.subrange(i, orig.len() as int));
            assert forall|j: int| 0 <= j < out.len() implies {
                let t = #[trigger] kept_bundles(orig, components@, i)[j];
                bundle_with(
                    out@[j],
                    orig[t],
                    attached_components(orig, t, components@),
                    attached_gifts(orig, t, gifts@),
                )
            } by {
                if j < prev_out.len() {
                    assert(out@[j] == prev_out[j]);
                    assert(kept_bundles(orig, components@, i)[j] == prev_kept[j]);
                }
            }
        }
    }
    proof {
        assert(i == orig.len());
    }
    out
}

} // verus!
