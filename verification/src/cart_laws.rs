//! What the cart's bundle and order-rule decisions mean, stated over all inputs.

use vstd::prelude::*;
use crate::cart::{
    BundleCand, BundleComponentCand, CartLine, OrderRuleCand, ResolvedLine, bundle_reward_spec,
    bundle_sets, component_fill_spec, component_matches, matched_prefix, order_discount,
    rule_precedes, rule_unlocked, rules_ordered, sat_prefix, unlocked_rules,
};
use crate::decimal::{Dec, unit, money_dec};

verus! {

/// The sets the `i`-th component of `b` makes over the cart on its own.
pub open spec fn fill_of(b: BundleCand, cls: Seq<CartLine>, ls: Seq<ResolvedLine>, i: int) -> Dec {
    component_fill_spec(b.components@[i], cls, ls).unwrap().0
}

/// How many of the first `k` components of `b` make at least one set.
pub open spec fn filled_count(b: BundleCand, cls: Seq<CartLine>, ls: Seq<ResolvedLine>, k: int) -> int
    decreases k,
{
    if k <= 0 {
        0
    } else {
        filled_count(b, cls, ls, k - 1) + (if fill_of(b, cls, ls, k - 1).units() >= unit() { 1int } else { 0int })
    }
}

/// The value of the lines that satisfied `b`, rounded to cents.
pub open spec fn bundle_value(b: BundleCand, cls: Seq<CartLine>, ls: Seq<ResolvedLine>) -> Option<Dec> {
    match bundle_sets(b, cls, ls) {
        None => None,
        Some(st) => match matched_prefix(ls, st.1, ls.len() as int) {
            None => None,
            Some(t) => Some(money_dec(t)),
        },
    }
}

/// Which lines a bundle component matches: an `item` component the lines of its item; an
/// `item_group` component, when it names a group, the lines in that group; a `brand` component,
/// when it names a brand, the lines of that brand; each compared with that one dimension of the
/// line alone, and any other selector matches nothing.
pub proof fn lemma_component_matching(c: BundleComponentCand, l: ResolvedLine, cl: CartLine)
    ensures
        c.apply_on@ == "item"@ ==> (component_matches(c, l, cl) <==> c.item_id == Some(l.item_id)),
        c.apply_on@ == "item_group"@ ==> (component_matches(c, l, cl) <==> (c.item_group_id is Some
            && c.item_group_id == cl.query.item_group_id)),
        c.apply_on@ == "brand"@ ==> (component_matches(c, l, cl) <==> (c.brand_id is Some && c.brand_id
            == cl.query.brand_id)),
        (c.apply_on@ != "item"@ && c.apply_on@ != "item_group"@ && c.apply_on@ != "brand"@)
            ==> !component_matches(c, l, cl),
{
    reveal_strlit("item");
    reveal_strlit("item_group");
    reveal_strlit("brand");
    assert("item"@.len() == 4);
    assert("item_group"@.len() == 10);
    assert("brand"@.len() == 5);
    assert("item"@ != "item_group"@);
    assert("item"@ != "brand"@);
    assert("item_group"@ != "brand"@);
}

/// The running component state after the first `k` components: every component's fill is
/// defined, the count is the number of components with at least one set, and the fewest sets is
/// at most each such component's sets and is one of them.
proof fn lemma_sat_prefix_facts(b: BundleCand, cls: Seq<CartLine>, ls: Seq<ResolvedLine>, k: int)
    requires
        0 <= k <= b.components.len(),
        sat_prefix(b, cls, ls, k) is Some,
    ensures
        ({
            let st = sat_prefix(b, cls, ls, k).unwrap();
            &&& 0 <= st.0 <= k
            &&& st.0 == filled_count(b, cls, ls, k)
            &&& forall|i: int| 0 <= i < k ==> (#[trigger] component_fill_spec(b.components@[i], cls, ls)) is Some
            &&& forall|i: int|
                0 <= i < k && (#[trigger] fill_of(b, cls, ls, i)).units() >= unit() ==> st.1 is Some
                    && st.1.unwrap().units() <= fill_of(b, cls, ls, i).units()
            &&& st.1 matches Some(m) ==> exists|i: int|
                0 <= i < k && (#[trigger] fill_of(b, cls, ls, i)).units() >= unit() && m == fill_of(
                    b,
                    cls,
                    ls,
                    i,
                )
        }),
    decreases k,
{
    if k > 0 {
        let prev = sat_prefix(b, cls, ls, k - 1);
        assert(prev is Some);
        lemma_sat_prefix_facts(b, cls, ls, k - 1);
        let st0 = prev.unwrap();
        let f = component_fill_spec(b.components@[k - 1], cls, ls);
        assert(f is Some);
        let st = sat_prefix(b, cls, ls, k).unwrap();
        assert(fill_of(b, cls, ls, k - 1) == f.unwrap().0);
        assert forall|i: int| 0 <= i < k implies (#[trigger] component_fill_spec(b.components@[i], cls, ls)) is Some by {
            if i < k - 1 {
                assert(component_fill_spec(b.components@[i], cls, ls) is Some);
            }
        }
        if f.unwrap().0.units() >= unit() {
            assert forall|i: int|
                0 <= i < k && (#[trigger] fill_of(b, cls, ls, i)).units() >= unit() implies st.1 is Some
                    && st.1.unwrap().units() <= fill_of(b, cls, ls, i).units() by {
                if i < k - 1 {
                    assert(st0.1 is Some && st0.1.unwrap().units() <= fill_of(b, cls, ls, i).units());
                }
            }
            match st0.1 {
                None => {
                    assert(st.1 == Some(fill_of(b, cls, ls, k - 1)));
                },
                Some(m) => {
                    let w = choose|i: int|
                        0 <= i < k - 1 && (#[trigger] fill_of(b, cls, ls, i)).units() >= unit() && m == fill_of(
                            b,
                            cls,
                            ls,
                            i,
                        );
                    if f.unwrap().0.units() < m.units() {
                        assert(st.1 == Some(fill_of(b, cls, ls, k - 1)));
                    } else {
                        assert(st.1 == Some(fill_of(b, cls, ls, w)));
                    }
                },
            }
        } else {
            assert(st == st0);
            assert forall|i: int|
                0 <= i < k && (#[trigger] fill_of(b, cls, ls, i)).units() >= unit() implies st.1 is Some
                    && st.1.unwrap().units() <= fill_of(b, cls, ls, i).units() by {
                if i < k - 1 {
                    assert(st0.1 is Some && st0.1.unwrap().units() <= fill_of(b, cls, ls, i).units());
                }
            }
            if st.1 is Some {
                let m = st.1.unwrap();
                let w = choose|i: int|
                    0 <= i < k - 1 && (#[trigger] fill_of(b, cls, ls, i)).units() >= unit() && m == fill_of(
                        b,
                        cls,
                        ls,
                        i,
                    );
                assert(0 <= w < k && fill_of(b, cls, ls, w).units() >= unit() && m == fill_of(b, cls, ls, w));
            }
        }
    }
}

/// `filled_count` is at most `k`, and is `k` exactly when every one of the first `k` components
/// makes at least one set.
proof fn lemma_filled_count_full(b: BundleCand, cls: Seq<CartLine>, ls: Seq<ResolvedLine>, k: int)
    requires
        0 <= k,
    ensures
        0 <= filled_count(b, cls, ls, k) <= k,
        filled_count(b, cls, ls, k) == k <==> forall|i: int| 0 <= i < k ==> (#[trigger] fill_of(b, cls, ls, i)).units()
            >= unit(),
    decreases k,
{
    if k > 0 {
        lemma_filled_count_full(b, cls, ls, k - 1);
        if fill_of(b, cls, ls, k - 1).units() >= unit() {
            assert forall|i: int| 0 <= i < k - 1 && (forall|j: int| 0 <= j < k ==> (#[trigger] fill_of(b, cls, ls, j)).units() >= unit())
                implies fill_of(b, cls, ls, i).units() >= unit() by {}
        } else {
            assert(!(forall|i: int| 0 <= i < k ==> (#[trigger] fill_of(b, cls, ls, i)).units() >= unit()));
        }
    }
}

/// An `all_of` bundle makes as many sets as its scarcest component: when every component makes
/// at least one set, the bundle's sets are at most each component's sets and equal one of them;
/// when any component makes none, the bundle makes none.
pub proof fn lemma_all_of_sets_are_the_fewest(b: BundleCand, cls: Seq<CartLine>, ls: Seq<ResolvedLine>)
    requires
        b.match_type@ != "any_n"@,
        bundle_sets(b, cls, ls) is Some,
    ensures
        ({
            let s = bundle_sets(b, cls, ls).unwrap().0;
            let n = b.components.len() as int;
            &&& (n > 0 && forall|i: int| 0 <= i < n ==> (#[trigger] fill_of(b, cls, ls, i)).units() >= unit())
                ==> ((forall|i: int| 0 <= i < n ==> s.units() <= (#[trigger] fill_of(b, cls, ls, i)).units())
                && exists|i: int| 0 <= i < n && s == #[trigger] fill_of(b, cls, ls, i))
            &&& (exists|i: int| 0 <= i < n && (#[trigger] fill_of(b, cls, ls, i)).units() < unit()) ==> s.units()
                == 0
        }),
{
    let n = b.components.len() as int;
    lemma_sat_prefix_facts(b, cls, ls, n);
    lemma_filled_count_full(b, cls, ls, n);
    let st = sat_prefix(b, cls, ls, n).unwrap();
    let s = bundle_sets(b, cls, ls).unwrap().0;
    if n > 0 && forall|i: int| 0 <= i < n ==> (#[trigger] fill_of(b, cls, ls, i)).units() >= unit() {
        assert(fill_of(b, cls, ls, 0).units() >= unit());
        assert(st.1 is Some);
        assert(st.0 == n);
        assert(s == st.1.unwrap());
        assert forall|i: int| 0 <= i < n implies s.units() <= (#[trigger] fill_of(b, cls, ls, i)).units() by {
            assert(fill_of(b, cls, ls, i).units() >= unit());
        }
        let w = choose|i: int|
            0 <= i < n && (#[trigger] fill_of(b, cls, ls, i)).units() >= unit() && st.1.unwrap() == fill_of(b, cls, ls, i);
        assert(0 <= w < n && s == fill_of(b, cls, ls, w));
    }
    if exists|i: int| 0 <= i < n && (#[trigger] fill_of(b, cls, ls, i)).units() < unit() {
        let w = choose|i: int| 0 <= i < n && (#[trigger] fill_of(b, cls, ls, i)).units() < unit();
        assert(!(forall|i: int| 0 <= i < n ==> (#[trigger] fill_of(b, cls, ls, i)).units() >= unit()));
        assert(st.0 != n);
        assert(s == crate::resolve::zero_dec());
        crate::decimal::lemma_units_sign(crate::resolve::zero_dec());
    }
    assert((exists|i: int| 0 <= i < n && (#[trigger] fill_of(b, cls, ls, i)).units() < unit()) ==> s.units() == 0);
}

/// An `any_n` bundle makes one set exactly when at least `required_distinct` of its components
/// (all of them when unset, and at least one) make a set, and none otherwise.
pub proof fn lemma_any_n_sets(b: BundleCand, cls: Seq<CartLine>, ls: Seq<ResolvedLine>)
    requires
        b.match_type@ == "any_n"@,
        bundle_sets(b, cls, ls) is Some,
    ensures
        ({
            let s = bundle_sets(b, cls, ls).unwrap().0;
            let n = b.components.len() as int;
            let need0 = match b.required_distinct {
                Some(d) => d as int,
                None => n,
            };
            let need = if need0 < 1 { 1 } else { need0 };
            &&& filled_count(b, cls, ls, n) >= need ==> s.units() == unit() && s.scale == 0
            &&& filled_count(b, cls, ls, n) < need ==> s.units() == 0
        }),
{
    let n = b.components.len() as int;
    lemma_sat_prefix_facts(b, cls, ls, n);
    crate::decimal::lemma_pow10_28();
    crate::decimal::lemma_units_sign(crate::resolve::zero_dec());
    assert(crate::cart::one_dec().units() == unit());
    assert(crate::cart::one_dec().scale == 0);
}

/// A satisfied percentage bundle's discount depends only on its percentage and the value of the
/// lines that satisfied it, not on how many sets they make: two satisfied percentage bundles with
/// the same percentage over lines of the same value grant the same discount, and it is never more
/// than that value.
pub proof fn lemma_percentage_reward_ignores_sets(
    b1: BundleCand,
    cls1: Seq<CartLine>,
    ls1: Seq<ResolvedLine>,
    b2: BundleCand,
    cls2: Seq<CartLine>,
    ls2: Seq<ResolvedLine>,
)
    requires
        b1.reward@ == "discount_percentage"@,
        b2.reward@ == "discount_percentage"@,
        b1.discount_percentage == b2.discount_percentage,
        bundle_sets(b1, cls1, ls1) matches Some(s) && s.0.units() >= unit(),
        bundle_sets(b2, cls2, ls2) matches Some(s) && s.0.units() >= unit(),
        bundle_value(b1, cls1, ls1) is Some,
        bundle_value(b1, cls1, ls1) == bundle_value(b2, cls2, ls2),
        bundle_reward_spec(b1, cls1, ls1) is Some,
        bundle_reward_spec(b2, cls2, ls2) is Some,
    ensures
        bundle_reward_spec(b1, cls1, ls1).unwrap().0 == bundle_reward_spec(b2, cls2, ls2).unwrap().0,
        bundle_reward_spec(b1, cls1, ls1).unwrap().0.units() <= bundle_value(b1, cls1, ls1).unwrap().units(),
{
}

/// In an order the cart's order rules apply in (`rules_ordered`, as `order_rule_sequence`
/// returns them), a rule comes before every rule of lower priority; at equal priority, before
/// every rule of a lower audience weight (a customer rule +2, a customer-group rule +1); at equal
/// priority and weight, before every older rule; and at equal priority, weight and start, before
/// every rule with a larger id.
pub proof fn lemma_rule_sequence_order(rs: Seq<OrderRuleCand>, i: int, j: int)
    requires
        rules_ordered(rs),
        0 <= i < rs.len(),
        0 <= j < rs.len(),
        ({
            let a = rs[i];
            let b = rs[j];
            ||| a.priority > b.priority
            ||| (a.priority == b.priority && a.weight() > b.weight())
            ||| (a.priority == b.priority && a.weight() == b.weight() && b.valid_from.lt(&a.valid_from))
            ||| (a.priority == b.priority && a.weight() == b.weight() && a.valid_from == b.valid_from
                && a.id < b.id)
        }),
    ensures
        i < j,
        rule_precedes(rs[i], rs[j]),
        !rule_precedes(rs[j], rs[i]),
{
    let a = rs[i];
    let b = rs[j];
    assert(rule_precedes(a, b));
    if j < i {
        assert(!rule_precedes(rs[i], rs[j]));
    }
    if i == j {
        assert(!b.valid_from.lt(&a.valid_from));
    }
}

/// The rules a cart's order pass applies are exactly the given rules the coupon gate lets
/// through: a coupon-gated rule only when the cart's coupon unlocks that very rule, an ungated
/// rule always.
pub proof fn lemma_rule_sequence_members(
    out: Seq<OrderRuleCand>,
    cands: Seq<OrderRuleCand>,
    unlocked_rule: Option<u128>,
    x: OrderRuleCand,
)
    requires
        out.to_multiset() == unlocked_rules(cands, unlocked_rule).to_multiset(),
    ensures
        out.contains(x) <==> (cands.contains(x) && (!x.coupon_required || unlocked_rule == Some(x.id))),
{
    broadcast use vstd::seq_lib::to_multiset_contains;
    let pred = |r: OrderRuleCand| rule_unlocked(r, unlocked_rule);
    let f = cands.filter(pred);
    assert(unlocked_rules(cands, unlocked_rule) == f);
    assert(out.contains(x) <==> out.to_multiset().count(x) > 0);
    assert(f.contains(x) <==> f.to_multiset().count(x) > 0);
    if f.contains(x) {
        let i = choose|i: int| 0 <= i < f.len() && f[i] == x;
        cands.lemma_filter_pred(pred, i);
        cands.lemma_filter_contains_rev(pred, x);
    }
    if cands.contains(x) && pred(x) {
        let i = choose|i: int| 0 <= i < cands.len() && cands[i] == x;
        cands.lemma_filter_contains(pred, i);
    }
}

/// An order rule's discount off a remaining value `base`: a positive `discount_upto` caps it; a
/// fixed-amount rule takes the same discount whatever the base; and a rule with neither a
/// percentage nor an amount effect takes nothing.
pub proof fn lemma_order_discount(r: OrderRuleCand, base: Dec, other_base: Dec)
    ensures
        (order_discount(r, base) is Some && r.discount_upto is Some && r.discount_upto.unwrap().units() > 0)
            ==> order_discount(r, base).unwrap().units() <= r.discount_upto.unwrap().units(),
        r.rate_or_discount@ == "discount_amount"@ ==> order_discount(r, base) == order_discount(r, other_base),
        (r.rate_or_discount@ != "discount_amount"@ && r.rate_or_discount@ != "discount_percentage"@)
            ==> (order_discount(r, base) matches Some(d) && d.units() == 0),
{
    reveal_strlit("discount_amount");
    reveal_strlit("discount_percentage");
    assert("discount_amount"@.len() == 15);
    assert("discount_percentage"@.len() == 19);
    crate::decimal::lemma_units_sign(crate::resolve::zero_dec());
}

} // verus!
