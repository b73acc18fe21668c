//! Tying a basket's line nets out to its total, to the cent.
//!
//! Each line's net is rounded to cents on its own, while the total is rounded once over the
//! whole basket, so the nets can miss the total by a few cents.  The difference is carried by
//! the lines: a shortfall is added to the first line, an excess is taken from the lines in order,
//! never pushing one below zero.

use vstd::prelude::*;
use crate::cart::{ResolvedLine, lines_wf};
use crate::decimal::{
    Dec, cents_limit, is_cents, dec_sub, dec_checked_add, dec_checked_sub, spec_dec_sub, spec_checked_add,
    spec_checked_sub, lemma_wf_units_bound, lemma_negated_units, neg_dec,
    lemma_scale2_is_cents,
};
use crate::resolve::{zero_dec, zero};

verus! {

/// The magnitude up to which sums of cents are exact decimal arithmetic: the largest value a
/// decimal holds at two decimal places.
pub open spec fn exact_limit() -> int {
    cents_limit()
}

/// Σ of the lines' nets, in units.
pub open spec fn net_units_sum(ls: Seq<ResolvedLine>) -> int
    decreases ls.len(),
{
    if ls.len() == 0 {
        0
    } else {
        net_units_sum(ls.drop_last()) + ls.last().net_line_total.units()
    }
}

/// No line's net is negative.
pub open spec fn nets_nonneg(ls: Seq<ResolvedLine>) -> bool {
    forall|i: int| 0 <= i < ls.len() ==> (#[trigger] ls[i]).net_line_total.units() >= 0
}

/// Every net is a non-negative number of cents held at scale at most 2.
pub open spec fn nets_cents(ls: Seq<ResolvedLine>) -> bool {
    forall|i: int|
        0 <= i < ls.len() ==> {
            let n = (#[trigger] ls[i]).net_line_total;
            n.scale <= 2 && is_cents(n.units()) && n.units() >= 0
        }
}

/// The inputs on which the nets are tied out exactly: nets in cents whose sum, like the total,
/// lies within `exact_limit`; the total not negative; and a line to carry it unless it is zero.
pub open spec fn tie_in_range(ls: Seq<ResolvedLine>, total: Dec) -> bool {
    &&& nets_cents(ls)
    &&& total.scale <= 2
    &&& 0 <= total.units() <= exact_limit()
    &&& net_units_sum(ls) <= exact_limit()
    &&& (ls.len() > 0 || total.units() == 0)
}

/// Σ of the nets of the first `k` lines, added up from zero.
pub open spec fn net_prefix(ls: Seq<ResolvedLine>, k: int) -> Option<Dec>
    decreases k,
{
    if k <= 0 {
        Some(zero_dec())
    } else {
        match net_prefix(ls, k - 1) {
            None => None,
            Some(acc) => spec_checked_add(acc, ls[k - 1].net_line_total),
        }
    }
}

/// One line lowered by what is still `owed`: by all of it, or by the line's whole net where that
/// is smaller; unchanged once nothing is owed.  Gives the line and what is still owed after it.
pub open spec fn lower_step(l: ResolvedLine, owed: Dec) -> (ResolvedLine, Dec) {
    if owed.units() > 0 {
        let net = l.net_line_total;
        let take = if owed.units() < net.units() {
            owed
        } else {
            net
        };
        (ResolvedLine { net_line_total: spec_dec_sub(net, take), ..l }, spec_dec_sub(owed, take))
    } else {
        (l, owed)
    }
}

/// The first `k` lines lowered in order, starting with `owed` to take, and what is left owed.
pub open spec fn lower_prefix(ls: Seq<ResolvedLine>, owed: Dec, k: int) -> (Seq<ResolvedLine>, Dec)
    decreases k,
{
    if k <= 0 {
        (Seq::<ResolvedLine>::empty(), owed)
    } else {
        let p = lower_prefix(ls, owed, k - 1);
        let s = lower_step(ls[k - 1], p.1);
        (p.0.push(s.0), s.1)
    }
}

/// The lines with their nets tied out to `total`: where the nets fall short of it the difference
/// is added to the first line; where they exceed it the difference is taken from the lines in
/// order.  `None` where a decimal operation overflows.
pub open spec fn tie_nets(ls: Seq<ResolvedLine>, total: Dec) -> Option<Seq<ResolvedLine>> {
    match net_prefix(ls, ls.len() as int) {
        None => None,
        Some(s) => match spec_checked_sub(total, s) {
            None => None,
            Some(drift) => if drift.units() > 0 && ls.len() > 0 {
                match spec_checked_add(ls[0].net_line_total, drift) {
                    None => None,
                    Some(n0) => Some(ls.update(0, ResolvedLine { net_line_total: n0, ..ls[0] })),
                }
            } else if drift.units() < 0 {
                Some(lower_prefix(ls, neg_dec(drift), ls.len() as int).0)
            } else {
                Some(ls)
            },
        },
    }
}

proof fn lemma_net_prefix_none(ls: Seq<ResolvedLine>, k: int, n: int)
    requires
        0 < k <= n,
        net_prefix(ls, k) is None,
    ensures
        net_prefix(ls, n) is None,
    decreases n - k,
{
    if k < n {
        assert(net_prefix(ls, k + 1) is None);
        lemma_net_prefix_none(ls, k + 1, n);
    }
}

proof fn lemma_net_sum_push(s: Seq<ResolvedLine>, x: ResolvedLine)
    ensures
        net_units_sum(s.push(x)) == net_units_sum(s) + x.net_line_total.units(),
{
    assert(s.push(x).drop_last() =~= s);
}

proof fn lemma_net_sum_take(ls: Seq<ResolvedLine>, k: int)
    requires
        0 <= k < ls.len(),
    ensures
        net_units_sum(ls.subrange(0, k + 1)) == net_units_sum(ls.subrange(0, k)) + ls[k].net_line_total.units(),
{
    assert(ls.subrange(0, k + 1).drop_last() =~= ls.subrange(0, k));
}

proof fn lemma_net_sum_nonneg(ls: Seq<ResolvedLine>)
    requires
        nets_nonneg(ls),
    ensures
        net_units_sum(ls) >= 0,
    decreases ls.len(),
{
    if ls.len() > 0 {
        let d = ls.drop_last();
        assert(nets_nonneg(d)) by {
            assert forall|i: int| 0 <= i < d.len() implies (#[trigger] d[i]).net_line_total.units() >= 0 by {
                assert(d[i] == ls[i]);
            }
        }
        lemma_net_sum_nonneg(d);
        assert(ls[ls.len() - 1].net_line_total.units() >= 0);
    }
}

proof fn lemma_net_sum_prefix_bounds(ls: Seq<ResolvedLine>, k: int)
    requires
        nets_nonneg(ls),
        0 <= k <= ls.len(),
    ensures
        0 <= net_units_sum(ls.subrange(0, k)) <= net_units_sum(ls),
    decreases ls.len(),
{
    if k == ls.len() {
        assert(ls.subrange(0, k) =~= ls);
        lemma_net_sum_nonneg(ls);
    } else {
        let d = ls.drop_last();
        assert(nets_nonneg(d)) by {
            assert forall|i: int| 0 <= i < d.len() implies (#[trigger] d[i]).net_line_total.units() >= 0 by {
                assert(d[i] == ls[i]);
            }
        }
        lemma_net_sum_prefix_bounds(d, k);
        assert(d.subrange(0, k) =~= ls.subrange(0, k));
        assert(ls[ls.len() - 1].net_line_total.units() >= 0);
    }
}

proof fn lemma_net_sum_update(ls: Seq<ResolvedLine>, i: int, x: ResolvedLine)
    requires
        0 <= i < ls.len(),
    ensures
        net_units_sum(ls.update(i, x)) == net_units_sum(ls) - ls[i].net_line_total.units()
            + x.net_line_total.units(),
    decreases ls.len(),
{
    let u = ls.update(i, x);
    if i == ls.len() - 1 {
        assert(u.drop_last() =~= ls.drop_last());
    } else {
        assert(u.drop_last() =~= ls.drop_last().update(i, x));
        lemma_net_sum_update(ls.drop_last(), i, x);
    }
}

/// The lines with their nets tied out to `total`, as `tie_nets` describes.  On the inputs where
/// that is exact (`tie_in_range`) it always succeeds and the nets add up to `total` exactly,
/// each still a non-negative number of cents.
pub fn tie_out(lines: Vec<ResolvedLine>, total: Dec) -> (r: Option<Vec<ResolvedLine>>)
    requires
        lines_wf(lines@),
        nets_nonneg(lines@),
        total.wf(),
    ensures
        match r {
            None => tie_nets(lines@, total) is None,
            Some(v) => tie_nets(lines@, total) == Some(v@),
        },
        r matches Some(v) ==> lines_wf(v@),
        tie_in_range(lines@, total) ==> (r matches Some(v) && net_units_sum(v@) == total.units()
            && nets_cents(v@)),
{
    let n = lines.len();
    let ghost ls = lines@;
    let ghost exact = tie_in_range(ls, total);
    let mut s = zero();
    let mut k: usize = 0;
    while k < n
        invariant
            n == lines.len(),
            ls == lines@,
            k <= n,
            lines_wf(ls),
            nets_nonneg(ls),
            total.wf(),
            exact == tie_in_range(ls, total),
            s.wf(),
            net_prefix(ls, k as int) == Some(s),
            exact ==> (s.scale <= 2 && s.units() == net_units_sum(ls.subrange(0, k as int))),
        decreases n - k,
    {
        proof {
            assert(ls[k as int].wf());
            if exact {
                lemma_net_sum_take(ls, k as int);
                lemma_net_sum_prefix_bounds(ls, k as int + 1);
                lemma_net_sum_prefix_bounds(ls, k as int);
                assert(ls[k as int].net_line_total.scale <= 2);
            }
        }
        s = match dec_checked_add(s, lines[k].net_line_total) {
            Some(x) => x,
            None => {
                proof {
                    assert(net_prefix(ls, k as int + 1) is None);
                    lemma_net_prefix_none(ls, k as int + 1, n as int);
                }
                return None;
            },
        };
        k = k + 1;
    }
    proof {
        if exact {
            assert(ls.subrange(0, n as int) =~= ls);
            lemma_net_sum_nonneg(ls);
        }
    }
    let drift = match dec_checked_sub(total, s) {
        Some(d) => d,
        None => return None,
    };
    if drift.is_positive() && n > 0 {
        let l0 = lines[0];
        proof {
            assert(ls[0].wf());
            if exact {
                lemma_net_sum_prefix_bounds(ls, 1);
                lemma_net_sum_take(ls, 0);
                assert(ls[0].net_line_total.scale <= 2);
            }
        }
        let n0 = match dec_checked_add(l0.net_line_total, drift) {
            Some(x) => x,
            None => return None,
        };
        let mut v = lines;
        let mut nl = l0;
        nl.net_line_total = n0;
        v.set(0, nl);
        proof {
            assert(v@ =~= ls.update(0, nl));
            assert(lines_wf(v@)) by {
                assert forall|i: int| 0 <= i < v@.len() implies (#[trigger] v@[i]).wf() by {
                    if i != 0 {
                        assert(v@[i] == ls[i]);
                    }
                }
            }
            if exact {
                lemma_net_sum_update(ls, 0, nl);
                lemma_scale2_is_cents(n0);
                assert(nets_cents(v@)) by {
                    assert forall|i: int| 0 <= i < v@.len() implies {
                        let m = (#[trigger] v@[i]).net_line_total;
                        m.scale <= 2 && is_cents(m.units()) && m.units() >= 0
                    } by {
                        if i != 0 {
                            assert(v@[i] == ls[i]);
                        }
                    }
                }
            }
        }
        Some(v)
    } else if drift.is_negative() {
        let owed0 = Dec::new(-drift.mantissa, drift.scale);
        proof {
            lemma_negated_units(drift);
            assert(owed0 == neg_dec(drift));
        }
        let ghost sum = s;
        let mut owed = owed0;
        let mut out: Vec<ResolvedLine> = Vec::new();
        let mut k: usize = 0;
        while k < n
            invariant
                n == lines.len(),
                ls == lines@,
                k <= n,
                lines_wf(ls),
                nets_nonneg(ls),
                exact == tie_in_range(ls, total),
                owed.wf(),
                lines_wf(out@),
                lower_prefix(ls, owed0, k as int) == (out@, owed),
                exact ==> (sum.units() == net_units_sum(ls) && owed0.units() == sum.units() - total.units()
                    && 0 <= sum.units() <= exact_limit()),
                exact ==> (owed.scale <= 2 && 0 <= owed.units() && owed.units() <= sum.units()
                    - net_units_sum(ls.subrange(0, k as int)) && net_units_sum(out@) == net_units_sum(
                    ls.subrange(0, k as int),
                ) - (owed0.units() - owed.units()) && nets_cents(out@)),
            decreases n - k,
        {
            let l = lines[k];
            proof {
                assert(ls[k as int].wf());
                assert(ls[k as int].net_line_total.units() >= 0);
                lemma_wf_units_bound(l.net_line_total);
                lemma_wf_units_bound(owed);
                if exact {
                    lemma_net_sum_take(ls, k as int);
                    lemma_net_sum_prefix_bounds(ls, k as int + 1);
                    lemma_net_sum_prefix_bounds(ls, k as int);
                    assert(ls[k as int].net_line_total.scale <= 2);
                }
            }
            if owed.is_positive() {
                let take = l.net_line_total.min(owed);
                let nn = dec_sub(l.net_line_total, take);
                let no = dec_sub(owed, take);
                let mut nl = l;
                nl.net_line_total = nn;
                proof {
                    lemma_net_sum_push(out@, nl);
                    if exact {
                        lemma_scale2_is_cents(nn);
                        assert(nets_cents(out@.push(nl))) by {
                            let o2 = out@.push(nl);
                            assert forall|i: int| 0 <= i < o2.len() implies {
                                let m = (#[trigger] o2[i]).net_line_total;
                                m.scale <= 2 && is_cents(m.units()) && m.units() >= 0
                            } by {
                                if i < out@.len() {
                                    assert(o2[i] == out@[i]);
                                }
                            }
                        }
                    }
                    assert(lines_wf(out@.push(nl))) by {
                        let o2 = out@.push(nl);
                        assert forall|i: int| 0 <= i < o2.len() implies (#[trigger] o2[i]).wf() by {
                            if i < out@.len() {
                                assert(o2[i] == out@[i]);
                            }
                        }
                    }
                }
                out.push(nl);
                owed = no;
            } else {
                proof {
                    lemma_net_sum_push(out@, l);
                    if exact {
                        assert(nets_cents(out@.push(l))) by {
                            let o2 = out@.push(l);
                            assert forall|i: int| 0 <= i < o2.len() implies {
                                let m = (#[trigger] o2[i]).net_line_total;
                                m.scale <= 2 && is_cents(m.units()) && m.units() >= 0
                            } by {
                                if i < out@.len() {
                                    assert(o2[i] == out@[i]);
                                }
                            }
                        }
                    }
                    assert(lines_wf(out@.push(l))) by {
                        let o2 = out@.push(l);
                        assert forall|i: int| 0 <= i < o2.len() implies (#[trigger] o2[i]).wf() by {
                            if i < out@.len() {
                                assert(o2[i] == out@[i]);
                            }
                        }
                    }
                }
                out.push(l);
            }
            k = k + 1;
        }
        proof {
            if exact {
                assert(ls.subrange(0, n as int) =~= ls);
            }
        }
        Some(out)
    } else {
        Some(lines)
    }
}

} // verus!
