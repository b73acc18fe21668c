//! Loyalty ledger decisions: request validation, points earned on a purchase, the balance check
//! a spend must pass, the per-order grant outcome and the legs a return reverses.
//!
//! Points are whole (floored on accrual) and are not money; money values are rounded to cents.

use vstd::prelude::*;
use crate::decimal::{
    Dec, abs, unit, floor_units, money_units, max_units, money, product_fits, sum_fits, difference_fits,
    dec_add, dec_sub, dec_mul, dec_div, dec_floor, spec_dec_add, spec_dec_sub, spec_dec_mul,
    spec_dec_div, MAX_MANTISSA, money_dec, neg_dec,
};
use crate::ports::{PricingError, invalid};
use crate::text::{byte_len, str_byte_len};

verus! {

/// A document reference type is 1 to 40 bytes long.
pub open spec fn ref_type_ok(s: Seq<char>) -> bool {
    1 <= byte_len(s) <= 40
}

/// Whether `s` is an acceptable document reference type.
pub fn ref_type_valid(s: &str) -> (r: bool)
    ensures
        r == ref_type_ok(s@),
{
    let n = str_byte_len(s);
    1 <= n && n <= 40
}

/// The smaller of two decimals by value, `a` on a tie.
pub open spec fn min_of(a: Dec, b: Dec) -> Dec {
    if b.units() < a.units() {
        b
    } else {
        a
    }
}

pub open spec fn min_int(a: int, b: int) -> int {
    if b < a {
        b
    } else {
        a
    }
}

// ---- validation ----------------------------------------------------------------------------

/// An accrual must not be for a negative purchase.
pub fn validate_accrual(purchase_amount: &Dec) -> (r: Result<(), PricingError>)
    ensures
        r is Ok <==> purchase_amount.units() >= 0,
        r matches Err(e) ==> e.is_invalid("purchase_amount must be non-negative"@),
{
    if purchase_amount.is_negative() {
        Err(invalid("purchase_amount must be non-negative"))
    } else {
        Ok(())
    }
}

/// A redemption must ask for a positive number of points.
pub fn validate_redemption(points: &Dec) -> (r: Result<(), PricingError>)
    ensures
        r is Ok <==> points.units() > 0,
        r matches Err(e) ==> e.is_invalid("points to redeem must be positive"@),
{
    if !points.is_positive() {
        Err(invalid("points to redeem must be positive"))
    } else {
        Ok(())
    }
}

/// An order grant needs a non-negative earning base and a valid order reference type.
pub fn validate_grant(grant_base_amount: &Dec, order_ref_type: &str) -> (r: Result<(), PricingError>)
    ensures
        r is Ok <==> (grant_base_amount.units() >= 0 && ref_type_ok(order_ref_type@)),
        grant_base_amount.units() < 0 ==> (r matches Err(e)
            && e.is_invalid("grant_base_amount must be non-negative"@)),
        grant_base_amount.units() >= 0 && !ref_type_ok(order_ref_type@) ==> (r matches Err(e)
            && e.is_invalid("order_ref_type must be 1..=40 chars"@)),
{
    if grant_base_amount.is_negative() {
        return Err(invalid("grant_base_amount must be non-negative"));
    }
    if !ref_type_valid(order_ref_type) {
        return Err(invalid("order_ref_type must be 1..=40 chars"));
    }
    Ok(())
}

/// An order spend needs a positive number of points and a valid order reference type.
pub fn validate_spend(points: &Dec, order_ref_type: &str) -> (r: Result<(), PricingError>)
    ensures
        r is Ok <==> (points.units() > 0 && ref_type_ok(order_ref_type@)),
        points.units() <= 0 ==> (r matches Err(e) && e.is_invalid("points to spend must be positive"@)),
        points.units() > 0 && !ref_type_ok(order_ref_type@) ==> (r matches Err(e)
            && e.is_invalid("order_ref_type must be 1..=40 chars"@)),
{
    if !points.is_positive() {
        return Err(invalid("points to spend must be positive"));
    }
    if !ref_type_valid(order_ref_type) {
        return Err(invalid("order_ref_type must be 1..=40 chars"));
    }
    Ok(())
}

/// A reversal needs a non-negative return amount (when partial) and valid order and return
/// reference types, checked in that order.
pub fn validate_reversal(
    return_amount: &Option<Dec>,
    order_ref_type: &str,
    reversal_ref_type: &str,
) -> (r: Result<(), PricingError>)
    ensures
        r is Ok <==> ((return_amount matches Some(a) ==> a.units() >= 0) && ref_type_ok(
            order_ref_type@,
        ) && ref_type_ok(reversal_ref_type@)),
        (return_amount matches Some(a) && a.units() < 0) ==> (r matches Err(e) && e.is_invalid(
            "return_amount must be non-negative"@,
        )),
        (return_amount matches Some(a) ==> a.units() >= 0) && !ref_type_ok(order_ref_type@) ==> (
        r matches Err(e) && e.is_invalid("order_ref_type must be 1..=40 chars"@)),
        (return_amount matches Some(a) ==> a.units() >= 0) && ref_type_ok(order_ref_type@)
            && !ref_type_ok(reversal_ref_type@) ==> (r matches Err(e) && e.is_invalid(
            "reversal_ref_type must be 1..=40 chars"@,
        )),
{
    if let Some(amount) = return_amount {
        if amount.is_negative() {
            return Err(invalid("return_amount must be non-negative"));
        }
    }
    if !ref_type_valid(order_ref_type) {
        return Err(invalid("order_ref_type must be 1..=40 chars"));
    }
    if !ref_type_valid(reversal_ref_type) {
        return Err(invalid("reversal_ref_type must be 1..=40 chars"));
    }
    Ok(())
}

// ---- earning -------------------------------------------------------------------------------

/// Points earned on `base` at `factor` points per currency unit: the product, floored.
pub open spec fn earned_units(base: Dec, factor: Dec) -> int {
    floor_units(spec_dec_mul(base, factor).units())
}

/// `floor(base · factor)`.  When the product is exact this is the floor of the true product.
pub fn earned_points(base: Dec, factor: Dec) -> (r: Dec)
    requires
        base.wf(),
        factor.wf(),
        product_fits(base, factor),
    ensures
        r.wf(),
        r.scale == 0,
        r.units() == earned_units(base, factor),
        (base.scale + factor.scale <= 28 && abs(base.mantissa * factor.mantissa) <= MAX_MANTISSA)
            ==> r.units() * unit() == floor_units(base.units() * factor.units() / unit()) * unit(),
{
    let p = dec_mul(base, factor);
    proof {
        if base.scale + factor.scale <= 28 && abs(base.mantissa * factor.mantissa) <= MAX_MANTISSA {
            assert(p.units() * unit() == base.units() * factor.units());
            vstd::arithmetic::div_mod::lemma_div_multiples_vanish(p.units(), unit());
            assert(p.units() == base.units() * factor.units() / unit()) by (nonlinear_arith)
                requires
                    p.units() * unit() == base.units() * factor.units(),
                    (p.units() * unit()) / unit() == p.units(),
            ;
        }
    }
    dec_floor(p)
}

/// What a purchase or an order confirm writes: nothing when no whole point is earned, else the
/// earned points and the earning base rounded to cents.
#[derive(Debug, Clone)]
pub enum PointsPlan {
    Nothing,
    Write { points: Dec, base: Dec },
}

/// Decide the earn leg for `base` at `collection_factor`.
pub fn plan_points(base: Dec, collection_factor: Dec) -> (r: PointsPlan)
    requires
        base.wf(),
        collection_factor.wf(),
        product_fits(base, collection_factor),
    ensures
        r is Nothing <==> earned_units(base, collection_factor) <= 0,
        r matches PointsPlan::Write { points, base: b } ==> {
            &&& points.wf() && points.scale == 0
            &&& points.units() == earned_units(base, collection_factor)
            &&& b.wf() && b.units() == money_units(base.units())
        },
{
    let points = earned_points(base, collection_factor);
    if !points.is_positive() {
        PointsPlan::Nothing
    } else {
        PointsPlan::Write { points, base: money(base) }
    }
}

/// Outcome of a loyalty accrual.
#[derive(Debug, Clone)]
pub struct AccrualOutcome {
    pub entry_id: Option<u128>,
    pub points: Dec,
    /// True when the source had already accrued (idempotent no-op).
    pub already: bool,
}

/// The accrual outcome once the ledger claim returned `claimed` (`None`: this source had
/// already earned).
pub fn accrual_outcome(points: Dec, claimed: Option<u128>) -> (r: AccrualOutcome)
    ensures
        r.entry_id == claimed,
        r.points == points,
        r.already == (claimed is None),
{
    match claimed {
        Some(id) => AccrualOutcome { entry_id: Some(id), points, already: false },
        None => AccrualOutcome { entry_id: None, points, already: true },
    }
}

/// The accrual outcome when no whole point was earned.
pub fn nothing_accrued() -> (r: AccrualOutcome)
    ensures
        r.entry_id is None,
        r.points.units() == 0,
        !r.already,
{
    AccrualOutcome { entry_id: None, points: Dec::zero(), already: false }
}

/// Outcome of granting one order's points.
#[derive(Debug, Clone)]
pub struct OrderPointsGrantOutcome {
    pub order_points_id: Option<u128>,
    pub entry_id: Option<u128>,
    pub points: Dec,
    pub already: bool,
}

/// The grant outcome when no whole point was earned.
pub fn nothing_granted() -> (r: OrderPointsGrantOutcome)
    ensures
        r.order_points_id is None,
        r.entry_id is None,
        r.points.units() == 0,
        !r.already,
{
    OrderPointsGrantOutcome { order_points_id: None, entry_id: None, points: Dec::zero(), already: false }
}

/// Combine the two idempotent writes of a grant: `inserted` (a fresh order row's id) and
/// `entry_id` (a fresh ledger entry).  When no row was inserted the order's existing row
/// `(id, granted_points)` decides; the grant is a replay exactly when no entry was written, and a
/// full replay reports the points stored on the row.
pub fn grant_outcome(
    points: Dec,
    inserted: Option<u128>,
    entry_id: Option<u128>,
    existing: Option<(u128, Dec)>,
) -> (r: Result<OrderPointsGrantOutcome, PricingError>)
    ensures
        inserted matches Some(id) ==> (r matches Ok(o) && o.order_points_id == Some(id)
            && o.entry_id == entry_id && o.points == points && o.already == (entry_id is None)),
        inserted is None && existing is None ==> (r matches Err(e) && e.is_invalid(
            "order points row vanished mid-grant"@,
        )),
        (inserted is None && existing is Some) ==> (r matches Ok(o) && o.order_points_id
            == Some(existing.unwrap().0) && o.entry_id == entry_id && o.already == (entry_id is None)
            && o.points == (if entry_id is Some { points } else { existing.unwrap().1 })),
{
    match inserted {
        Some(id) => Ok(
            OrderPointsGrantOutcome {
                order_points_id: Some(id),
                entry_id,
                points,
                already: entry_id.is_none(),
            },
        ),
        None => match existing {
            None => Err(invalid("order points row vanished mid-grant")),
            Some((row_id, granted)) => {
                let stored = if entry_id.is_some() { points } else { granted };
                Ok(
                    OrderPointsGrantOutcome {
                        order_points_id: Some(row_id),
                        entry_id,
                        points: stored,
                        already: entry_id.is_none(),
                    },
                )
            },
        },
    }
}

// ---- spending ------------------------------------------------------------------------------

/// Whether a spend of `requested` points fits the expiry-aware balance.  A refusal says
/// `PointsExpired` when the lapsed points would have covered the ask, `InsufficientPoints`
/// otherwise.
pub fn balance_check(requested: Dec, available: Dec, lapsed: Dec) -> (r: Result<(), PricingError>)
    requires
        requested.wf(),
        available.wf(),
        lapsed.wf(),
        requested.units() > available.units() ==> sum_fits(available, lapsed),
    ensures
        r is Ok <==> requested.units() <= available.units(),
        r matches Err(e) ==> (if spec_dec_add(available, lapsed).units() >= requested.units() {
            e matches PricingError::PointsExpired { lapsed: l, available: a } && l == lapsed && a
                == available
        } else {
            e matches PricingError::InsufficientPoints { available: a, requested: q } && a
                == available && q == requested
        }),
        (available.scale <= 12 && lapsed.scale <= 12 && abs(available.units() + lapsed.units())
            <= 10000000000000000 * unit()) ==> ((r matches Err(
            PricingError::PointsExpired { .. },
        )) <==> (requested.units() > available.units() && available.units() + lapsed.units()
            >= requested.units())),
{
    if requested.lt(&available) || requested.eq_value(&available) {
        return Ok(());
    }
    let total = dec_add(available, lapsed);
    if total.le(&requested) && !total.eq_value(&requested) {
        Err(PricingError::InsufficientPoints { available, requested })
    } else {
        Err(PricingError::PointsExpired { lapsed, available })
    }
}

/// The money `points` are worth at `conversion_factor`: their product, rounded to cents.
pub open spec fn spend_value(points: Dec, conversion_factor: Dec) -> Dec {
    money_dec(spec_dec_mul(points, conversion_factor))
}

/// The money a spend of `points` is worth: `points · conversion_factor`, rounded to cents.
pub fn discount_value(points: Dec, conversion_factor: Dec) -> (r: Dec)
    requires
        points.wf(),
        conversion_factor.wf(),
        product_fits(points, conversion_factor),
    ensures
        r.wf(),
        r == spend_value(points, conversion_factor),
        r.units() == money_units(spec_dec_mul(points, conversion_factor).units()),
{
    money(dec_mul(points, conversion_factor))
}

/// What a spend decides once the balances are read: refused exactly as `balance_check`
/// refuses (and then nothing is written or announced), else the money the points are worth
/// and the available balance left, `available − requested`.
pub fn spend_outcome(requested: Dec, available: Dec, lapsed: Dec, conversion_factor: Dec) -> (r: Result<
    (Dec, Dec),
    PricingError,
>)
    requires
        requested.wf(),
        available.wf(),
        lapsed.wf(),
        conversion_factor.wf(),
        requested.units() > available.units() ==> sum_fits(available, lapsed),
        requested.units() <= available.units() ==> (product_fits(requested, conversion_factor)
            && difference_fits(available, requested)),
    ensures
        r is Ok <==> requested.units() <= available.units(),
        r matches Err(e) ==> (if spec_dec_add(available, lapsed).units() >= requested.units() {
            e matches PricingError::PointsExpired { lapsed: l, available: a } && l == lapsed && a
                == available
        } else {
            e matches PricingError::InsufficientPoints { available: a, requested: q } && a
                == available && q == requested
        }),
        r matches Ok(v) ==> {
            &&& v.0 == spend_value(requested, conversion_factor)
            &&& v.0.units() == money_units(spec_dec_mul(requested, conversion_factor).units())
            &&& v.1 == spec_dec_sub(available, requested)
            &&& (available.scale <= 12 && requested.scale <= 12 && abs(available.units()
                - requested.units()) <= 10000000000000000 * unit()) ==> v.1.units() == available.units()
                - requested.units()
        },
{
    match balance_check(requested, available, lapsed) {
        Err(e) => Err(e),
        Ok(()) => {
            let value = discount_value(requested, conversion_factor);
            let after = dec_sub(available, requested);
            Ok((value, after))
        },
    }
}

/// The points a spend of `requested` writes to the ledger: `-requested`.
pub fn ledger_entry_points(requested: Dec) -> (r: Dec)
    requires
        requested.wf(),
    ensures
        r == neg_dec(requested),
        r.wf(),
{
    requested.neg()
}

/// Replaying a spend gives back what the spend gave: replaying the ledger entry that a spend of
/// `requested` writes (`ledger_entry_points`) yields `requested` itself, in the same
/// representation, and so the same money value `spend_outcome` reported; and the replay's
/// product fits exactly when the spend's did.
pub proof fn lemma_spend_replay(requested: Dec, conversion_factor: Dec)
    requires
        requested.wf(),
    ensures
        neg_dec(requested).wf(),
        neg_dec(neg_dec(requested)) == requested,
        spend_value(neg_dec(neg_dec(requested)), conversion_factor) == spend_value(requested, conversion_factor),
        product_fits(neg_dec(requested), conversion_factor) == product_fits(requested, conversion_factor),
{
    crate::decimal::lemma_negated_units(requested);
    let e = requested.units();
    let c = conversion_factor.units();
    assert((-e) * c == -(e * c)) by (nonlinear_arith);
}

/// A replayed spend: the stored entry carries `-points`; report the points and their worth.
pub fn replayed_spend(entry_points: Dec, conversion_factor: Dec) -> (r: (Dec, Dec))
    requires
        entry_points.wf(),
        conversion_factor.wf(),
        product_fits(entry_points, conversion_factor),
    ensures
        r.0 == neg_dec(entry_points),
        r.0.units() == -entry_points.units(),
        r.1 == spend_value(r.0, conversion_factor),
        r.1.units() == money_units(spec_dec_mul(r.0, conversion_factor).units()),
{
    let points = entry_points.neg();
    proof {
        let e = entry_points.units();
        let c = conversion_factor.units();
        assert((-e) * c == -(e * c)) by (nonlinear_arith);
    }
    (points, discount_value(points, conversion_factor))
}

// ---- reversal ------------------------------------------------------------------------------

/// The loyalty accounting of one order, as stored.
#[derive(Debug, Clone)]
pub struct OrderPointsRow {
    pub id: u128,
    /// The earning base, stored rounded to cents.
    pub grant_base_amount: Dec,
    pub granted_points: Dec,
    pub granted_reversed_points: Dec,
    pub spent_points: Dec,
    pub spent_reversed_points: Dec,
}

impl OrderPointsRow {
    pub open spec fn wf(&self) -> bool {
        &&& self.grant_base_amount.wf()
        &&& self.granted_points.wf()
        &&& self.granted_reversed_points.wf()
        &&& self.spent_points.wf()
        &&& self.spent_reversed_points.wf()
    }

    /// Granted points not yet clawed back.
    pub open spec fn remaining_granted(&self) -> Dec {
        spec_dec_sub(self.granted_points, self.granted_reversed_points)
    }

    /// Spent points not yet restored.
    pub open spec fn remaining_spent(&self) -> Dec {
        spec_dec_sub(self.spent_points, self.spent_reversed_points)
    }
}

/// Grant clawback for a return: everything remaining on a full cancel, else at most the points
/// the returned amount earned; never more than the member has available.
pub open spec fn grant_leg_units(
    return_amount: Option<Dec>,
    collection_factor: Dec,
    row: OrderPointsRow,
    available: Dec,
) -> int {
    let rg = row.remaining_granted().units();
    match return_amount {
        None => min_int(rg, available.units()),
        Some(a) => min_int(min_int(rg, earned_units(a, collection_factor)), available.units()),
    }
}

/// Spend restoration for a return: everything remaining on a full cancel, else the returned
/// share of the earning base, floored, at most what remains (zero when the base is zero).
pub open spec fn spend_leg_units(return_amount: Option<Dec>, row: OrderPointsRow) -> int {
    let rs = row.remaining_spent();
    match return_amount {
        None => rs.units(),
        Some(a) => if row.grant_base_amount.units() == 0 {
            min_int(0, rs.units())
        } else {
            min_int(
                floor_units(spec_dec_div(spec_dec_mul(rs, a), row.grant_base_amount).units()),
                rs.units(),
            )
        },
    }
}

/// The two compensating legs of a return, `(grant_reversed, spend_restored)`.
pub fn reversal_legs(
    return_amount: Option<Dec>,
    collection_factor: Dec,
    row: &OrderPointsRow,
    available: Dec,
) -> (r: (Dec, Dec))
    requires
        row.wf(),
        collection_factor.wf(),
        available.wf(),
        difference_fits(row.granted_points, row.granted_reversed_points),
        difference_fits(row.spent_points, row.spent_reversed_points),
        return_amount matches Some(a) ==> (a.wf() && product_fits(a, collection_factor) && (
        row.grant_base_amount.units() != 0 ==> spend_share_fits(*row, a))),
    ensures
        r.0.wf(),
        r.1.wf(),
        r.0.units() == grant_leg_units(return_amount, collection_factor, *row, available),
        r.1.units() == spend_leg_units(return_amount, *row),
        r.0.units() <= row.remaining_granted().units(),
        r.0.units() <= available.units(),
        r.1.units() <= row.remaining_spent().units(),
        return_amount is None ==> r.1.units() == row.remaining_spent().units(),
        return_amount matches Some(a) ==> r.0.units() <= earned_units(a, collection_factor),
{
    let remaining_granted = dec_sub(row.granted_points, row.granted_reversed_points);
    let remaining_spent = dec_sub(row.spent_points, row.spent_reversed_points);
    match return_amount {
        None => (remaining_granted.min(available), remaining_spent),
        Some(amount) => {
            let by_base = earned_points(amount, collection_factor);
            let grant = remaining_granted.min(by_base).min(available);
            let spend = if row.grant_base_amount.is_zero() {
                Dec::zero()
            } else {
                proof {
                    lemma_spend_share_product(*row, amount, remaining_spent);
                }
                let num = dec_mul(remaining_spent, amount);
                proof {
                    lemma_spend_share_quotient(*row, amount, remaining_spent, num);
                }
                dec_floor(dec_div(num, row.grant_base_amount))
            };
            (grant, spend.min(remaining_spent))
        },
    }
}

/// Whether the returned share of the remaining spend, `(spent − spent_reversed) · a / base`,
/// stays within the decimal range, allowing for the one unit by which the remaining spend may be
/// rounded.
pub open spec fn spend_share_fits(row: OrderPointsRow, a: Dec) -> bool {
    let rs = abs(row.spent_points.units() - row.spent_reversed_points.units()) + unit();
    &&& rs * abs(a.units()) <= max_units() * unit()
    &&& rs * abs(a.units()) + unit() * unit() <= max_units() * abs(row.grant_base_amount.units())
}

/// `remaining · amount` stays in range.
proof fn lemma_spend_share_product(row: OrderPointsRow, a: Dec, rs: Dec)
    requires
        spend_share_fits(row, a),
        abs(rs.units() - (row.spent_points.units() - row.spent_reversed_points.units())) <= unit(),
    ensures
        abs(rs.units() * a.units()) <= (abs(row.spent_points.units() - row.spent_reversed_points.units())
            + unit()) * abs(a.units()),
        abs(rs.units() * a.units()) <= max_units() * unit(),
{
    let bound = abs(row.spent_points.units() - row.spent_reversed_points.units()) + unit();
    crate::decimal::lemma_mul_abs_bound(rs.units(), a.units(), bound, abs(a.units()));
}

/// Dividing that product by the earning base stays in range.
proof fn lemma_spend_share_quotient(row: OrderPointsRow, a: Dec, rs: Dec, num: Dec)
    requires
        spend_share_fits(row, a),
        abs(rs.units() - (row.spent_points.units() - row.spent_reversed_points.units())) <= unit(),
        abs(num.units() * unit() - rs.units() * a.units()) <= unit() * unit(),
    ensures
        abs(num.units()) * unit() <= max_units() * abs(row.grant_base_amount.units()),
{
    lemma_spend_share_product(row, a, rs);
    let p = rs.units() * a.units();
    let n = num.units();
    assert(abs(n) * unit() <= abs(p) + unit() * unit()) by (nonlinear_arith)
        requires
            abs(n * unit() - p) <= unit() * unit(),
            unit() > 0,
    ;
}

/// Announced when a return reversed some of an order's points.
#[derive(Debug, Clone)]
pub struct LoyaltyOrderPointsReversed {
    pub order_points_id: u128,
    pub loyalty_program_id: u128,
    pub company_id: u128,
    pub customer_id: u128,
    pub order_ref_type: String,
    pub order_ref_id: u128,
    pub grant_reversed: Dec,
    pub spend_restored: Dec,
    pub reversal_ref_type: String,
    pub reversal_ref_id: u128,
}

/// The order's identity a reversal event names.
#[derive(Debug, Clone)]
pub struct ReversalRef {
    pub order_points_id: u128,
    pub loyalty_program_id: u128,
    pub company_id: u128,
    pub customer_id: u128,
    pub order_ref_type: String,
    pub order_ref_id: u128,
    pub reversal_ref_type: String,
    pub reversal_ref_id: u128,
}

/// What a return announces: an event with both legs exactly when a leg was written (a leg is
/// written exactly when it is positive), else nothing.
pub fn reversal_event(reference: ReversalRef, grant_reversed: Dec, spend_restored: Dec) -> (r: Option<
    LoyaltyOrderPointsReversed,
>)
    ensures
        r is Some <==> (grant_reversed.units() > 0 || spend_restored.units() > 0),
        r matches Some(e) ==> {
            &&& e.order_points_id == reference.order_points_id
            &&& e.loyalty_program_id == reference.loyalty_program_id
            &&& e.company_id == reference.company_id
            &&& e.customer_id == reference.customer_id
            &&& e.order_ref_type == reference.order_ref_type
            &&& e.order_ref_id == reference.order_ref_id
            &&& e.grant_reversed == grant_reversed
            &&& e.spend_restored == spend_restored
            &&& e.reversal_ref_type == reference.reversal_ref_type
            &&& e.reversal_ref_id == reference.reversal_ref_id
        },
{
    if grant_reversed.is_positive() || spend_restored.is_positive() {
        Some(
            LoyaltyOrderPointsReversed {
                order_points_id: reference.order_points_id,
                loyalty_program_id: reference.loyalty_program_id,
                company_id: reference.company_id,
                customer_id: reference.customer_id,
                order_ref_type: reference.order_ref_type,
                order_ref_id: reference.order_ref_id,
                grant_reversed,
                spend_restored,
                reversal_ref_type: reference.reversal_ref_type,
                reversal_ref_id: reference.reversal_ref_id,
            },
        )
    } else {
        None
    }
}

} // verus!
