//! Exact decimal amounts (`Dec`): a 96-bit signed mantissa and a scale of at most 28 decimal
//! places, the representation `rust_decimal::Decimal` uses.  Arithmetic is performed by
//! `rust_decimal`; contracts speak of a value's *units*, its integer multiple of 10^-28.

use vstd::prelude::*;
use rust_decimal::Decimal;
use rust_decimal::RoundingStrategy;

verus! {

/// 10^n.
pub open spec fn pow10(n: nat) -> int
    decreases n,
{
    if n == 0 {
        1
    } else {
        10 * pow10((n - 1) as nat)
    }
}

/// Largest mantissa magnitude a decimal can hold (2^96 - 1).
pub const MAX_MANTISSA: i128 = 79228162514264337593543950335;

/// Units in one whole: 10^28.
pub open spec fn unit() -> int {
    10000000000000000000000000000
}

/// Units in one cent: 10^26.
pub open spec fn cent() -> int {
    100000000000000000000000000
}

/// Magnitude, in units, of the largest decimal held at two decimal places (a mantissa of at
/// most 2^96 - 1 cents).
pub open spec fn cents_limit() -> int {
    MAX_MANTISSA * cent()
}

/// Magnitude, in units, of the largest representable decimal.
pub open spec fn max_units() -> int {
    MAX_MANTISSA * unit()
}

pub open spec fn abs(x: int) -> int {
    if x < 0 {
        -x
    } else {
        x
    }
}

/// `u` rounded to whole cents, ties away from zero.
pub open spec fn money_units(u: int) -> int {
    if u >= 0 {
        ((u + cent() / 2) / cent()) * cent()
    } else {
        -(((-u + cent() / 2) / cent()) * cent())
    }
}

/// `u` rounded down to a whole number.
pub open spec fn floor_units(u: int) -> int {
    (u / unit()) * unit()
}

/// `a` rounded to cents as `round_dp_with_strategy(2, ..)` represents it: unchanged when it has at
/// most 2 decimal places, else at scale 2.
pub open spec fn money_dec(a: Dec) -> Dec {
    if a.scale <= 2 {
        a
    } else {
        Dec { mantissa: (money_units(a.units()) / cent()) as i128, scale: 2 }
    }
}

/// `a` rounded down to a whole number as `floor` represents it: unchanged at scale 0, else at
/// scale 0.
pub open spec fn floor_dec(a: Dec) -> Dec {
    if a.scale == 0 {
        a
    } else {
        Dec { mantissa: (floor_units(a.units()) / unit()) as i128, scale: 0 }
    }
}

/// Whether `u` is a whole number of cents.
pub open spec fn is_cents(u: int) -> bool {
    u % cent() == 0
}

/// Whether `a · b` stays within the decimal range, where `Decimal * Decimal` does not panic.
pub open spec fn product_fits(a: Dec, b: Dec) -> bool {
    abs(a.units() * b.units()) <= max_units() * unit()
}

/// Whether `a + b` stays within the decimal range.
pub open spec fn sum_fits(a: Dec, b: Dec) -> bool {
    abs(a.units() + b.units()) <= max_units()
}

/// Whether `a - b` stays within the decimal range.
pub open spec fn difference_fits(a: Dec, b: Dec) -> bool {
    abs(a.units() - b.units()) <= max_units()
}

/// `d` with its sign flipped, at the same scale (what `-Decimal` gives).
pub open spec fn neg_dec(d: Dec) -> Dec {
    Dec { mantissa: (-d.mantissa) as i128, scale: d.scale }
}

/// A decimal number `mantissa · 10^-scale`.
#[derive(Clone, Copy, Debug)]
pub struct Dec {
    pub mantissa: i128,
    pub scale: u32,
}

impl Dec {
    /// A representable decimal: scale at most 28, mantissa within 96 bits.
    pub open spec fn wf(self) -> bool {
        &&& self.scale <= 28
        &&& -MAX_MANTISSA <= self.mantissa <= MAX_MANTISSA
    }

    /// The value in units of 10^-28.
    pub open spec fn units(self) -> int {
        self.mantissa * pow10((28 - self.scale) as nat)
    }

    /// `mantissa · 10^-scale`.
    pub fn new(mantissa: i128, scale: u32) -> (r: Dec)
        requires
            scale <= 28,
            -MAX_MANTISSA <= mantissa <= MAX_MANTISSA,
        ensures
            r.mantissa == mantissa,
            r.scale == scale,
            r.wf(),
    {
        Dec { mantissa, scale }
    }

    /// Zero.
    pub fn zero() -> (r: Dec)
        ensures
            r.wf(),
            r.units() == 0,
            r.scale == 0,
    {
        Dec { mantissa: 0, scale: 0 }
    }

    /// The whole number `n`.
    pub fn from_int(n: i64) -> (r: Dec)
        ensures
            r.wf(),
            r.scale == 0,
            r.units() == n * unit(),
    {
        proof {
            lemma_pow10_28();
        }
        Dec { mantissa: n as i128, scale: 0 }
    }

    /// Whether the value is zero.
    pub fn is_zero(&self) -> (r: bool)
        ensures
            r == (self.units() == 0),
    {
        proof {
            lemma_units_sign(*self);
        }
        self.mantissa == 0
    }

    /// Whether the value is strictly positive.
    pub fn is_positive(&self) -> (r: bool)
        ensures
            r == (self.units() > 0),
    {
        proof {
            lemma_units_sign(*self);
        }
        self.mantissa > 0
    }

    /// Whether the value is strictly negative.
    pub fn is_negative(&self) -> (r: bool)
        ensures
            r == (self.units() < 0),
    {
        proof {
            lemma_units_sign(*self);
        }
        self.mantissa < 0
    }

    /// The value with its sign flipped (`-self`).
    pub fn neg(self) -> (r: Dec)
        requires
            self.wf(),
        ensures
            r.wf(),
            r == neg_dec(self),
            r.scale == self.scale,
            r.units() == -self.units(),
    {
        proof {
            let p = pow10((28 - self.scale) as nat);
            assert((-self.mantissa) * p == -(self.mantissa * p)) by (nonlinear_arith);
        }
        Dec { mantissa: -self.mantissa, scale: self.scale }
    }

    /// `self < other` by value.
    pub fn lt(&self, other: &Dec) -> (r: bool)
        requires
            self.wf(),
            other.wf(),
        ensures
            r == (self.units() < other.units()),
    {
        dec_lt(*self, *other)
    }

    /// `self <= other` by value.
    pub fn le(&self, other: &Dec) -> (r: bool)
        requires
            self.wf(),
            other.wf(),
        ensures
            r == (self.units() <= other.units()),
    {
        !dec_lt(*other, *self)
    }

    /// Equality by value (`1.0 == 1.00`).
    pub fn eq_value(&self, other: &Dec) -> (r: bool)
        requires
            self.wf(),
            other.wf(),
        ensures
            r == (self.units() == other.units()),
    {
        !dec_lt(*self, *other) && !dec_lt(*other, *self)
    }

    /// The smaller of the two (`self` on a tie), as `Ord::min` picks it.
    pub fn min(self, other: Dec) -> (r: Dec)
        requires
            self.wf(),
            other.wf(),
        ensures
            r == (if other.units() < self.units() { other } else { self }),
    {
        if dec_lt(other, self) {
            other
        } else {
            self
        }
    }

    /// The larger of the two (`other` on a tie), as `Ord::max` picks it.
    pub fn max(self, other: Dec) -> (r: Dec)
        requires
            self.wf(),
            other.wf(),
        ensures
            r == (if other.units() < self.units() { self } else { other }),
    {
        if dec_lt(other, self) {
            self
        } else {
            other
        }
    }
}

pub proof fn lemma_pow10_28()
    ensures
        pow10(28) == unit(),
        pow10(26) == cent(),
        pow10(2) == 100,
{
    reveal_with_fuel(pow10, 30);
    assert(pow10(2) == 100);
    assert(pow10(26) == cent());
    assert(pow10(28) == unit());
}

pub proof fn lemma_pow10_positive(n: nat)
    ensures
        pow10(n) >= 1,
    decreases n,
{
    if n > 0 {
        lemma_pow10_positive((n - 1) as nat);
    }
}

/// The sign of a decimal's value is the sign of its mantissa.
pub proof fn lemma_units_sign(d: Dec)
    ensures
        (d.units() == 0) == (d.mantissa == 0),
        (d.units() > 0) == (d.mantissa > 0),
        (d.units() < 0) == (d.mantissa < 0),
{
    let p = pow10((28 - d.scale) as nat);
    let m = d.mantissa as int;
    lemma_pow10_positive((28 - d.scale) as nat);
    assert(d.units() == m * p);
    if m > 0 {
        assert(m * p > 0) by (nonlinear_arith)
            requires
                m > 0,
                p >= 1,
        ;
    } else if m < 0 {
        assert(m * p < 0) by (nonlinear_arith)
            requires
                m < 0,
                p >= 1,
        ;
    } else {
        assert(m * p == 0) by (nonlinear_arith)
            requires
                m == 0,
        ;
    }
}

/// A representable decimal's magnitude is within the decimal range.
pub proof fn lemma_wf_units_bound(d: Dec)
    requires
        d.wf(),
    ensures
        abs(d.units()) <= max_units(),
{
    let k = (28 - d.scale) as nat;
    lemma_pow10_add(d.scale as nat, k);
    lemma_pow10_positive(d.scale as nat);
    lemma_pow10_positive(k);
    lemma_pow10_28();
    let p = pow10(k);
    assert(p <= unit()) by (nonlinear_arith)
        requires
            pow10(d.scale as nat) * p == unit(),
            pow10(d.scale as nat) >= 1,
            p >= 1,
    ;
    let m = d.mantissa as int;
    assert(abs(m * p) <= MAX_MANTISSA * unit()) by (nonlinear_arith)
        requires
            -MAX_MANTISSA <= m <= MAX_MANTISSA,
            1 <= p <= unit(),
    ;
}

/// Flipping the mantissa's sign flips the value's sign.
pub proof fn lemma_negated_units(d: Dec)
    requires
        d.wf(),
    ensures
        neg_dec(d).units() == -d.units(),
{
    let p = pow10((28 - d.scale) as nat);
    assert((-d.mantissa) * p == -(d.mantissa * p)) by (nonlinear_arith);
}

/// A decimal of scale at most 2 is a whole number of cents.
pub proof fn lemma_scale2_is_cents(d: Dec)
    requires
        d.scale <= 2,
    ensures
        is_cents(d.units()),
{
    let k = (2 - d.scale) as nat;
    assert(pow10((28 - d.scale) as nat) == pow10(k) * cent()) by {
        lemma_pow10_28();
        lemma_pow10_add(k, 26);
    }
    assert((d.mantissa * (pow10(k) * cent())) % cent() == 0) by {
        vstd::arithmetic::mul::lemma_mul_is_associative(d.mantissa as int, pow10(k), cent());
        vstd::arithmetic::div_mod::lemma_mod_multiples_basic(d.mantissa * pow10(k), cent());
    }
}

pub proof fn lemma_pow10_add(a: nat, b: nat)
    ensures
        pow10(a + b) == pow10(a) * pow10(b),
    decreases a,
{
    if a > 0 {
        lemma_pow10_add((a - 1) as nat, b);
        assert(pow10(a + b) == 10 * pow10((a - 1 + b) as nat));
        vstd::arithmetic::mul::lemma_mul_is_associative(10, pow10((a - 1) as nat), pow10(b));
    }
}

/// Rounding to cents leaves a whole number of cents unchanged, and always yields one.
pub proof fn lemma_money_units(u: int)
    ensures
        is_cents(money_units(u)),
        is_cents(u) ==> money_units(u) == u,
        abs(money_units(u) - u) <= cent() / 2,
        u >= 0 ==> money_units(u) >= 0,
        u <= 0 ==> money_units(u) <= 0,
{
    let c = cent();
    let h = c / 2;
    if u >= 0 {
        lemma_round_half_up(u);
        let q = (u + h) / c;
        vstd::arithmetic::div_mod::lemma_mod_multiples_basic(q, c);
    } else {
        lemma_round_half_up(-u);
        let q = (-u + h) / c;
        vstd::arithmetic::div_mod::lemma_mod_multiples_basic(-q, c);
        assert(-(q * c) == (-q) * c) by (nonlinear_arith);
        if u % c == 0 {
            vstd::arithmetic::div_mod::lemma_fundamental_div_mod(u, c);
            let k = u / c;
            assert(-u == (-k) * c + 0) by (nonlinear_arith)
                requires
                    u == c * k + u % c,
                    u % c == 0,
            ;
            vstd::arithmetic::div_mod::lemma_fundamental_div_mod_converse(-u, c, -k, 0);
        }
    }
}

/// For `v >= 0`: `((v + c/2) / c) · c` is within half a cent of `v`, and equals `v` when `v` is
/// a whole number of cents.
proof fn lemma_round_half_up(v: int)
    requires
        v >= 0,
    ensures
        abs(((v + cent() / 2) / cent()) * cent() - v) <= cent() / 2,
        ((v + cent() / 2) / cent()) * cent() >= 0,
        v % cent() == 0 ==> ((v + cent() / 2) / cent()) * cent() == v,
{
    let c = cent();
    let h = c / 2;
    let q = (v + h) / c;
    let r = (v + h) % c;
    vstd::arithmetic::div_mod::lemma_fundamental_div_mod(v + h, c);
    assert(0 <= r < c);
    assert(v + h == c * q + r);
    assert(q * c == c * q) by (nonlinear_arith);
    assert(q >= 0) by (nonlinear_arith)
        requires
            v + h == c * q + r,
            0 <= r < c,
            v >= 0,
            h >= 0,
            c > 0,
    ;
    assert(q * c >= 0) by (nonlinear_arith)
        requires
            q >= 0,
            c > 0,
    ;
    if v % c == 0 {
        vstd::arithmetic::div_mod::lemma_fundamental_div_mod(v, c);
        let k = v / c;
        assert(v + h == k * c + h) by (nonlinear_arith)
            requires
                v == c * k + v % c,
                v % c == 0,
        ;
        vstd::arithmetic::div_mod::lemma_fundamental_div_mod_converse(v + h, c, k, h);
    }
}

/// `|x·y| <= bx·by` when `|x| <= bx` and `|y| <= by`.
pub proof fn lemma_mul_abs_bound(x: int, y: int, bx: int, by: int)
    requires
        abs(x) <= bx,
        abs(y) <= by,
    ensures
        abs(x * y) <= bx * by,
{
    assert(abs(x * y) == abs(x) * abs(y)) by (nonlinear_arith);
    assert(abs(x) * abs(y) <= bx * by) by (nonlinear_arith)
        requires
            0 <= abs(x) <= bx,
            0 <= abs(y) <= by,
    ;
}


/// A non-zero whole number of cents is at least one cent in magnitude.
pub proof fn lemma_cents_nonzero(u: int)
    requires
        is_cents(u),
        u != 0,
    ensures
        abs(u) >= cent(),
{
    let c = cent();
    vstd::arithmetic::div_mod::lemma_fundamental_div_mod(u, c);
    let k = u / c;
    assert(u == c * k);
    assert(abs(u) >= c) by (nonlinear_arith)
        requires
            u == c * k,
            u != 0,
            c > 0,
    ;
}

/// Whole cents are closed under addition and subtraction.
pub proof fn lemma_cents_add_sub(a: int, b: int)
    requires
        is_cents(a),
        is_cents(b),
    ensures
        is_cents(a + b),
        is_cents(a - b),
        is_cents(0),
{
    let c = cent();
    vstd::arithmetic::div_mod::lemma_fundamental_div_mod(a, c);
    vstd::arithmetic::div_mod::lemma_fundamental_div_mod(b, c);
    let ka = a / c;
    let kb = b / c;
    assert(a + b == (ka + kb) * c) by (nonlinear_arith)
        requires
            a == c * ka + a % c,
            b == c * kb + b % c,
            a % c == 0,
            b % c == 0,
    ;
    assert(a - b == (ka - kb) * c) by (nonlinear_arith)
        requires
            a == c * ka + a % c,
            b == c * kb + b % c,
            a % c == 0,
            b % c == 0,
    ;
    vstd::arithmetic::div_mod::lemma_mod_multiples_basic(ka + kb, c);
    vstd::arithmetic::div_mod::lemma_mod_multiples_basic(ka - kb, c);
    vstd::arithmetic::div_mod::lemma_mod_multiples_basic(0, c);
}

/// Rounding to cents is monotone.
pub proof fn lemma_money_monotone(x: int, y: int)
    requires
        x <= y,
    ensures
        money_units(x) <= money_units(y),
{
    let c = cent();
    let h = c / 2;
    if x >= 0 {
        vstd::arithmetic::div_mod::lemma_div_is_ordered(x + h, y + h, c);
        vstd::arithmetic::mul::lemma_mul_inequality((x + h) / c, (y + h) / c, c);
    } else if y >= 0 {
        lemma_money_units(x);
        lemma_money_units(y);
    } else {
        vstd::arithmetic::div_mod::lemma_div_is_ordered(-y + h, -x + h, c);
        vstd::arithmetic::mul::lemma_mul_inequality((-y + h) / c, (-x + h) / c, c);
    }
}

/// A value at most a whole number of cents rounds to at most that number.
pub proof fn lemma_money_le_cents(x: int, r: int)
    requires
        x <= r,
        is_cents(r),
    ensures
        money_units(x) <= r,
{
    lemma_money_monotone(x, r);
    lemma_money_units(r);
}

// ---- rust_decimal -------------------------------------------------------------------------

/// What `Decimal + Decimal` returns for the two operands.
pub uninterp spec fn spec_dec_add(a: Dec, b: Dec) -> Dec;

/// What `Decimal - Decimal` returns for the two operands.
pub uninterp spec fn spec_dec_sub(a: Dec, b: Dec) -> Dec;

/// What `Decimal * Decimal` returns for the two operands.
pub uninterp spec fn spec_dec_mul(a: Dec, b: Dec) -> Dec;

/// What `Decimal / Decimal` returns for the two operands.
pub uninterp spec fn spec_dec_div(a: Dec, b: Dec) -> Dec;

/// `Decimal < Decimal`: compares the numeric values.
#[verifier::external_body]
fn dec_lt(a: Dec, b: Dec) -> (r: bool)
    requires
        a.wf(),
        b.wf(),
    ensures
        r == (a.units() < b.units()),
{
    Decimal::from_i128_with_scale(a.mantissa, a.scale) < Decimal::from_i128_with_scale(b.mantissa, b.scale)
}

/// `Decimal + Decimal` (panics only when the sum leaves the decimal range, which `requires`
/// rules out).  The sum is exact when it fits at the larger scale — here stated for scales up to
/// 12 and sums up to 10^16 — and otherwise rounded to the nearest value the mantissa can hold.
#[verifier::external_body]
pub(crate) fn dec_add(a: Dec, b: Dec) -> (r: Dec)
    requires
        a.wf(),
        b.wf(),
        abs(a.units() + b.units()) <= max_units(),
    ensures
        r.wf(),
        r == spec_dec_add(a, b),
        abs(r.units() - (a.units() + b.units())) <= unit(),
        (a.scale <= 12 && b.scale <= 12 && abs(a.units() + b.units()) <= 10000000000000000 * unit())
            ==> (r.units() == a.units() + b.units() && r.scale <= (if a.scale >= b.scale { a.scale } else { b.scale })),
{
    let x = Decimal::from_i128_with_scale(a.mantissa, a.scale) + Decimal::from_i128_with_scale(b.mantissa, b.scale);
    Dec { mantissa: x.mantissa(), scale: x.scale() }
}

/// `Decimal - Decimal`; exactness and rounding as for `dec_add`, and also exact for two values of
/// at most two decimal places when they and the difference fit the mantissa at two places.
#[verifier::external_body]
pub(crate) fn dec_sub(a: Dec, b: Dec) -> (r: Dec)
    requires
        a.wf(),
        b.wf(),
        abs(a.units() - b.units()) <= max_units(),
    ensures
        r.wf(),
        r == spec_dec_sub(a, b),
        abs(r.units() - (a.units() - b.units())) <= unit(),
        (a.scale <= 12 && b.scale <= 12 && abs(a.units() - b.units()) <= 10000000000000000 * unit())
            ==> (r.units() == a.units() - b.units() && r.scale <= (if a.scale >= b.scale { a.scale } else { b.scale })),
        (a.scale <= 2 && b.scale <= 2 && abs(a.units()) <= cents_limit() && abs(b.units()) <= cents_limit()
            && abs(a.units() - b.units()) <= cents_limit()) ==> (r.units() == a.units() - b.units() && r.scale
            <= (if a.scale >= b.scale { a.scale } else { b.scale })),
{
    let x = Decimal::from_i128_with_scale(a.mantissa, a.scale) - Decimal::from_i128_with_scale(b.mantissa, b.scale);
    Dec { mantissa: x.mantissa(), scale: x.scale() }
}

/// `Decimal * Decimal` (panics only when the product leaves the decimal range).  The product is
/// exact when the scales sum to at most 28 and the mantissas' product fits in 96 bits; a zero
/// operand gives zero.
#[verifier::external_body]
pub(crate) fn dec_mul(a: Dec, b: Dec) -> (r: Dec)
    requires
        a.wf(),
        b.wf(),
        abs(a.units() * b.units()) <= max_units() * unit(),
    ensures
        r.wf(),
        r == spec_dec_mul(a, b),
        abs(r.units() * unit() - a.units() * b.units()) <= unit() * unit(),
        (a.scale + b.scale <= 28 && abs(a.mantissa * b.mantissa) <= MAX_MANTISSA)
            ==> r.units() * unit() == a.units() * b.units(),
        (a.units() == 0 || b.units() == 0) ==> r.units() == 0,
        (a.units() >= 0 && b.units() >= 0) ==> r.units() >= 0,
{
    let x = Decimal::from_i128_with_scale(a.mantissa, a.scale) * Decimal::from_i128_with_scale(b.mantissa, b.scale);
    Dec { mantissa: x.mantissa(), scale: x.scale() }
}

/// `Decimal / Decimal` (panics on a zero divisor or a quotient outside the decimal range, both
/// ruled out by `requires`).  A zero dividend gives zero; the sign is the product of the signs;
/// otherwise the quotient is rounded to the precision the mantissa can hold, within one whole of
/// the exact quotient.
#[verifier::external_body]
pub(crate) fn dec_div(a: Dec, b: Dec) -> (r: Dec)
    requires
        a.wf(),
        b.wf(),
        b.units() != 0,
        abs(a.units()) * unit() <= max_units() * abs(b.units()),
    ensures
        r.wf(),
        r == spec_dec_div(a, b),
        abs(r.units() * b.units() - a.units() * unit()) <= unit() * abs(b.units()),
        a.units() == 0 ==> r.units() == 0,
        (a.units() >= 0 && b.units() > 0) ==> r.units() >= 0,
{
    let x = Decimal::from_i128_with_scale(a.mantissa, a.scale) / Decimal::from_i128_with_scale(b.mantissa, b.scale);
    Dec { mantissa: x.mantissa(), scale: x.scale() }
}

/// What `Decimal::checked_add` returns: `None` exactly where `+` would panic.
pub uninterp spec fn spec_checked_add(a: Dec, b: Dec) -> Option<Dec>;

/// What `Decimal::checked_sub` returns: `None` exactly where `-` would panic.
pub uninterp spec fn spec_checked_sub(a: Dec, b: Dec) -> Option<Dec>;

/// What `Decimal::checked_mul` returns: `None` exactly where `*` would panic.
pub uninterp spec fn spec_checked_mul(a: Dec, b: Dec) -> Option<Dec>;

/// What `Decimal::checked_div` returns: `None` exactly where `/` would panic.
pub uninterp spec fn spec_checked_div(a: Dec, b: Dec) -> Option<Dec>;

/// `Decimal::checked_add`: the sum, or `None` when it leaves the decimal range.  Exact when it
/// fits at the larger scale: stated for scales up to 12 and sums up to 10^16, and for two values
/// of at most two decimal places when they and the sum fit the mantissa at two places (no
/// rescaling then overflows, so no rounding happens).
#[verifier::external_body]
pub(crate) fn dec_checked_add(a: Dec, b: Dec) -> (r: Option<Dec>)
    requires
        a.wf(),
        b.wf(),
    ensures
        r == spec_checked_add(a, b),
        r is Some ==> r.unwrap().wf(),
        (a.scale <= 12 && b.scale <= 12 && abs(a.units() + b.units()) <= 10000000000000000 * unit())
            ==> (r is Some && r.unwrap().units() == a.units() + b.units() && r.unwrap().scale <= (if a.scale
            >= b.scale { a.scale } else { b.scale })),
        (a.scale <= 2 && b.scale <= 2 && abs(a.units()) <= cents_limit() && abs(b.units()) <= cents_limit()
            && abs(a.units() + b.units()) <= cents_limit()) ==> (r is Some && r.unwrap().units() == a.units()
            + b.units() && r.unwrap().scale <= (if a.scale >= b.scale { a.scale } else { b.scale })),
{
    match Decimal::from_i128_with_scale(a.mantissa, a.scale).checked_add(Decimal::from_i128_with_scale(b.mantissa, b.scale)) {
        Some(x) => Some(Dec { mantissa: x.mantissa(), scale: x.scale() }),
        None => None,
    }
}

/// `Decimal::checked_sub`: the difference, or `None` when it leaves the decimal range; exact as
/// for `dec_checked_add`, the difference in place of the sum.
#[verifier::external_body]
pub(crate) fn dec_checked_sub(a: Dec, b: Dec) -> (r: Option<Dec>)
    requires
        a.wf(),
        b.wf(),
    ensures
        r == spec_checked_sub(a, b),
        r is Some ==> r.unwrap().wf(),
        (a.scale <= 12 && b.scale <= 12 && abs(a.units() - b.units()) <= 10000000000000000 * unit())
            ==> (r is Some && r.unwrap().units() == a.units() - b.units() && r.unwrap().scale <= (if a.scale
            >= b.scale { a.scale } else { b.scale })),
        (a.scale <= 2 && b.scale <= 2 && abs(a.units()) <= cents_limit() && abs(b.units()) <= cents_limit()
            && abs(a.units() - b.units()) <= cents_limit()) ==> (r is Some && r.unwrap().units() == a.units()
            - b.units() && r.unwrap().scale <= (if a.scale >= b.scale { a.scale } else { b.scale })),
{
    match Decimal::from_i128_with_scale(a.mantissa, a.scale).checked_sub(Decimal::from_i128_with_scale(b.mantissa, b.scale)) {
        Some(x) => Some(Dec { mantissa: x.mantissa(), scale: x.scale() }),
        None => None,
    }
}

/// `Decimal::checked_mul`: the product, or `None` when it leaves the decimal range.  Exact when
/// the scales sum to at most 28 and the mantissas' product fits in 96 bits, at the summed scale
/// when neither operand is zero; a zero operand gives zero at scale 0; the sign is the product
/// of the signs.
#[verifier::external_body]
pub(crate) fn dec_checked_mul(a: Dec, b: Dec) -> (r: Option<Dec>)
    requires
        a.wf(),
        b.wf(),
    ensures
        r == spec_checked_mul(a, b),
        r is Some ==> r.unwrap().wf(),
        (a.scale + b.scale <= 28 && abs(a.mantissa * b.mantissa) <= MAX_MANTISSA) ==> (r is Some
            && r.unwrap().units() * unit() == a.units() * b.units()),
        (a.scale + b.scale <= 28 && abs(a.mantissa * b.mantissa) <= MAX_MANTISSA && a.mantissa != 0
            && b.mantissa != 0) ==> r.unwrap().scale == a.scale + b.scale,
        (a.mantissa == 0 || b.mantissa == 0) ==> (r is Some && r.unwrap().units() == 0 && r.unwrap().scale == 0),
        (r is Some && a.units() >= 0 && b.units() >= 0) ==> r.unwrap().units() >= 0,
{
    match Decimal::from_i128_with_scale(a.mantissa, a.scale).checked_mul(Decimal::from_i128_with_scale(b.mantissa, b.scale)) {
        Some(x) => Some(Dec { mantissa: x.mantissa(), scale: x.scale() }),
        None => None,
    }
}

/// `Decimal::checked_div`: the quotient, or `None` for a zero divisor or a quotient outside the
/// decimal range.  A zero dividend gives zero; the sign is the product of the signs.
#[verifier::external_body]
pub(crate) fn dec_checked_div(a: Dec, b: Dec) -> (r: Option<Dec>)
    requires
        a.wf(),
        b.wf(),
    ensures
        r == spec_checked_div(a, b),
        r is Some ==> r.unwrap().wf(),
        b.units() == 0 ==> r is None,
        (r is Some && a.units() >= 0 && b.units() > 0) ==> r.unwrap().units() >= 0,
{
    match Decimal::from_i128_with_scale(a.mantissa, a.scale).checked_div(Decimal::from_i128_with_scale(b.mantissa, b.scale)) {
        Some(x) => Some(Dec { mantissa: x.mantissa(), scale: x.scale() }),
        None => None,
    }
}

/// `Decimal::floor`: the largest whole number not above the value.
#[verifier::external_body]
pub(crate) fn dec_floor(a: Dec) -> (r: Dec)
    requires
        a.wf(),
    ensures
        r.wf(),
        r == floor_dec(a),
        r.units() == floor_units(a.units()),
        r.scale == 0,
{
    let x = Decimal::from_i128_with_scale(a.mantissa, a.scale).floor();
    Dec { mantissa: x.mantissa(), scale: x.scale() }
}

/// `Decimal::round_dp_with_strategy(2, MidpointAwayFromZero)`: rounds to cents, ties away from
/// zero; the result has at most 2 decimal places.
#[verifier::external_body]
pub(crate) fn dec_round_cents(a: Dec) -> (r: Dec)
    requires
        a.wf(),
    ensures
        r.wf(),
        r == money_dec(a),
        r.units() == money_units(a.units()),
        r.scale <= 2,
{
    let x = Decimal::from_i128_with_scale(a.mantissa, a.scale).round_dp_with_strategy(2, RoundingStrategy::MidpointAwayFromZero);
    Dec { mantissa: x.mantissa(), scale: x.scale() }
}

/// Round to 2 decimal places, half away from zero (the currency rule for every money value).
pub fn money(v: Dec) -> (r: Dec)
    requires
        v.wf(),
    ensures
        r.wf(),
        r == money_dec(v),
        r.units() == money_units(v.units()),
        r.scale <= 2,
        is_cents(r.units()),
        abs(r.units() - v.units()) <= cent() / 2,
{
    proof {
        lemma_money_units(v.units());
    }
    dec_round_cents(v)
}

} // verus!
