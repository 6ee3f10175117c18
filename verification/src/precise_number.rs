use vstd::prelude::*;

use spl_math::uint::U256;

use vstd::arithmetic::div_mod::{lemma_div_denominator, lemma_fundamental_div_mod_converse_div};

verus! {

/// One, as spl-math's fixed-point numbers hold it: values are scaled by 10^12.
pub open spec fn precise_one() -> nat {
    1_000_000_000_000
}

/// The bound of spl-math's 256-bit inner integer.
pub open spec fn u256_bound() -> nat {
    0x1_0000_0000_0000_0000_0000_0000_0000_0000_0000_0000_0000_0000_0000_0000_0000_0000_0000_0000_0000_0000nat
}

/// A fixed-point number as spl-math's `PreciseNumber` holds it: a 256-bit
/// inner value (four little-endian 64-bit limbs) that stands for
/// `value / 10^12`.
#[derive(Debug, Clone, Copy)]
pub struct PreciseNumber {
    limbs: [u64; 4],
}

impl PreciseNumber {
    /// The inner (scaled) value.
    pub closed spec fn value(self) -> nat {
        (self.limbs@[0] + self.limbs@[1] * 0x1_0000_0000_0000_0000nat + self.limbs@[2]
            * 0x1_0000_0000_0000_0000_0000_0000_0000_0000nat + self.limbs@[3]
            * 0x1_0000_0000_0000_0000_0000_0000_0000_0000_0000_0000_0000_0000nat) as nat
    }
}

/// What spl-math's `PreciseNumber::new` makes of `v`: `v * 10^12`.
pub open spec fn spec_new(v: u128) -> nat {
    (v * precise_one()) as nat
}

/// What spl-math's `checked_div` gives for inner values `a` and `b`.
pub open spec fn spec_div(a: nat, b: nat) -> Option<nat> {
    if b == 0 {
        None
    } else if a * precise_one() < u256_bound() {
        if a * precise_one() + precise_one() / 2 < u256_bound() {
            Some(((a * precise_one() + precise_one() / 2) / b) as nat)
        } else {
            None
        }
    } else if a + precise_one() / 2 < u256_bound() && (a + precise_one() / 2) / b * precise_one()
        < u256_bound() {
        Some(((a + precise_one() / 2) / b * precise_one()) as nat)
    } else {
        None
    }
}

/// What spl-math's `checked_mul` gives for inner values `a` and `b`.
pub open spec fn spec_mul(a: nat, b: nat) -> Option<nat> {
    if a * b < u256_bound() {
        if a * b + precise_one() / 2 < u256_bound() {
            Some(((a * b + precise_one() / 2) / precise_one()) as nat)
        } else {
            None
        }
    } else if a >= b {
        if a / precise_one() * b < u256_bound() {
            Some((a / precise_one() * b) as nat)
        } else {
            None
        }
    } else {
        if b / precise_one() * a < u256_bound() {
            Some((b / precise_one() * a) as nat)
        } else {
            None
        }
    }
}

/// What spl-math's `floor` gives for inner value `a`.
pub open spec fn spec_floor(a: nat) -> nat {
    (a / precise_one() * precise_one()) as nat
}

/// What spl-math's `to_imprecise` gives for inner value `a`: the value
/// rounded to the nearest integer.
pub open spec fn spec_to_imprecise(a: nat) -> Option<nat> {
    if a + precise_one() / 2 < u256_bound() {
        Some(((a + precise_one() / 2) / precise_one()) as nat)
    } else {
        None
    }
}

/// The inner value of an optional precise number.
pub open spec fn opt_value(p: Option<PreciseNumber>) -> Option<nat> {
    match p {
        Some(q) => Some(q.value()),
        None => None,
    }
}

/// spl-math's `PreciseNumber::new`: the precise number `v * 10^12`.
/// spl-math multiplies in 256 bits, where `v * 10^12` always fits.
#[verifier::external_body]
pub(crate) fn precise_new(v: u128) -> (r: Option<PreciseNumber>)
    ensures
        opt_value(r) == Some(spec_new(v)),
{
    match spl_math::precise_number::PreciseNumber::new(v) {
        Some(p) => Some(PreciseNumber { limbs: p.value.0 }),
        None => None,
    }
}

/// spl-math's `PreciseNumber::checked_div`, as `spec_div` states it.
#[verifier::external_body]
pub(crate) fn precise_checked_div(a: &PreciseNumber, b: &PreciseNumber) -> (r: Option<PreciseNumber>)
    ensures
        opt_value(r) == spec_div(a.value(), b.value()),
{
    let x = spl_math::precise_number::PreciseNumber { value: U256(a.limbs) };
    let y = spl_math::precise_number::PreciseNumber { value: U256(b.limbs) };
    match x.checked_div(&y) {
        Some(p) => Some(PreciseNumber { limbs: p.value.0 }),
        None => None,
    }
}

/// spl-math's `PreciseNumber::checked_mul`, as `spec_mul` states it.
#[verifier::external_body]
pub(crate) fn precise_checked_mul(a: &PreciseNumber, b: &PreciseNumber) -> (r: Option<PreciseNumber>)
    ensures
        opt_value(r) == spec_mul(a.value(), b.value()),
{
    let x = spl_math::precise_number::PreciseNumber { value: U256(a.limbs) };
    let y = spl_math::precise_number::PreciseNumber { value: U256(b.limbs) };
    match x.checked_mul(&y) {
        Some(p) => Some(PreciseNumber { limbs: p.value.0 }),
        None => None,
    }
}

/// spl-math's `PreciseNumber::floor`: the value rounded down to a whole
/// number; dividing and multiplying back by 10^12 cannot overflow.
#[verifier::external_body]
pub(crate) fn precise_floor(a: &PreciseNumber) -> (r: Option<PreciseNumber>)
    ensures
        opt_value(r) == Some(spec_floor(a.value())),
{
    let x = spl_math::precise_number::PreciseNumber { value: U256(a.limbs) };
    match x.floor() {
        Some(p) => Some(PreciseNumber { limbs: p.value.0 }),
        None => None,
    }
}

/// spl-math's `PreciseNumber::to_imprecise`, as `spec_to_imprecise` states it.
/// It panics when the rounded value does not fit in a `u128`, which
/// `requires` rules out.
#[verifier::external_body]
pub(crate) fn precise_to_imprecise(a: &PreciseNumber) -> (r: Option<u128>)
    requires
        a.value() + precise_one() / 2 < u256_bound() ==> (a.value() + precise_one() / 2) / precise_one()
            <= u128::MAX,
    ensures
        match spec_to_imprecise(a.value()) {
            Some(v) => r == Some(v as u128),
            None => r is None,
        },
{
    let x = spl_math::precise_number::PreciseNumber { value: U256(a.limbs) };
    x.to_imprecise()
}

/// spl-math's `PreciseNumber::greater_than_or_equal`: compares inner values.
#[verifier::external_body]
pub(crate) fn precise_greater_than_or_equal(a: &PreciseNumber, b: &PreciseNumber) -> (r: bool)
    ensures
        r == (a.value() >= b.value()),
{
    let x = spl_math::precise_number::PreciseNumber { value: U256(a.limbs) };
    let y = spl_math::precise_number::PreciseNumber { value: U256(b.limbs) };
    x.greater_than_or_equal(&y)
}

/// Dividing the precise numbers of two `u128` values, `x / y`, gives the
/// quotient `x * 10^12 / y` rounded down: spl-math's rounding half can never
/// lift the scaled quotient to the next unit.
pub proof fn lemma_spec_div_whole(x: u128, y: u128)
    requires
        y > 0,
    ensures
        spec_div(spec_new(x), spec_new(y)) == Some(((x * precise_one()) / (y as int)) as nat),
{
    let one: int = 1_000_000_000_000;
    let a: int = x * one;
    let n: int = a * one + one / 2;
    assert(a * one < u256_bound() && n < u256_bound()) by (nonlinear_arith)
        requires
            0 <= x <= u128::MAX,
            a == x * one,
            n == a * one + one / 2,
            one == 1_000_000_000_000,
    ;
    assert(a >= 0) by (nonlinear_arith)
        requires
            a == x * one,
            x >= 0,
            one > 0,
    ;
    assert(spec_new(y) == y * one);
    assert(spec_new(x) == a);
    lemma_fundamental_div_mod_converse_div(n, one, a, one / 2);
    lemma_div_denominator(n, one, y as int);
    assert(one * (y as int) == (y as int) * one) by (nonlinear_arith);
    assert(n / (y * one) == a / (y as int));
}

} // verus!
