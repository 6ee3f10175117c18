use vstd::prelude::*;

use crate::{
    error::TipRouterError,
    le_bytes::{le_bytes, le_value, lemma_le_round_trip, lemma_le_value_bound, lemma_pow256_values, u128_from_le_bytes, u128_to_le_bytes},
    precise_number::{PreciseNumber, precise_new, precise_one, precise_to_imprecise, spec_new, spec_to_imprecise, u256_bound},
};

verus! {

/// Token amounts are scaled by 10^9 when held as numbers.
pub open spec fn token_precision() -> nat {
    1_000_000_000
}

/// The number that stands for a token supply: `supply * 10^9`.
pub open spec fn token_supply_value(token_supply: u64) -> nat {
    (token_supply * token_precision()) as nat
}

/// The token supply a number stands for: `value / 10^9`, or an overflow
/// error when that does not fit in a `u64`.
pub open spec fn token_supply_of(value: nat) -> Result<u64, TipRouterError> {
    if value / token_precision() > u64::MAX {
        Err(TipRouterError::ArithmeticOverflow)
    } else {
        Ok((value / token_precision()) as u64)
    }
}

/// Whether spl-math can round a precise number to a `u128` without
/// panicking: the rounded value fits, or the rounding itself overflows and
/// gives `None`.
pub open spec fn imprecise_fits(p: PreciseNumber) -> bool {
    spec_to_imprecise(p.value()) matches Some(v) ==> v <= u128::MAX
}

/// What reading a precise number back as a number gives.
pub open spec fn imprecise_result(p: PreciseNumber) -> Result<nat, TipRouterError> {
    match spec_to_imprecise(p.value()) {
        Some(v) => Ok(v),
        None => Err(TipRouterError::CastToImpreciseNumberError),
    }
}

/// A 128-bit number held as 16 little-endian bytes.
#[derive(Debug, Clone, Copy)]
pub struct JitoNumber {
    value: [u8; 16],
}

impl View for JitoNumber {
    type V = nat;

    closed spec fn view(&self) -> nat {
        le_value(self.value@)
    }
}

impl Default for JitoNumber {
    fn default() -> (n: Self)
        ensures
            n@ == 0,
    {
        JitoNumber::_from_u128(0)
    }
}

impl JitoNumber {
    pub const PRECISION_FACTOR: u128 = 1_000_000_000;

    fn _from_u128(value: u128) -> (n: Self)
        ensures
            n@ == value,
    {
        proof {
            lemma_pow256_values();
            lemma_le_round_trip(value as nat, 16);
        }
        JitoNumber { value: u128_to_le_bytes(value) }
    }

    fn _to_u128(&self) -> (v: u128)
        ensures
            v == self@,
    {
        u128_from_le_bytes(&self.value)
    }

    fn _to_precise_number(&self) -> (r: Result<PreciseNumber, TipRouterError>)
        ensures
            r matches Ok(p) && p.value() == spec_new(self@ as u128),
    {
        match precise_new(self._to_u128()) {
            Some(p) => Ok(p),
            None => Err(TipRouterError::NewPreciseNumberError),
        }
    }

    fn _from_precise_number(precise_number: PreciseNumber) -> (r: Result<Self, TipRouterError>)
        requires
            imprecise_fits(precise_number),
        ensures
            match imprecise_result(precise_number) {
                Ok(v) => r matches Ok(n) && n@ == v,
                Err(e) => r matches Err(e2) && e2 == e,
            },
    {
        match precise_to_imprecise(&precise_number) {
            Some(v) => Ok(Self::_from_u128(v)),
            None => Err(TipRouterError::CastToImpreciseNumberError),
        }
    }

    fn from_token_supply(token_supply: u64) -> (r: Result<Self, TipRouterError>)
        ensures
            r matches Ok(n) && n@ == token_supply_value(token_supply),
    {
        let value = match (token_supply as u128).checked_mul(Self::PRECISION_FACTOR) {
            Some(v) => v,
            None => {
                return Err(TipRouterError::ArithmeticOverflow);
            },
        };
        Ok(Self::_from_u128(value))
    }

    fn to_token_supply(self) -> (r: Result<u64, TipRouterError>)
        ensures
            r == token_supply_of(self@),
    {
        let value = self._to_u128();
        let token_supply = value / Self::PRECISION_FACTOR;
        if token_supply > u64::MAX as u128 {
            return Err(TipRouterError::ArithmeticOverflow);
        }
        Ok(token_supply as u64)
    }

    /// The precise number that a token supply stands for.
    pub fn token_supply_to_precise_number(token_supply: u64) -> (r: Result<PreciseNumber, TipRouterError>)
        ensures
            r matches Ok(p) && p.value() == spec_new(token_supply_value(token_supply) as u128),
    {
        let value = Self::from_token_supply(token_supply)?;
        value._to_precise_number()
    }

    /// The token supply that a precise number stands for.
    pub fn precise_number_to_token_supply(precise_number: PreciseNumber) -> (r: Result<u64, TipRouterError>)
        requires
            imprecise_fits(precise_number),
        ensures
            r == match imprecise_result(precise_number) {
                Ok(v) => token_supply_of(v),
                Err(e) => Err(e),
            },
    {
        let value = Self::_from_precise_number(precise_number)?;
        value.to_token_supply()
    }

    pub fn from_weight(weight: u128) -> (n: Self)
        ensures
            n@ == weight,
    {
        Self::_from_u128(weight)
    }

    pub fn to_weight(&self) -> (w: u128)
        ensures
            w == self@,
    {
        self._to_u128()
    }

    pub fn weight_to_precise_number(&self) -> (r: Result<PreciseNumber, TipRouterError>)
        ensures
            r matches Ok(p) && p.value() == spec_new(self@ as u128),
    {
        self._to_precise_number()
    }

    pub fn precise_number_to_weight(precise_number: PreciseNumber) -> (r: Result<Self, TipRouterError>)
        requires
            imprecise_fits(precise_number),
        ensures
            match imprecise_result(precise_number) {
                Ok(v) => r matches Ok(n) && n@ == v,
                Err(e) => r matches Err(e2) && e2 == e,
            },
    {
        Self::_from_precise_number(precise_number)
    }
}

/// A token supply made precise and read back is the same supply.
pub proof fn lemma_token_supply_round_trip(token_supply: u64)
    ensures
        spec_to_imprecise(spec_new(token_supply_value(token_supply) as u128)) == Some(
            token_supply_value(token_supply),
        ),
        token_supply_of(token_supply_value(token_supply)) == Ok::<u64, TipRouterError>(token_supply),
{
    let v = token_supply_value(token_supply);
    assert(v <= 0xffff_ffff_ffff_ffffnat * 1_000_000_000nat) by (nonlinear_arith)
        requires
            v == token_supply * 1_000_000_000nat,
            token_supply <= 0xffff_ffff_ffff_ffffnat,
    ;
    assert(v * precise_one() + precise_one() / 2 < u256_bound()) by (nonlinear_arith)
        requires
            v <= 0xffff_ffff_ffff_ffffnat * 1_000_000_000nat,
    ;
    assert((v * 1_000_000_000_000nat + 500_000_000_000nat) / 1_000_000_000_000nat == v) by (nonlinear_arith);
    assert(v / 1_000_000_000nat == token_supply) by (nonlinear_arith)
        requires
            v == token_supply * 1_000_000_000nat,
    ;
}

/// A weight stored and read back is the same weight.
pub proof fn lemma_weight_round_trip(weight: u128)
    ensures
        le_value(le_bytes(weight as nat, 16)) == weight,
{
    lemma_pow256_values();
    lemma_le_round_trip(weight as nat, 16);
}

} // verus!
