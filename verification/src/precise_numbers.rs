use vstd::prelude::*;

use crate::{
    error::TipRouterError,
    jito_number::{imprecise_fits, imprecise_result, token_supply_of, token_supply_value},
    le_bytes::{le_value, lemma_le_round_trip, lemma_le_value_bound, lemma_pow256_values, u128_from_le_bytes, u128_to_le_bytes},
    precise_number::{PreciseNumber, precise_new, precise_to_imprecise, spec_new},
};

verus! {

/// A 128-bit number held as 16 little-endian bytes, on its way to or from a
/// precise number.
#[derive(Debug, Clone, Copy)]
pub struct PreciseNumberWrapper {
    value: [u8; 16],
}

impl View for PreciseNumberWrapper {
    type V = nat;

    closed spec fn view(&self) -> nat {
        le_value(self.value@)
    }
}

impl Default for PreciseNumberWrapper {
    fn default() -> (n: Self)
        ensures
            n@ == 0,
    {
        PreciseNumberWrapper::from_u128(0)
    }
}

impl PreciseNumberWrapper {
    fn from_u128(value: u128) -> (n: Self)
        ensures
            n@ == value,
    {
        proof {
            lemma_pow256_values();
            lemma_le_round_trip(value as nat, 16);
        }
        PreciseNumberWrapper { value: u128_to_le_bytes(value) }
    }

    fn to_u128(&self) -> (v: u128)
        ensures
            v == self@,
    {
        u128_from_le_bytes(&self.value)
    }

    fn to_precise_number(&self) -> (r: Result<PreciseNumber, TipRouterError>)
        ensures
            r matches Ok(p) && p.value() == spec_new(self@ as u128),
    {
        match precise_new(self.to_u128()) {
            Some(p) => Ok(p),
            None => Err(TipRouterError::NewPreciseNumberError),
        }
    }

    fn from_precise_number(precise_number: PreciseNumber) -> (r: Result<Self, TipRouterError>)
        requires
            imprecise_fits(precise_number),
        ensures
            match imprecise_result(precise_number) {
                Ok(v) => r matches Ok(n) && n@ == v,
                Err(e) => r matches Err(e2) && e2 == e,
            },
    {
        match precise_to_imprecise(&precise_number) {
            Some(v) => Ok(Self::from_u128(v)),
            None => Err(TipRouterError::CastToImpreciseNumberError),
        }
    }
}

/// A weight, held for precise arithmetic.
#[derive(Debug, Clone, Copy)]
pub struct PreciseWeight {
    number: PreciseNumberWrapper,
}

impl View for PreciseWeight {
    type V = nat;

    closed spec fn view(&self) -> nat {
        self.number@
    }
}

impl Default for PreciseWeight {
    fn default() -> (w: Self)
        ensures
            w@ == 0,
    {
        PreciseWeight { number: PreciseNumberWrapper::default() }
    }
}

impl PreciseWeight {
    pub fn from_weight(weight: u128) -> (w: Self)
        ensures
            w@ == weight,
    {
        let number = PreciseNumberWrapper::from_u128(weight);
        PreciseWeight { number }
    }

    pub fn to_weight(&self) -> (w: u128)
        ensures
            w == self@,
    {
        self.number.to_u128()
    }

    pub fn weight_to_precise_number(&self) -> (r: Result<PreciseNumber, TipRouterError>)
        ensures
            r matches Ok(p) && p.value() == spec_new(self@ as u128),
    {
        self.number.to_precise_number()
    }

    pub fn precise_number_to_weight(precise_number: PreciseNumber) -> (r: Result<Self, TipRouterError>)
        requires
            imprecise_fits(precise_number),
        ensures
            match imprecise_result(precise_number) {
                Ok(v) => r matches Ok(w) && w@ == v,
                Err(e) => r matches Err(e2) && e2 == e,
            },
    {
        let number = PreciseNumberWrapper::from_precise_number(precise_number)?;
        Ok(PreciseWeight { number })
    }
}

/// A token supply, held scaled by 10^9 for precise arithmetic.
#[derive(Debug, Clone, Copy)]
pub struct PreciseTokenSupply {
    number: PreciseNumberWrapper,
}

impl View for PreciseTokenSupply {
    type V = nat;

    closed spec fn view(&self) -> nat {
        self.number@
    }
}

impl Default for PreciseTokenSupply {
    fn default() -> (s: Self)
        ensures
            s@ == 0,
    {
        PreciseTokenSupply { number: PreciseNumberWrapper::default() }
    }
}

impl PreciseTokenSupply {
    pub const PRECISION_FACTOR: u128 = 1_000_000_000;

    fn from_token_supply(token_supply: u64) -> (r: Result<Self, TipRouterError>)
        ensures
            r matches Ok(s) && s@ == token_supply_value(token_supply),
    {
        let value = match (token_supply as u128).checked_mul(Self::PRECISION_FACTOR) {
            Some(v) => v,
            None => {
                return Err(TipRouterError::ArithmeticOverflow);
            },
        };
        let number = PreciseNumberWrapper::from_u128(value);
        Ok(PreciseTokenSupply { number })
    }

    fn to_token_supply(self) -> (r: Result<u64, TipRouterError>)
        ensures
            r == token_supply_of(self@),
    {
        let value = self.number.to_u128();
        let token_supply = value / Self::PRECISION_FACTOR;
        if token_supply > u64::MAX as u128 {
            return Err(TipRouterError::ArithmeticOverflow);
        }
        Ok(token_supply as u64)
    }

    /// The precise number that a token supply stands for.
    pub fn token_supply_to_precise_number(token_supply: u64) -> (r: Result<PreciseNumber, TipRouterError>)
        ensures
            r matches Ok(p) && p.value() == spec_new(token_supply_value(token_supply) as u128),
    {
        let value = Self::from_token_supply(token_supply)?;
        value.number.to_precise_number()
    }

    /// The token supply that a precise number stands for.
    pub fn precise_number_to_token_supply(precise_number: PreciseNumber) -> (r: Result<u64, TipRouterError>)
        requires
            imprecise_fits(precise_number),
        ensures
            r == match imprecise_result(precise_number) {
                Ok(v) => token_supply_of(v),
                Err(e) => Err(e),
            },
    {
        let number = PreciseNumberWrapper::from_precise_number(precise_number)?;
        let value = PreciseTokenSupply { number };
        value.to_token_supply()
    }
}

} // verus!
