//! Amounts in the base units of a token.

use vstd::arithmetic::power::pow;
use vstd::prelude::*;

use crate::types::{pow256, U256};

verus! {

/// `U256::checked_pow` of ethers-core: the power where it is below two to
/// the 256, else nothing.
#[verifier::external_body]
fn checked_pow(base: &U256, exponent: &U256) -> (power: Option<U256>)
    ensures
        power.is_some() == (pow(base@ as int, exponent@) < pow256()),
        power.is_some() ==> power.unwrap()@ == pow(base@ as int, exponent@),
{
    let base = ethers_core::types::U256(base.limbs);
    let power = base.checked_pow(ethers_core::types::U256(exponent.limbs));
    power.map(|power| U256 { limbs: power.0 })
}

/// `U256::checked_mul` of ethers-core: the product where it is below two
/// to the 256, else nothing.
#[verifier::external_body]
fn checked_mul(left: &U256, right: &U256) -> (product: Option<U256>)
    ensures
        product.is_some() == (left@ * right@ < pow256()),
        product.is_some() ==> product.unwrap()@ == left@ * right@,
{
    let left = ethers_core::types::U256(left.limbs);
    let product = left.checked_mul(ethers_core::types::U256(right.limbs));
    product.map(|product| U256 { limbs: product.0 })
}

/// Ten to the power `decimals`: how many base units make one whole.
pub open spec fn unit(decimals: u8) -> int {
    pow(10, decimals as nat)
}

/// Whether `amount` wholes of a token with `decimals` decimals can be
/// written in base units: the unit itself and the product are both below
/// two to the 256.
pub open spec fn fits_base_units(amount: nat, decimals: u8) -> bool {
    unit(decimals) < pow256() && amount * unit(decimals) < pow256()
}

/// Whole amounts that can be written in the base units of a token.
pub trait Decimals {
    /// The amount as a number.
    spec fn amount(&self) -> nat;

    /// The amount in base units of a token with `decimals` decimals: the
    /// amount times ten to the power `decimals`, or nothing where that
    /// cannot be written in 256 bits.
    fn to_decimals(&self, decimals: u8) -> (scaled: Option<U256>)
        ensures
            scaled.is_some() == fits_base_units(self.amount(), decimals),
            scaled.is_some() ==> scaled.unwrap()@ == self.amount() * unit(decimals),
    ;
}

/// The amount `amount` in base units of a token with `decimals` decimals.
fn scale(amount: &U256, decimals: u8) -> (scaled: Option<U256>)
    ensures
        scaled.is_some() == fits_base_units(amount@, decimals),
        scaled.is_some() ==> scaled.unwrap()@ == amount@ * unit(decimals),
{
    let ten = U256::from_u64(10);
    let exponent = U256::from_u64(decimals as u64);
    match checked_pow(&ten, &exponent) {
        Some(unit) => checked_mul(amount, &unit),
        None => None,
    }
}

impl Decimals for u64 {
    open spec fn amount(&self) -> nat {
        *self as nat
    }

    fn to_decimals(&self, decimals: u8) -> (scaled: Option<U256>) {
        scale(&U256::from_u64(*self), decimals)
    }
}

impl Decimals for usize {
    open spec fn amount(&self) -> nat {
        *self as nat
    }

    fn to_decimals(&self, decimals: u8) -> (scaled: Option<U256>) {
        scale(&U256::from_u64(*self as u64), decimals)
    }
}

impl Decimals for U256 {
    open spec fn amount(&self) -> nat {
        self@
    }

    fn to_decimals(&self, decimals: u8) -> (scaled: Option<U256>) {
        scale(self, decimals)
    }
}

} // verus!
