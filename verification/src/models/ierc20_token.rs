//! A token contract and the scale of its amounts.

use vstd::prelude::*;

use crate::types::Address;

verus! {

/// Which token contract is meant.
pub struct IERC20TokenOptions {
    pub contract_address: Address,
}

/// A token: its contract and the number of decimals of its amounts.
#[derive(Clone, Copy, Debug, PartialEq, Eq)]
pub struct IERC20Token {
    pub decimals: u8,
    pub address: Address,
}

impl IERC20Token {
    /// The token at `options.contract_address`, with the decimals that its
    /// contract reported.
    pub fn new(options: IERC20TokenOptions, decimals: u8) -> (token: IERC20Token)
        ensures
            token.address == options.contract_address,
            token.decimals == decimals,
    {
        IERC20Token { decimals, address: options.contract_address }
    }
}

} // verus!
