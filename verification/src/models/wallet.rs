//! A wallet: a secret key, its address and the chain it signs for.

use vstd::prelude::*;

use crate::types::{Address, SecretKey};
use crate::utils::key_to_address::{address_of_key, private_key_to_address};

verus! {

/// A secret key with the address it controls, bound to one chain.
#[derive(Clone, Copy)]
pub struct BlazingWallet {
    pub address: Address,
    pub private_key: SecretKey,
    pub chain_id: u64,
}

/// Whether `wallet` is the wallet of `key` on the chain `chain_id`.
pub open spec fn is_wallet_of(wallet: BlazingWallet, key: SecretKey, chain_id: u64) -> bool {
    &&& wallet.private_key == key
    &&& wallet.address.bytes@ == address_of_key(key.bytes())
    &&& wallet.chain_id == chain_id
}

impl BlazingWallet {
    /// The wallet of `private_key` on the chain `chain_id`. The chain id
    /// has to be known before a wallet can exist, and stays with it.
    pub fn new(private_key: SecretKey, chain_id: u64) -> (wallet: BlazingWallet)
        ensures
            is_wallet_of(wallet, private_key, chain_id),
    {
        let address = private_key_to_address(&private_key);
        BlazingWallet { address, private_key, chain_id }
    }
}

} // verus!
