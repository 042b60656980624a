//! The wallets that receive a purchase and those that sign approvals.

use vstd::prelude::*;

use crate::models::wallet::{is_wallet_of, BlazingWallet};
use crate::types::SecretKey;

verus! {

/// The keys that the sniper wallets are made of.
pub struct SnipersOptions {
    pub recipient_keys: Vec<SecretKey>,
    pub approve_sniper_keys: Vec<SecretKey>,
}

/// The wallets of one buy attempt, by role.
pub struct Snipers {
    pub recipients: Vec<BlazingWallet>,
    pub approve_snipers: Vec<BlazingWallet>,
}

/// Whether `wallets` are the wallets of `keys` on the chain `chain_id`,
/// one for one and in the same order.
pub open spec fn are_wallets_of(wallets: Seq<BlazingWallet>, keys: Seq<SecretKey>, chain_id: u64) -> bool {
    &&& wallets.len() == keys.len()
    &&& forall|i: int| 0 <= i < keys.len() ==> is_wallet_of(#[trigger] wallets[i], keys[i], chain_id)
}

/// The wallets of `keys` on the chain `chain_id`, in the same order.
fn wallets_of(keys: &Vec<SecretKey>, chain_id: u64) -> (wallets: Vec<BlazingWallet>)
    ensures
        are_wallets_of(wallets@, keys@, chain_id),
{
    let mut wallets: Vec<BlazingWallet> = Vec::new();
    let mut i: usize = 0;
    while i < keys.len()
        invariant
            i <= keys.len(),
            wallets@.len() == i,
            forall|j: int| 0 <= j < i ==> is_wallet_of(#[trigger] wallets@[j], keys@[j], chain_id),
        decreases keys.len() - i,
    {
        wallets.push(BlazingWallet::new(keys[i], chain_id));
        i = i + 1;
    }
    wallets
}

impl Snipers {
    /// One wallet for every recipient key and one for every approval key,
    /// all on the chain `chain_id`.
    pub fn new(options: SnipersOptions, chain_id: u64) -> (snipers: Snipers)
        ensures
            are_wallets_of(snipers.recipients@, options.recipient_keys@, chain_id),
            are_wallets_of(snipers.approve_snipers@, options.approve_sniper_keys@, chain_id),
    {
        let recipients = wallets_of(&options.recipient_keys, chain_id);
        let approve_snipers = wallets_of(&options.approve_sniper_keys, chain_id);
        Snipers { recipients, approve_snipers }
    }
}

} // verus!
