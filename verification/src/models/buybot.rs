//! The contract that carries out a buy.

use vstd::prelude::*;

use crate::config::Config;
use crate::types::Address;

verus! {

/// The bot contract that buy transactions are sent to.
#[derive(Clone, Copy, Debug, PartialEq, Eq)]
pub struct BuyBot {
    pub address: Address,
}

impl BuyBot {
    /// The configured bot contract.
    pub fn new(config: &Config) -> (buy_bot: BuyBot)
        ensures
            buy_bot.address == config.bot_contract_address,
    {
        BuyBot { address: config.bot_contract_address }
    }
}

} // verus!
