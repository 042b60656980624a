//! The buy transaction of a worker.

use vstd::prelude::*;

use crate::config::Config;
use crate::models::simulate::TransactionRequest;
use crate::models::snipers::Snipers;
use crate::types::{pow256, Address, U256};
use crate::worker::Worker;

verus! {

/// The amounts of a buy, each already in the base units of its token.
pub struct BuyAmounts {
    /// How much of the purchase token to buy.
    pub token_amount: U256,
    /// The most of the chain's token to spend.
    pub chain_token_spend_limit: U256,
    /// The wrapped-token amount that the bot's tax checks trade with.
    pub w_token_amount_for_buybot_tax_checks: U256,
}

/// The arguments of the bot contract's buy call, in the call's order.
pub struct BuyCall {
    pub router_address: Address,
    pub purchase_token_address: Address,
    pub liquidity_token_address: Address,
    pub buy_method: u8,
    pub buy_amounts: Vec<U256>,
    pub snipers: Vec<Address>,
    pub use_buybot_checks: bool,
    pub check_sellability: bool,
    pub w_token_amount_for_buybot_tax_checks: U256,
    pub taxes: Vec<U256>,
    pub txid: U256,
}

/// A buy transaction before its call is encoded: where it goes and what it
/// asks for.
pub struct BuyTransaction {
    pub to: Address,
    pub call: BuyCall,
}

/// The addresses of the recipient wallets, in their order.
pub open spec fn recipient_addresses(snipers: Snipers) -> Seq<Address> {
    Seq::new(snipers.recipients@.len(), |i: int| snipers.recipients@[i].address)
}

impl Worker {
    /// Whether `transaction` is this worker's buy under `config` for
    /// `amounts`: sent to the bot contract; router and tokens as the
    /// worker resolved them; method and checks as configured; the token
    /// amount and then the spend limit as buy amounts; one sniper address
    /// per recipient wallet, in order; taxes open from zero to the
    /// largest number; and transaction id zero.
    pub open spec fn buys_with(self, config: Config, amounts: BuyAmounts, transaction: BuyTransaction) -> bool {
        &&& transaction.to == self.buy_bot.address
        &&& transaction.call.router_address == self.router.address
        &&& transaction.call.purchase_token_address == self.purchase_token.address
        &&& transaction.call.liquidity_token_address == self.liquidity_token.address
        &&& transaction.call.buy_method == config.buy.method
        &&& transaction.call.buy_amounts@ == seq![
            amounts.token_amount,
            amounts.chain_token_spend_limit,
        ]
        &&& transaction.call.snipers@ == recipient_addresses(self.snipers)
        &&& transaction.call.use_buybot_checks == config.buy.use_buybot_checks
        &&& transaction.call.check_sellability == config.buy.check_sellability
        &&& transaction.call.w_token_amount_for_buybot_tax_checks
            == amounts.w_token_amount_for_buybot_tax_checks
        &&& transaction.call.taxes@.len() == 2
        &&& transaction.call.taxes@[0]@ == 0
        &&& transaction.call.taxes@[1]@ == pow256() - 1
        &&& transaction.call.txid@ == 0
    }

    /// The buy transaction of this worker, its call still to be encoded.
    pub fn get_buy_transaction(&self, config: &Config, amounts: &BuyAmounts) -> (transaction:
        BuyTransaction)
        ensures
            self.buys_with(*config, *amounts, transaction),
    {
        let txid = U256::zero();
        let mut buy_amounts: Vec<U256> = Vec::new();
        buy_amounts.push(amounts.token_amount);
        buy_amounts.push(amounts.chain_token_spend_limit);
        let mut snipers: Vec<Address> = Vec::new();
        let mut i: usize = 0;
        while i < self.snipers.recipients.len()
            invariant
                i <= self.snipers.recipients@.len(),
                snipers@.len() == i,
                forall|j: int| 0 <= j < i ==> snipers@[j] == self.snipers.recipients@[j].address,
            decreases self.snipers.recipients@.len() - i,
        {
            snipers.push(self.snipers.recipients[i].address);
            i = i + 1;
        }
        let mut taxes: Vec<U256> = Vec::new();
        taxes.push(U256::zero());
        taxes.push(U256::max_value());
        assert(snipers@ =~= recipient_addresses(self.snipers));
        assert(buy_amounts@ =~= seq![amounts.token_amount, amounts.chain_token_spend_limit]);
        BuyTransaction {
            to: self.buy_bot.address,
            call: BuyCall {
                router_address: self.router.address,
                purchase_token_address: self.purchase_token.address,
                liquidity_token_address: self.liquidity_token.address,
                buy_method: config.buy.method,
                buy_amounts,
                snipers,
                use_buybot_checks: config.buy.use_buybot_checks,
                check_sellability: config.buy.check_sellability,
                w_token_amount_for_buybot_tax_checks: amounts.w_token_amount_for_buybot_tax_checks,
                taxes,
                txid,
            },
        }
    }

    /// The request that sends an encoded buy call: from the worker's
    /// wallet to `to`, without value, under the configured gas settings
    /// and on the chain `chain_id`.
    pub fn buy_request(&self, config: &Config, to: Address, calldata: Vec<u8>, chain_id: u64) -> (request:
        TransactionRequest)
        ensures
            request.from == self.wallet.address,
            request.to == to,
            request.data == calldata,
            request.value@ == 0,
            request.gas == config.gas.gas_limit,
            request.max_fee_per_gas == config.gas.max_fee_per_gas,
            request.max_priority_fee_per_gas == config.gas.max_priority_fee_per_gas,
            request.chain_id == Some(chain_id),
    {
        TransactionRequest {
            from: self.wallet.address,
            to,
            data: calldata,
            value: U256::zero(),
            gas: config.gas.gas_limit,
            max_fee_per_gas: config.gas.max_fee_per_gas,
            max_priority_fee_per_gas: config.gas.max_priority_fee_per_gas,
            chain_id: Some(chain_id),
        }
    }
}

} // verus!
