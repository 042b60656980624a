//! One worker: everything that a buy attempt needs, resolved once.

use vstd::prelude::*;

use crate::config::Config;
use crate::models::buybot::BuyBot;
use crate::models::ierc20_token::{IERC20Token, IERC20TokenOptions};
use crate::models::private_keys::{
    approve_signers_of, recipients_of, sender_of, take_window, KeyRing, PrivateKeys,
    PrivateKeysOptions,
};
use crate::models::router::Router;
use crate::models::snipers::{are_wallets_of, Snipers, SnipersOptions};
use crate::models::wallet::{is_wallet_of, BlazingWallet};
use crate::types::Address;

verus! {

/// What a worker has to learn from the chain, each answer present unless
/// its lookup failed.
pub struct WorkerLookups {
    pub factory_address: Option<Address>,
    pub chain_id: Option<u64>,
    pub chain_token_decimals: Option<u8>,
    pub liquidity_token_decimals: Option<u8>,
    pub purchase_token_decimals: Option<u8>,
}

/// The lookup that kept a worker from being made.
#[derive(Clone, Copy, Debug, PartialEq, Eq, Structural)]
pub enum WorkerError {
    Factory,
    ChainId,
    ChainTokenDecimals,
    LiquidityTokenDecimals,
    PurchaseTokenDecimals,
}

/// The first lookup that failed, in the order in which a worker needs them.
pub open spec fn first_failure(lookups: WorkerLookups) -> Option<WorkerError> {
    if lookups.factory_address.is_none() {
        Some(WorkerError::Factory)
    } else if lookups.chain_id.is_none() {
        Some(WorkerError::ChainId)
    } else if lookups.chain_token_decimals.is_none() {
        Some(WorkerError::ChainTokenDecimals)
    } else if lookups.liquidity_token_decimals.is_none() {
        Some(WorkerError::LiquidityTokenDecimals)
    } else if lookups.purchase_token_decimals.is_none() {
        Some(WorkerError::PurchaseTokenDecimals)
    } else {
        None
    }
}

/// A worker with all it needs for one buy attempt.
pub struct Worker {
    pub private_keys: PrivateKeys,
    pub wallet: BlazingWallet,
    pub snipers: Snipers,
    pub buy_bot: BuyBot,
    pub router: Router,
    pub chain_token: IERC20Token,
    pub liquidity_token: IERC20Token,
    pub purchase_token: IERC20Token,
}

impl Worker {
    /// Whether this worker is the one that `config`, the key ring and the
    /// answers of the chain determine: roles read off the unrotated ring, a
    /// wallet for the sender and for every sniper key, all bound to the
    /// chain id, and the router, the bot contract and the three tokens as
    /// configured and as the chain described them.
    pub open spec fn is_made_of(self, config: Config, ring: Seq<crate::types::SecretKey>, lookups: WorkerLookups) -> bool {
        &&& first_failure(lookups).is_none()
        &&& self.private_keys.sender_key == sender_of(ring, 0)
        &&& self.private_keys.recipient_keys@ == recipients_of(
            ring,
            0,
            config.buy.snipers as nat,
            config.buy.include_caller,
        )
        &&& self.private_keys.approve_sniper_keys@ == approve_signers_of(
            ring,
            0,
            config.approve_snipers() as nat,
        )
        &&& is_wallet_of(self.wallet, self.private_keys.sender_key, lookups.chain_id.unwrap())
        &&& are_wallets_of(
            self.snipers.recipients@,
            self.private_keys.recipient_keys@,
            lookups.chain_id.unwrap(),
        )
        &&& are_wallets_of(
            self.snipers.approve_snipers@,
            self.private_keys.approve_sniper_keys@,
            lookups.chain_id.unwrap(),
        )
        &&& self.buy_bot.address == config.bot_contract_address
        &&& self.router.address == config.dex_router_address
        &&& self.router.factory_address == lookups.factory_address.unwrap()
        &&& self.chain_token.address == config.network.chain_token_address
        &&& self.chain_token.decimals == lookups.chain_token_decimals.unwrap()
        &&& self.liquidity_token.address == config.buy.liquidity_token_address
        &&& self.liquidity_token.decimals == lookups.liquidity_token_decimals.unwrap()
        &&& self.purchase_token.address == config.buy.purchase_token_address
        &&& self.purchase_token.decimals == lookups.purchase_token_decimals.unwrap()
    }

    /// Makes the worker for a single-worker run, or names the first lookup
    /// that failed. A worker is made whole or not at all.
    pub fn new(config: &Config, ring: &KeyRing, lookups: WorkerLookups) -> (result: Result<
        Worker,
        WorkerError,
    >)
        ensures
            match result {
                Ok(worker) => worker.is_made_of(*config, ring@, lookups),
                Err(error) => first_failure(lookups) == Some(error),
            },
    {
        let factory_address = match lookups.factory_address {
            Some(address) => address,
            None => { return Err(WorkerError::Factory); },
        };
        let chain_id = match lookups.chain_id {
            Some(id) => id,
            None => { return Err(WorkerError::ChainId); },
        };
        let chain_token_decimals = match lookups.chain_token_decimals {
            Some(decimals) => decimals,
            None => { return Err(WorkerError::ChainTokenDecimals); },
        };
        let liquidity_token_decimals = match lookups.liquidity_token_decimals {
            Some(decimals) => decimals,
            None => { return Err(WorkerError::LiquidityTokenDecimals); },
        };
        let purchase_token_decimals = match lookups.purchase_token_decimals {
            Some(decimals) => decimals,
            None => { return Err(WorkerError::PurchaseTokenDecimals); },
        };
        let private_keys = PrivateKeys::new(PrivateKeysOptions { rotate: 0 }, ring, config);
        let router = Router::new(config, factory_address);
        let wallet = BlazingWallet::new(private_keys.sender_key, chain_id);
        let recipient_keys = take_window(
            &private_keys.recipient_keys,
            0,
            private_keys.recipient_keys.len(),
        );
        let approve_sniper_keys = take_window(
            &private_keys.approve_sniper_keys,
            0,
            private_keys.approve_sniper_keys.len(),
        );
        assert(recipient_keys@ =~= private_keys.recipient_keys@);
        assert(approve_sniper_keys@ =~= private_keys.approve_sniper_keys@);
        let snipers = Snipers::new(SnipersOptions { recipient_keys, approve_sniper_keys }, chain_id);
        Ok(
            Worker {
                private_keys,
                wallet,
                snipers,
                buy_bot: BuyBot::new(config),
                router,
                chain_token: IERC20Token::new(
                    IERC20TokenOptions { contract_address: config.network.chain_token_address },
                    chain_token_decimals,
                ),
                liquidity_token: IERC20Token::new(
                    IERC20TokenOptions { contract_address: config.buy.liquidity_token_address },
                    liquidity_token_decimals,
                ),
                purchase_token: IERC20Token::new(
                    IERC20TokenOptions { contract_address: config.buy.purchase_token_address },
                    purchase_token_decimals,
                ),
            },
        )
    }
}

} // verus!
