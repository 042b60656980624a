use sniper_core::actions::get_buy_transaction::BuyAmounts;
use sniper_core::config::{
    AntiBlacklistConfig, AntiRugPullConfig, AntiToxicConfig, BalanceCheckMultiplierConfig,
    BuyConfig, CheckConfig, Config, DevActionConfig, GasConfig, GasStepsConfig, HighGasTxConfig,
    MevConfig, NetworkConfig, PregenConfig, SellConfig, SellOnPercentageGainConfig,
    SkemGweiConfig,
};
use sniper_core::models::private_keys::KeyRing;
use sniper_core::models::sandbox::seed_targets;
use sniper_core::models::snipers::{Snipers, SnipersOptions};
use sniper_core::types::{Address, SecretKey, U256};
use sniper_core::utils::key_to_address::private_key_to_address;
use sniper_core::worker::{Worker, WorkerError, WorkerLookups};

fn key(n: u8) -> SecretKey {
    let mut bytes = [0u8; 32];
    bytes[31] = n;
    SecretKey::from_slice(&bytes).unwrap()
}

fn ring(n: u8) -> KeyRing {
    KeyRing::new((1..=n).map(key).collect()).unwrap()
}

fn address(last: u8) -> Address {
    let mut bytes = [0x22u8; 20];
    bytes[19] = last;
    Address { bytes }
}

fn mev() -> MevConfig {
    MevConfig { enabled: false, simulate: false, endpoints: vec![] }
}

fn dev_action() -> DevActionConfig {
    DevActionConfig { action: String::new(), dev_action_ids: vec![], dev_action_ignored_ids: vec![] }
}

fn check() -> CheckConfig {
    CheckConfig {
        high_gas_tx: HighGasTxConfig { enabled: false, send_with_first_worker_only: false },
        anti_rug_pull: AntiRugPullConfig {
            enabled: false,
            min_purchase_token_pull_percentage: 0,
        },
        anti_blacklist: AntiBlacklistConfig { enabled: false },
        anti_toxic: AntiToxicConfig { enabled: false, toxic_ids: vec![], non_toxic_ids: vec![] },
        balance_check_multiplier: BalanceCheckMultiplierConfig {
            enabled: false,
            balance_multiplier: 0,
            priority_and_fee_modifier_in_gwei: 0,
        },
        sell_on_percentage_gain: SellOnPercentageGainConfig { enabled: false, gain_percentage: 0 },
        skem_gwei: SkemGweiConfig { enabled: false, limit: 0 },
        purchase_token_enabled: false,
        pregen: PregenConfig {
            max_priority_fee_per_gas: GasStepsConfig::new(
                U256::zero(),
                U256::zero(),
                U256::zero(),
            ),
        },
    }
}

fn config() -> Config {
    Config {
        use_single_chain_for_all_workers: true,
        websocket_polling_ms: 100,
        loop_delay_ms: 10,
        eip1559: true,
        workers: 2,
        mev: mev(),
        sell: SellConfig { sell_percentage: 100 },
        dev_action: dev_action(),
        check: check(),
        network: NetworkConfig {
            providers: vec!["ws://a".to_string()],
            chain_token_address: address(1),
            currency: "ETH".to_string(),
            token: "WETH".to_string(),
        },
        bot_contract_address: address(2),
        dex_router_address: address(3),
        buy: BuyConfig {
            purchase_token_address: address(4),
            liquidity_token_address: address(5),
            dev_wallet_address: address(6),
            rounds: 1,
            snipers: 3,
            pre_approve: false,
            pre_sign: false,
            method: 2,
            use_txid: false,
            id_salt: String::new(),
            approve_to: String::new(),
            include_caller: false,
            use_buybot_checks: true,
            check_sellability: false,
            max_buy_tax: 0,
            max_sell_tax: 0,
        },
        gas: GasConfig {
            gas_limit: U256::from_u64(500_000),
            max_fee_per_gas: U256::from_u64(30),
            max_priority_fee_per_gas: U256::from_u64(2),
        },
        approve_gas: GasConfig {
            gas_limit: U256::zero(),
            max_fee_per_gas: U256::zero(),
            max_priority_fee_per_gas: U256::zero(),
        },
        stop_after_first_fail: false,
        blocks_delay_before_first_buy: 0,
    }
}

fn lookups() -> WorkerLookups {
    WorkerLookups {
        factory_address: Some(address(7)),
        chain_id: Some(56),
        chain_token_decimals: Some(18),
        liquidity_token_decimals: Some(6),
        purchase_token_decimals: Some(9),
    }
}

#[test]
fn worker_is_made_of_what_was_configured_and_resolved() {
    let worker = Worker::new(&config(), &ring(5), lookups()).ok().unwrap();
    assert!(worker.private_keys.sender_key == key(1));
    assert!(worker.private_keys.recipient_keys == vec![key(2), key(3), key(4)]);
    assert!(worker.private_keys.approve_sniper_keys == vec![key(1), key(2), key(3)]);
    assert!(worker.wallet.private_key == key(1));
    assert_eq!(worker.wallet.address, private_key_to_address(&key(1)));
    assert_eq!(worker.wallet.chain_id, 56);
    assert_eq!(worker.snipers.recipients.len(), 3);
    assert_eq!(worker.snipers.recipients[2].address, private_key_to_address(&key(4)));
    assert_eq!(worker.snipers.recipients[2].chain_id, 56);
    assert_eq!(worker.snipers.approve_snipers.len(), 3);
    assert!(worker.snipers.approve_snipers[0].private_key == key(1));
    assert_eq!(worker.buy_bot.address, address(2));
    assert_eq!(worker.router.address, address(3));
    assert_eq!(worker.router.factory_address, address(7));
    assert_eq!(worker.chain_token.address, address(1));
    assert_eq!(worker.chain_token.decimals, 18);
    assert_eq!(worker.liquidity_token.address, address(5));
    assert_eq!(worker.liquidity_token.decimals, 6);
    assert_eq!(worker.purchase_token.address, address(4));
    assert_eq!(worker.purchase_token.decimals, 9);
}

#[test]
fn first_failed_lookup_keeps_the_worker_from_being_made() {
    let mut missing = lookups();
    missing.purchase_token_decimals = None;
    assert_eq!(
        Worker::new(&config(), &ring(5), missing).err(),
        Some(WorkerError::PurchaseTokenDecimals)
    );
    let mut missing = lookups();
    missing.liquidity_token_decimals = None;
    missing.purchase_token_decimals = None;
    assert_eq!(
        Worker::new(&config(), &ring(5), missing).err(),
        Some(WorkerError::LiquidityTokenDecimals)
    );
    let mut missing = lookups();
    missing.chain_token_decimals = None;
    assert_eq!(
        Worker::new(&config(), &ring(5), missing).err(),
        Some(WorkerError::ChainTokenDecimals)
    );
    let mut missing = lookups();
    missing.chain_id = None;
    missing.chain_token_decimals = None;
    assert_eq!(Worker::new(&config(), &ring(5), missing).err(), Some(WorkerError::ChainId));
    let nothing = WorkerLookups {
        factory_address: None,
        chain_id: None,
        chain_token_decimals: None,
        liquidity_token_decimals: None,
        purchase_token_decimals: None,
    };
    assert_eq!(Worker::new(&config(), &ring(5), nothing).err(), Some(WorkerError::Factory));
}

#[test]
fn buy_transaction_carries_the_configured_call() {
    let worker = Worker::new(&config(), &ring(5), lookups()).ok().unwrap();
    let amounts = BuyAmounts {
        token_amount: U256::from_u64(1_000),
        chain_token_spend_limit: U256::from_u64(2_000),
        w_token_amount_for_buybot_tax_checks: U256::from_u64(3_000),
    };
    let transaction = worker.get_buy_transaction(&config(), &amounts);
    assert_eq!(transaction.to, address(2));
    assert_eq!(transaction.call.router_address, address(3));
    assert_eq!(transaction.call.purchase_token_address, address(4));
    assert_eq!(transaction.call.liquidity_token_address, address(5));
    assert_eq!(transaction.call.buy_method, 2);
    assert_eq!(
        transaction.call.buy_amounts,
        vec![U256::from_u64(1_000), U256::from_u64(2_000)]
    );
    assert_eq!(
        transaction.call.snipers,
        vec![
            private_key_to_address(&key(2)),
            private_key_to_address(&key(3)),
            private_key_to_address(&key(4)),
        ]
    );
    assert!(transaction.call.use_buybot_checks);
    assert!(!transaction.call.check_sellability);
    assert_eq!(transaction.call.w_token_amount_for_buybot_tax_checks, U256::from_u64(3_000));
    assert_eq!(transaction.call.taxes, vec![U256::zero(), U256 { limbs: [u64::MAX; 4] }]);
    assert_eq!(transaction.call.txid, U256::zero());
}

#[test]
fn buy_request_is_sent_from_the_wallet_under_the_configured_gas() {
    let worker = Worker::new(&config(), &ring(5), lookups()).ok().unwrap();
    let request = worker.buy_request(&config(), address(2), vec![0xde, 0xad], 56);
    assert_eq!(request.from, private_key_to_address(&key(1)));
    assert_eq!(request.to, address(2));
    assert_eq!(request.data, vec![0xde, 0xad]);
    assert_eq!(request.value, U256::zero());
    assert_eq!(request.gas, U256::from_u64(500_000));
    assert_eq!(request.max_fee_per_gas, U256::from_u64(30));
    assert_eq!(request.max_priority_fee_per_gas, U256::from_u64(2));
    assert_eq!(request.chain_id, Some(56));
}

#[test]
fn snipers_get_one_wallet_per_key() {
    let options = SnipersOptions {
        recipient_keys: vec![key(3), key(1)],
        approve_sniper_keys: vec![key(2)],
    };
    let snipers = Snipers::new(options, 5);
    assert_eq!(snipers.recipients.len(), 2);
    assert!(snipers.recipients[0].private_key == key(3));
    assert_eq!(snipers.recipients[0].address, private_key_to_address(&key(3)));
    assert!(snipers.recipients[1].private_key == key(1));
    assert_eq!(snipers.approve_snipers.len(), 1);
    assert_eq!(snipers.approve_snipers[0].address, private_key_to_address(&key(2)));
    assert_eq!(snipers.approve_snipers[0].chain_id, 5);
    let none = Snipers::new(
        SnipersOptions { recipient_keys: vec![], approve_sniper_keys: vec![] },
        5,
    );
    assert!(none.recipients.is_empty());
    assert!(none.approve_snipers.is_empty());
}

#[test]
fn seeding_targets_list_every_key_then_the_dev_wallet_and_the_contracts() {
    let targets = seed_targets(&ring(3), &config(), address(7));
    assert_eq!(
        targets.accounts,
        vec![
            private_key_to_address(&key(1)),
            private_key_to_address(&key(2)),
            private_key_to_address(&key(3)),
            address(6),
        ]
    );
    assert_eq!(
        targets.contracts,
        vec![address(7), address(3), address(2), address(4), address(5), address(1)]
    );
}

#[test]
fn chain_token_is_not_listed_twice_when_it_is_the_liquidity_token() {
    let mut same = config();
    same.network.chain_token_address = same.buy.liquidity_token_address;
    let targets = seed_targets(&ring(1), &same, address(7));
    assert_eq!(
        targets.contracts,
        vec![address(7), address(3), address(2), address(4), address(5)]
    );
    assert_eq!(targets.accounts.len(), 2);
}

#[test]
fn addresses_compare_by_their_bytes() {
    assert!(address(1).same(&address(1)));
    assert!(!address(1).same(&address(2)));
    let mut first_differs = address(1);
    first_differs.bytes[0] = 0;
    assert!(!address(1).same(&first_differs));
}
