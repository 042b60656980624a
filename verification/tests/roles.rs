use sniper_core::config::{
    AntiBlacklistConfig, AntiRugPullConfig, AntiToxicConfig, BalanceCheckMultiplierConfig,
    BuyConfig, CheckConfig, Config, DevActionConfig, GasConfig, GasStepsConfig, HighGasTxConfig,
    MevConfig, NetworkConfig, PregenConfig, SellConfig, SellOnPercentageGainConfig,
    SkemGweiConfig,
};
use sniper_core::models::private_keys::{KeyRing, PrivateKeys, PrivateKeysOptions};
use sniper_core::types::{Address, SecretKey, U256};

fn key(n: u8) -> SecretKey {
    let mut bytes = [0u8; 32];
    bytes[31] = n;
    SecretKey::from_slice(&bytes).unwrap()
}

fn ring(n: u8) -> KeyRing {
    KeyRing::new((1..=n).map(key).collect()).unwrap()
}

fn zero_address() -> Address {
    Address { bytes: [0u8; 20] }
}

fn gas() -> GasConfig {
    GasConfig {
        gas_limit: U256::zero(),
        max_fee_per_gas: U256::zero(),
        max_priority_fee_per_gas: U256::zero(),
    }
}

fn mev() -> MevConfig {
    MevConfig { enabled: false, simulate: false, endpoints: vec![] }
}

fn dev_action() -> DevActionConfig {
    DevActionConfig { action: String::new(), dev_action_ids: vec![], dev_action_ignored_ids: vec![] }
}

fn check() -> CheckConfig {
    CheckConfig {
        high_gas_tx: HighGasTxConfig { enabled: false, send_with_first_worker_only: false },
        anti_rug_pull: AntiRugPullConfig {
            enabled: false,
            min_purchase_token_pull_percentage: 0,
        },
        anti_blacklist: AntiBlacklistConfig { enabled: false },
        anti_toxic: AntiToxicConfig { enabled: false, toxic_ids: vec![], non_toxic_ids: vec![] },
        balance_check_multiplier: BalanceCheckMultiplierConfig {
            enabled: false,
            balance_multiplier: 0,
            priority_and_fee_modifier_in_gwei: 0,
        },
        sell_on_percentage_gain: SellOnPercentageGainConfig { enabled: false, gain_percentage: 0 },
        skem_gwei: SkemGweiConfig { enabled: false, limit: 0 },
        purchase_token_enabled: false,
        pregen: PregenConfig {
            max_priority_fee_per_gas: GasStepsConfig::new(
                U256::zero(),
                U256::zero(),
                U256::zero(),
            ),
        },
    }
}

fn config(workers: usize, snipers: usize, include_caller: bool) -> Config {
    Config {
        use_single_chain_for_all_workers: true,
        websocket_polling_ms: 0,
        loop_delay_ms: 0,
        eip1559: true,
        workers,
        mev: mev(),
        sell: SellConfig { sell_percentage: 100 },
        dev_action: dev_action(),
        check: check(),
        network: NetworkConfig {
            providers: vec![],
            chain_token_address: zero_address(),
            currency: String::new(),
            token: String::new(),
        },
        bot_contract_address: zero_address(),
        dex_router_address: zero_address(),
        buy: BuyConfig {
            purchase_token_address: zero_address(),
            liquidity_token_address: zero_address(),
            dev_wallet_address: zero_address(),
            rounds: 1,
            snipers,
            pre_approve: false,
            pre_sign: false,
            method: 0,
            use_txid: false,
            id_salt: String::new(),
            approve_to: String::new(),
            include_caller,
            use_buybot_checks: false,
            check_sellability: false,
            max_buy_tax: 0,
            max_sell_tax: 0,
        },
        gas: gas(),
        approve_gas: gas(),
        stop_after_first_fail: false,
        blocks_delay_before_first_buy: 0,
    }
}

fn roles(n: u8, rotate: usize, workers: usize, snipers: usize, include_caller: bool) -> PrivateKeys {
    PrivateKeys::new(PrivateKeysOptions { rotate }, &ring(n), &config(workers, snipers, include_caller))
}

fn keys(numbers: &[u8]) -> Vec<SecretKey> {
    numbers.iter().map(|n| key(*n)).collect()
}

#[test]
fn five_keys_two_workers_three_snipers_with_caller() {
    let assigned = roles(5, 0, 2, 3, true);
    assert!(assigned.sender_key == key(1));
    assert!(assigned.recipient_keys == keys(&[1, 2, 3]));
    assert!(assigned.approve_sniper_keys == keys(&[1, 2, 3]));
}

#[test]
fn caller_left_out_drops_the_sender_from_the_recipients() {
    let assigned = roles(5, 0, 2, 3, false);
    assert!(assigned.sender_key == key(1));
    assert!(assigned.recipient_keys == keys(&[2, 3, 4]));
    assert!(assigned.approve_sniper_keys == keys(&[1, 2, 3]));
}

#[test]
fn recipients_are_capped_by_the_ring_without_the_sender() {
    for n in 1..=6u8 {
        for rotate in 0..8usize {
            for snipers in 0..=7usize {
                let assigned = roles(n, rotate, 1, snipers, false);
                let expected = snipers.min(n as usize - 1);
                assert_eq!(assigned.recipient_keys.len(), expected);
                assert!(!assigned.recipient_keys.contains(&assigned.sender_key));
            }
        }
    }
}

#[test]
fn approve_signers_count_workers_or_snipers_and_hold_the_sender() {
    for rotate in 0..7usize {
        for workers in 0..=6usize {
            for snipers in 0..=6usize {
                let assigned = roles(6, rotate, workers, snipers, true);
                let expected = workers.max(snipers);
                assert_eq!(assigned.approve_sniper_keys.len(), expected);
                if expected >= 1 {
                    assert!(assigned.approve_sniper_keys.contains(&assigned.sender_key));
                    assert!(assigned.approve_sniper_keys[0] == assigned.sender_key);
                }
            }
        }
    }
}

#[test]
fn approve_signers_stop_at_the_end_of_the_ring() {
    let assigned = roles(2, 0, 1, 5, true);
    assert!(assigned.approve_sniper_keys == keys(&[1, 2]));
    assert!(assigned.recipient_keys == keys(&[1, 2]));
}

#[test]
fn no_snipers_means_no_recipients() {
    let assigned = roles(4, 1, 2, 0, true);
    assert!(assigned.sender_key == key(2));
    assert!(assigned.recipient_keys.is_empty());
    assert!(assigned.approve_sniper_keys == keys(&[2, 3]));
    let without_caller = roles(4, 1, 2, 0, false);
    assert!(without_caller.recipient_keys.is_empty());
}

#[test]
fn rotation_turns_the_ring_left_and_wraps() {
    let assigned = roles(5, 3, 2, 3, true);
    assert!(assigned.sender_key == key(4));
    assert!(assigned.recipient_keys == keys(&[4, 5, 1]));
    assert!(assigned.approve_sniper_keys == keys(&[4, 5, 1]));
    // A full turn and more is counted round the ring.
    let full_turn = roles(5, 5, 2, 3, true);
    assert!(full_turn.sender_key == key(1));
    let more = roles(5, 13, 2, 2, false);
    assert!(more.sender_key == key(4));
    assert!(more.recipient_keys == keys(&[5, 1]));
}

#[test]
fn ring_of_one_key_sends_and_signs_alone() {
    let assigned = roles(1, 0, 1, 3, false);
    assert!(assigned.sender_key == key(1));
    assert!(assigned.recipient_keys.is_empty());
    assert!(assigned.approve_sniper_keys == keys(&[1]));
}

#[test]
fn ring_needs_a_key() {
    assert!(KeyRing::new(Vec::new()).is_none());
    let one = KeyRing::new(vec![key(9)]).unwrap();
    assert_eq!(one.len(), 1);
    assert!(one.key(0) == key(9));
}

#[test]
fn approve_count_is_the_larger_of_workers_and_snipers() {
    assert_eq!(config(2, 3, true).get_approve_snipers(), 3);
    assert_eq!(config(4, 3, true).get_approve_snipers(), 4);
    assert_eq!(config(3, 3, false).get_approve_snipers(), 3);
    assert_eq!(config(0, 0, false).get_approve_snipers(), 0);
}
