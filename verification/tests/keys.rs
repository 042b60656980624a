use sniper_core::config::{
    get_config, get_private_keys, parse_signatures, AntiBlacklistConfig, AntiRugPullConfig,
    AntiToxicConfig, BalanceCheckMultiplierConfig, BuyConfig, CheckConfig, Config, ConfigError,
    DevActionConfig, GasConfig, GasStepsConfig, HighGasTxConfig, KeyFault, Keys, KeysError,
    MevConfig, NetworkConfig, PregenConfig, SellConfig, SellOnPercentageGainConfig,
    SignatureFault, SkemGweiConfig,
};
use sniper_core::models::private_keys::KeyRing;
use sniper_core::models::wallet::BlazingWallet;
use sniper_core::types::{Address, SecretKey, U256};
use sniper_core::utils::key_to_address::private_key_to_address;

const ORDER: [u8; 32] = [
    0xff, 0xff, 0xff, 0xff, 0xff, 0xff, 0xff, 0xff, 0xff, 0xff, 0xff, 0xff, 0xff, 0xff, 0xff, 0xfe,
    0xba, 0xae, 0xdc, 0xe6, 0xaf, 0x48, 0xa0, 0x3b, 0xbf, 0xd2, 0x5e, 0x8c, 0xd0, 0x36, 0x41, 0x41,
];

fn key(n: u8) -> SecretKey {
    let mut bytes = [0u8; 32];
    bytes[31] = n;
    SecretKey::from_slice(&bytes).unwrap()
}

fn address_from_hex(text: &str) -> Address {
    let bytes = hex::decode(text).unwrap();
    let mut address = [0u8; 20];
    address.copy_from_slice(&bytes);
    Address { bytes: address }
}

#[test]
fn key_one_controls_its_well_known_address() {
    let address = private_key_to_address(&key(1));
    assert_eq!(address, address_from_hex("7e5f4552091a69125d5dfcb7b8c2659029395bdf"));
}

#[test]
fn well_known_development_key_controls_its_address() {
    let text = "ac0974bec39a17e36ba4a6b4d238ff944bacb478cbed5efcae784d7bf4f2ff80";
    let secret = SecretKey::from_slice(&hex::decode(text).unwrap()).unwrap();
    let address = private_key_to_address(&secret);
    assert_eq!(address, address_from_hex("f39fd6e51aad88f6f4ce6ab8827279cfffb92266"));
}

#[test]
fn wallet_carries_key_address_and_chain() {
    let wallet = BlazingWallet::new(key(1), 56);
    assert!(wallet.private_key == key(1));
    assert_eq!(wallet.address, address_from_hex("7e5f4552091a69125d5dfcb7b8c2659029395bdf"));
    assert_eq!(wallet.chain_id, 56);
}

#[test]
fn zero_is_no_key() {
    assert!(SecretKey::from_slice(&[0u8; 32]).is_none());
    assert!(SecretKey::from_slice(&[0u8; 24]).is_none());
}

#[test]
fn group_order_is_no_key_but_its_predecessor_is() {
    assert!(SecretKey::from_slice(&ORDER).is_none());
    let mut below = ORDER;
    below[31] = 0x40;
    let secret = SecretKey::from_slice(&below).unwrap();
    assert_eq!(secret.to_bytes(), below);
    assert!(SecretKey::from_slice(&[0xffu8; 32]).is_none());
}

#[test]
fn keys_are_24_to_32_bytes() {
    assert!(SecretKey::from_slice(&[1u8; 23]).is_none());
    assert!(SecretKey::from_slice(&[1u8; 33]).is_none());
    assert!(SecretKey::from_slice(&[]).is_none());
    let short = SecretKey::from_slice(&[7u8; 24]).unwrap();
    let mut padded = [7u8; 32];
    for byte in padded.iter_mut().take(8) {
        *byte = 0;
    }
    assert_eq!(short.to_bytes(), padded);
    assert!(short == SecretKey::from_slice(&padded).unwrap());
}

fn strings(texts: &[&str]) -> Vec<String> {
    texts.iter().map(|text| text.to_string()).collect()
}

fn key_file(texts: &[&str]) -> Keys {
    Keys { private_keys: strings(texts) }
}

fn same_ring(ring: &KeyRing, expected: &[SecretKey]) -> bool {
    ring.len() == expected.len() && (0..expected.len()).all(|i| ring.key(i) == expected[i])
}

#[test]
fn key_file_entries_are_read_in_order_with_or_without_prefix() {
    let one = "0000000000000000000000000000000000000000000000000000000000000001";
    let two = "0x0000000000000000000000000000000000000000000000000000000000000002";
    let three = "0x0x00000000000000000000000000000000000000000000000000000000000000ff";
    let upper = "AC0974BEC39A17E36BA4A6B4D238FF944BACB478CBED5EFCAE784D7BF4F2FF80";
    let ring = get_private_keys(&key_file(&[one, two, three, upper])).ok().unwrap();
    let development = SecretKey::from_slice(&hex::decode(upper).unwrap()).unwrap();
    assert!(same_ring(&ring, &[key(1), key(2), key(255), development]));
}

#[test]
fn empty_key_file_is_refused() {
    assert_eq!(get_private_keys(&key_file(&[])).err(), Some(KeysError::Empty));
}

#[test]
fn first_faulty_entry_is_named() {
    let good = "0000000000000000000000000000000000000000000000000000000000000001";
    let odd = "0x123";
    let not_hex = "zz00000000000000000000000000000000000000000000000000000000000001";
    let zero = "0x0000000000000000000000000000000000000000000000000000000000000000";
    let short = "0x0102";
    assert_eq!(
        get_private_keys(&key_file(&[good, odd, zero])).err(),
        Some(KeysError::Entry(1, KeyFault::Hex))
    );
    assert_eq!(
        get_private_keys(&key_file(&[not_hex])).err(),
        Some(KeysError::Entry(0, KeyFault::Hex))
    );
    assert_eq!(
        get_private_keys(&key_file(&[good, good, zero, odd])).err(),
        Some(KeysError::Entry(2, KeyFault::Key))
    );
    assert_eq!(
        get_private_keys(&key_file(&[short])).err(),
        Some(KeysError::Entry(0, KeyFault::Key))
    );
    assert_eq!(get_private_keys(&key_file(&[""])).err(), Some(KeysError::Entry(0, KeyFault::Key)));
    assert_eq!(
        get_private_keys(&key_file(&["x0001"])).err(),
        Some(KeysError::Entry(0, KeyFault::Hex))
    );
}

fn zero_address() -> Address {
    Address { bytes: [0u8; 20] }
}

fn gas() -> GasConfig {
    GasConfig {
        gas_limit: U256::zero(),
        max_fee_per_gas: U256::zero(),
        max_priority_fee_per_gas: U256::zero(),
    }
}

fn mev() -> MevConfig {
    MevConfig { enabled: false, simulate: false, endpoints: vec![] }
}

fn dev_action() -> DevActionConfig {
    DevActionConfig { action: String::new(), dev_action_ids: vec![], dev_action_ignored_ids: vec![] }
}

fn check() -> CheckConfig {
    CheckConfig {
        high_gas_tx: HighGasTxConfig { enabled: false, send_with_first_worker_only: false },
        anti_rug_pull: AntiRugPullConfig {
            enabled: false,
            min_purchase_token_pull_percentage: 0,
        },
        anti_blacklist: AntiBlacklistConfig { enabled: false },
        anti_toxic: AntiToxicConfig { enabled: false, toxic_ids: vec![], non_toxic_ids: vec![] },
        balance_check_multiplier: BalanceCheckMultiplierConfig {
            enabled: false,
            balance_multiplier: 0,
            priority_and_fee_modifier_in_gwei: 0,
        },
        sell_on_percentage_gain: SellOnPercentageGainConfig { enabled: false, gain_percentage: 0 },
        skem_gwei: SkemGweiConfig { enabled: false, limit: 0 },
        purchase_token_enabled: false,
        pregen: PregenConfig {
            max_priority_fee_per_gas: GasStepsConfig::new(
                U256::zero(),
                U256::zero(),
                U256::zero(),
            ),
        },
    }
}

fn config(workers: usize, method: u8) -> Config {
    Config {
        use_single_chain_for_all_workers: true,
        websocket_polling_ms: 0,
        loop_delay_ms: 0,
        eip1559: true,
        workers,
        mev: mev(),
        sell: SellConfig { sell_percentage: 100 },
        dev_action: dev_action(),
        check: check(),
        network: NetworkConfig {
            providers: vec![],
            chain_token_address: zero_address(),
            currency: String::new(),
            token: String::new(),
        },
        bot_contract_address: zero_address(),
        dex_router_address: zero_address(),
        buy: BuyConfig {
            purchase_token_address: zero_address(),
            liquidity_token_address: zero_address(),
            dev_wallet_address: zero_address(),
            rounds: 1,
            snipers: 1,
            pre_approve: false,
            pre_sign: false,
            method,
            use_txid: false,
            id_salt: String::new(),
            approve_to: String::new(),
            include_caller: true,
            use_buybot_checks: false,
            check_sellability: false,
            max_buy_tax: 0,
            max_sell_tax: 0,
        },
        gas: gas(),
        approve_gas: gas(),
        stop_after_first_fail: false,
        blocks_delay_before_first_buy: 0,
    }
}

#[test]
fn configuration_needs_a_key_for_every_worker() {
    let ring = KeyRing::new(vec![key(1), key(2)]).unwrap();
    let refused = get_config(config(3, 0), &ring, false);
    assert_eq!(refused.err(), Some(ConfigError::NotEnoughKeys { keys: 2, workers: 3 }));
    let admitted = get_config(config(2, 0), &ring, false).ok().unwrap();
    assert_eq!(admitted.workers, 2);
    assert!(get_config(config(0, 0), &ring, false).is_ok());
}

#[test]
fn share_of_supply_must_not_be_zero_under_its_method() {
    let ring = KeyRing::new(vec![key(1), key(2)]).unwrap();
    assert_eq!(get_config(config(1, 1), &ring, true).err(), Some(ConfigError::ZeroShareOfSupply));
    assert!(get_config(config(1, 1), &ring, false).is_ok());
    assert!(get_config(config(1, 0), &ring, true).is_ok());
    assert!(get_config(config(1, 2), &ring, true).is_ok());
    // Too few keys is reported first.
    assert_eq!(
        get_config(config(5, 1), &ring, true).err(),
        Some(ConfigError::NotEnoughKeys { keys: 2, workers: 5 })
    );
}

#[test]
fn gas_steps_run_from_zero_to_the_bound() {
    let mut steps =
        GasStepsConfig::new(U256::from_u64(7), U256::from_u64(10), U256::from_u64(4));
    assert_eq!(steps.next(), Some(U256::from_u64(0)));
    assert_eq!(steps.next(), Some(U256::from_u64(4)));
    assert_eq!(steps.next(), Some(U256::from_u64(8)));
    assert_eq!(steps.current, U256::from_u64(12));
    assert_eq!(steps.next(), None);
    assert_eq!(steps.next(), None);
    assert_eq!(steps.current, U256::from_u64(12));
    assert_eq!(steps.from, U256::from_u64(7));
}

#[test]
fn gas_steps_include_the_bound_and_carry_across_limbs() {
    let mut steps =
        GasStepsConfig::new(U256::zero(), U256 { limbs: [0, 1, 0, 0] }, U256::from_u64(u64::MAX));
    assert_eq!(steps.next(), Some(U256::zero()));
    assert_eq!(steps.next(), Some(U256::from_u64(u64::MAX)));
    // 2 * (2^64 - 1) is above the bound of 2^64.
    assert_eq!(steps.current, U256 { limbs: [u64::MAX - 1, 1, 0, 0] });
    assert_eq!(steps.next(), None);
    let mut exact = GasStepsConfig::new(U256::zero(), U256::from_u64(6), U256::from_u64(3));
    assert_eq!(exact.next(), Some(U256::from_u64(0)));
    assert_eq!(exact.next(), Some(U256::from_u64(3)));
    assert_eq!(exact.next(), Some(U256::from_u64(6)));
    assert_eq!(exact.next(), None);
}

#[test]
fn function_selectors_are_four_bytes_of_hex() {
    let texts = strings(&["0xa9059cbb", "095EA7B3", "0x0x23b872dd"]);
    assert_eq!(
        parse_signatures(&texts),
        Ok(vec![[0xa9, 0x05, 0x9c, 0xbb], [0x09, 0x5e, 0xa7, 0xb3], [0x23, 0xb8, 0x72, 0xdd]])
    );
    assert_eq!(parse_signatures(&Vec::new()), Ok(vec![]));
    assert_eq!(
        parse_signatures(&strings(&["0xa9059cbb", "0xa9059c"])),
        Err((1, SignatureFault::Length))
    );
    assert_eq!(
        parse_signatures(&strings(&["0xa9059cbb00"])),
        Err((0, SignatureFault::Length))
    );
    assert_eq!(parse_signatures(&strings(&["0xa9059cb"])), Err((0, SignatureFault::Hex)));
    assert_eq!(
        parse_signatures(&strings(&["a9059cbb", "a9059cbg", "12"])),
        Err((1, SignatureFault::Hex))
    );
    assert_eq!(parse_signatures(&strings(&[""])), Err((0, SignatureFault::Length)));
}
