//! The settings that the buyer runs under, and the rules they must meet.

use vstd::prelude::*;

use crate::models::private_keys::KeyRing;
use crate::types::{
    checked_add, exceeds, is_secret_scalar, padded32, pow256, Address, SecretKey, U256,
};

verus! {

/// The chain that is traded on and the endpoints that serve it.
pub struct NetworkConfig {
    pub providers: Vec<String>,
    pub chain_token_address: Address,
    pub currency: String,
    pub token: String,
}

/// What to buy, for whom, and by which method.
pub struct BuyConfig {
    pub purchase_token_address: Address,
    pub liquidity_token_address: Address,
    pub dev_wallet_address: Address,
    pub rounds: u8,
    pub snipers: usize,
    pub pre_approve: bool,
    pub pre_sign: bool,
    pub method: u8,
    pub use_txid: bool,
    pub id_salt: String,
    pub approve_to: String,
    pub include_caller: bool,
    pub use_buybot_checks: bool,
    pub check_sellability: bool,
    pub max_buy_tax: u64,
    pub max_sell_tax: u64,
}

/// Gas settings of one kind of transaction, fees in base units.
pub struct GasConfig {
    pub gas_limit: U256,
    pub max_fee_per_gas: U256,
    pub max_priority_fee_per_gas: U256,
}

/// A run of gas fees from zero upwards in equal steps, up to a bound. The
/// lower end `from` is kept as configured and not consulted.
pub struct GasStepsConfig {
    pub from: U256,
    pub to: U256,
    pub step: U256,
    pub current: U256,
}

impl GasStepsConfig {
    /// A run that starts at zero.
    pub fn new(from: U256, to: U256, step: U256) -> (steps: GasStepsConfig)
        ensures
            steps.from == from,
            steps.to == to,
            steps.step == step,
            steps.current@ == 0,
    {
        GasStepsConfig { from, to, step, current: U256::zero() }
    }

    /// The next fee of the run, which then moves on by one step; nothing,
    /// and no move, once the next fee is above the bound.
    pub fn next(&mut self) -> (fee: Option<U256>)
        requires
            old(self).current@ <= old(self).to@ ==> old(self).current@ + old(self).step@
                < pow256(),
        ensures
            final(self).from == old(self).from,
            final(self).to == old(self).to,
            final(self).step == old(self).step,
            old(self).current@ > old(self).to@ ==> fee.is_none() && final(self).current == old(self).current,
            old(self).current@ <= old(self).to@ ==> fee == Some(old(self).current) && final(self).current@ == old(self).current@ + old(self).step@,
    {
        if exceeds(&self.current, &self.to) {
            None
        } else {
            let fee = self.current;
            match checked_add(&self.current, &self.step) {
                Some(sum) => {
                    self.current = sum;
                },
                None => {},
            }
            Some(fee)
        }
    }
}

/// What share of a holding is sold.
pub struct SellConfig {
    pub sell_percentage: u64,
}

/// Which calls of the token's developer are acted on.
pub struct DevActionConfig {
    pub action: String,
    pub dev_action_ids: Vec<[u8; 4]>,
    pub dev_action_ignored_ids: Vec<[u8; 4]>,
}

/// How transactions with unusually high gas are treated.
pub struct HighGasTxConfig {
    pub enabled: bool,
    pub send_with_first_worker_only: bool,
}

/// When a withdrawal of liquidity counts as a rug pull.
pub struct AntiRugPullConfig {
    pub enabled: bool,
    pub min_purchase_token_pull_percentage: u64,
}

/// Whether blacklisting is watched for.
pub struct AntiBlacklistConfig {
    pub enabled: bool,
}

/// Which calls count as toxic and which as harmless.
pub struct AntiToxicConfig {
    pub enabled: bool,
    pub toxic_ids: Vec<[u8; 4]>,
    pub non_toxic_ids: Vec<[u8; 4]>,
}

/// How much more than the cost of a buy a wallet has to hold.
pub struct BalanceCheckMultiplierConfig {
    pub enabled: bool,
    pub balance_multiplier: u8,
    pub priority_and_fee_modifier_in_gwei: u8,
}

/// At which gain a holding is sold.
pub struct SellOnPercentageGainConfig {
    pub enabled: bool,
    pub gain_percentage: u64,
}

/// Above which gas price a transaction counts as hostile.
pub struct SkemGweiConfig {
    pub enabled: bool,
    pub limit: u64,
}

/// The fees that transactions are signed for ahead of time.
pub struct PregenConfig {
    pub max_priority_fee_per_gas: GasStepsConfig,
}

/// The checks that guard a holding.
pub struct CheckConfig {
    pub high_gas_tx: HighGasTxConfig,
    pub anti_rug_pull: AntiRugPullConfig,
    pub anti_blacklist: AntiBlacklistConfig,
    pub anti_toxic: AntiToxicConfig,
    pub balance_check_multiplier: BalanceCheckMultiplierConfig,
    pub sell_on_percentage_gain: SellOnPercentageGainConfig,
    pub skem_gwei: SkemGweiConfig,
    pub purchase_token_enabled: bool,
    pub pregen: PregenConfig,
}

/// A relay that takes bundles, with the headers to send along.
pub struct Endpoint {
    pub endpoint: String,
    pub headers: Option<Vec<(String, String)>>,
}

/// Whether and where bundles are sent.
pub struct MevConfig {
    pub enabled: bool,
    pub simulate: bool,
    pub endpoints: Vec<Endpoint>,
}

/// The settings as a whole. Amounts that are configured as decimal
/// fractions are not part of it: they reach the library in base units.
pub struct Config {
    pub use_single_chain_for_all_workers: bool,
    pub websocket_polling_ms: u64,
    pub loop_delay_ms: u64,
    pub eip1559: bool,
    pub workers: usize,
    pub network: NetworkConfig,
    pub mev: MevConfig,
    pub bot_contract_address: Address,
    pub dex_router_address: Address,
    pub buy: BuyConfig,
    pub gas: GasConfig,
    pub approve_gas: GasConfig,
    pub stop_after_first_fail: bool,
    pub sell: SellConfig,
    pub dev_action: DevActionConfig,
    pub check: CheckConfig,
    pub blocks_delay_before_first_buy: u8,
}

/// The larger of two counts.
pub open spec fn max_count(a: int, b: int) -> int {
    if a >= b {
        a
    } else {
        b
    }
}

impl Config {
    /// How many keys sign approvals: one per worker or one per sniper,
    /// whichever is more.
    pub open spec fn approve_snipers(&self) -> int {
        max_count(self.workers as int, self.buy.snipers as int)
    }

    /// How many keys sign approvals: one per worker or one per sniper,
    /// whichever is more.
    pub fn get_approve_snipers(&self) -> (count: usize)
        ensures
            count == self.approve_snipers(),
    {
        if self.workers >= self.buy.snipers {
            self.workers
        } else {
            self.buy.snipers
        }
    }
}

/// The value of a hexadecimal digit, in either case.
pub open spec fn hex_digit(c: u8) -> Option<u8> {
    if 0x30 <= c <= 0x39 {
        Some((c - 0x30) as u8)
    } else if 0x41 <= c <= 0x46 {
        Some((c - 0x41 + 10) as u8)
    } else if 0x61 <= c <= 0x66 {
        Some((c - 0x61 + 10) as u8)
    } else {
        None
    }
}

/// Whether a text is an even number of hexadecimal digits.
pub open spec fn is_hex(text: Seq<u8>) -> bool {
    text.len() % 2 == 0 && forall|i: int| 0 <= i < text.len() ==> hex_digit(#[trigger] text[i]).is_some()
}

/// The bytes that a text of hexadecimal digits spells, two digits to the
/// byte, the high one first.
pub open spec fn hex_decoded(text: Seq<u8>) -> Seq<u8> {
    Seq::new(
        text.len() / 2,
        |i: int| (hex_digit(text[2 * i]).unwrap() * 16 + hex_digit(text[2 * i + 1]).unwrap()) as u8,
    )
}

/// `hex::decode`: a text is decoded exactly if it is an even number of
/// hexadecimal digits, to the bytes that it spells.
#[verifier::external_body]
fn hex_decode(text: &[u8]) -> (bytes: Option<Vec<u8>>)
    ensures
        bytes.is_some() == is_hex(text@),
        bytes.is_some() ==> bytes.unwrap()@ == hex_decoded(text@),
{
    hex::decode(text).ok()
}

/// A text without any `0x` in front of it, however many there are.
pub open spec fn without_prefix(text: Seq<u8>) -> Seq<u8>
    decreases text.len(),
{
    if text.len() >= 2 && text[0] == 0x30 && text[1] == 0x78 {
        without_prefix(text.skip(2))
    } else {
        text
    }
}

/// The text behind every leading `0x`.
fn strip_prefix(text: &[u8]) -> (rest: &[u8])
    ensures
        rest@ == without_prefix(text@),
{
    let n = text.len();
    let mut start: usize = 0;
    assert(text@.skip(0) =~= text@);
    while n - start >= 2 && text[start] == 0x30 && text[start + 1] == 0x78
        invariant
            start <= n,
            n == text@.len(),
            without_prefix(text@) == without_prefix(text@.skip(start as int)),
        decreases n - start,
    {
        proof {
            assert(text@.skip(start as int).skip(2) =~= text@.skip(start + 2));
        }
        start = start + 2;
    }
    let rest = vstd::slice::slice_subrange(text, start, n);
    assert(rest@ =~= text@.skip(start as int));
    rest
}

/// What is wrong with an encoded key.
#[derive(Clone, Copy, Debug, PartialEq, Eq, Structural)]
pub enum KeyFault {
    /// It is not an even number of hexadecimal digits.
    Hex,
    /// Its bytes are no secret key.
    Key,
}

/// Why no key ring could be read.
#[derive(Clone, Copy, Debug, PartialEq, Eq, Structural)]
pub enum KeysError {
    /// The entry at this position is at fault; those before it are not.
    Entry(usize, KeyFault),
    /// The list holds no key at all.
    Empty,
}

/// What is wrong with an encoded key, if anything.
pub open spec fn key_fault(text: Seq<u8>) -> Option<KeyFault> {
    if !is_hex(without_prefix(text)) {
        Some(KeyFault::Hex)
    } else if !is_secret_scalar(hex_decoded(without_prefix(text))) {
        Some(KeyFault::Key)
    } else {
        None
    }
}

/// The 32 bytes of the key that a faultless text encodes.
pub open spec fn decoded_key(text: Seq<u8>) -> Seq<u8> {
    padded32(hex_decoded(without_prefix(text)))
}

/// The bytes of a string.
pub open spec fn text_of(entry: String) -> Seq<u8> {
    vstd::utf8::encode_utf8(entry@)
}

/// Reads one key from its text: hexadecimal digits, with or without `0x`
/// in front.
fn parse_key(text: &[u8]) -> (key: Result<SecretKey, KeyFault>)
    ensures
        match key {
            Ok(key) => key_fault(text@).is_none() && key.bytes() == decoded_key(text@),
            Err(fault) => key_fault(text@) == Some(fault),
        },
{
    let digits = strip_prefix(text);
    let bytes = match hex_decode(digits) {
        Some(bytes) => bytes,
        None => { return Err(KeyFault::Hex); },
    };
    match SecretKey::from_slice(bytes.as_slice()) {
        Some(key) => Ok(key),
        None => Err(KeyFault::Key),
    }
}

/// The key file as it is read: the encoded keys, in order.
pub struct Keys {
    pub private_keys: Vec<String>,
}

/// Reads the key ring from the encoded keys of the key file, in their
/// order. The first entry at fault stops the reading, and a file without
/// entries is refused: a ring holds at least one key.
pub fn get_private_keys(keys: &Keys) -> (result: Result<KeyRing, KeysError>)
    ensures
        ({
            let encoded = keys.private_keys;
            match result {
            Ok(ring) => {
                &&& encoded@.len() > 0
                &&& ring@.len() == encoded@.len()
                &&& forall|i: int|
                    0 <= i < encoded@.len() ==> key_fault(text_of(#[trigger] encoded@[i])).is_none()
                        && ring@[i].bytes() == decoded_key(text_of(encoded@[i]))
            },
            Err(KeysError::Entry(at, fault)) => {
                &&& at < encoded@.len()
                &&& key_fault(text_of(encoded@[at as int])) == Some(fault)
                &&& forall|i: int| 0 <= i < at ==> key_fault(text_of(#[trigger] encoded@[i])).is_none()
            },
            Err(KeysError::Empty) => encoded@.len() == 0,
            }
        }),
{
    let encoded = &keys.private_keys;
    let mut ring: Vec<SecretKey> = Vec::new();
    let mut i: usize = 0;
    while i < encoded.len()
        invariant
            *encoded == keys.private_keys,
            i <= encoded@.len(),
            ring@.len() == i,
            forall|j: int|
                0 <= j < i ==> key_fault(text_of(#[trigger] encoded@[j])).is_none() && ring@[j].bytes()
                    == decoded_key(text_of(encoded@[j])),
        decreases encoded@.len() - i,
    {
        let text = encoded[i].as_str().as_bytes();
        match parse_key(text) {
            Ok(key) => ring.push(key),
            Err(fault) => { return Err(KeysError::Entry(i, fault)); },
        }
        i = i + 1;
    }
    match KeyRing::new(ring) {
        Some(ring) => Ok(ring),
        None => Err(KeysError::Empty),
    }
}

/// What is wrong with an encoded function selector.
#[derive(Clone, Copy, Debug, PartialEq, Eq, Structural)]
pub enum SignatureFault {
    /// It is not an even number of hexadecimal digits.
    Hex,
    /// It does not spell four bytes.
    Length,
}

/// What is wrong with an encoded function selector, if anything.
pub open spec fn signature_fault(text: Seq<u8>) -> Option<SignatureFault> {
    if !is_hex(without_prefix(text)) {
        Some(SignatureFault::Hex)
    } else if hex_decoded(without_prefix(text)).len() != 4 {
        Some(SignatureFault::Length)
    } else {
        None
    }
}

/// Reads function selectors from their texts, in order: eight hexadecimal
/// digits each, with or without `0x` in front. The first entry at fault
/// stops the reading and is named with its position.
pub fn parse_signatures(encoded: &Vec<String>) -> (result: Result<Vec<[u8; 4]>, (usize, SignatureFault)>)
    ensures
        match result {
            Ok(selectors) => {
                &&& selectors@.len() == encoded@.len()
                &&& forall|i: int|
                    0 <= i < encoded@.len() ==> signature_fault(
                        text_of(#[trigger] encoded@[i]),
                    ).is_none() && selectors@[i]@ == hex_decoded(
                        without_prefix(text_of(encoded@[i])),
                    )
            },
            Err((at, fault)) => {
                &&& at < encoded@.len()
                &&& signature_fault(text_of(encoded@[at as int])) == Some(fault)
                &&& forall|i: int|
                    0 <= i < at ==> signature_fault(text_of(#[trigger] encoded@[i])).is_none()
            },
        },
{
    let mut selectors: Vec<[u8; 4]> = Vec::new();
    let mut i: usize = 0;
    while i < encoded.len()
        invariant
            i <= encoded@.len(),
            selectors@.len() == i,
            forall|j: int|
                0 <= j < i ==> signature_fault(text_of(#[trigger] encoded@[j])).is_none()
                    && selectors@[j]@ == hex_decoded(without_prefix(text_of(encoded@[j]))),
        decreases encoded@.len() - i,
    {
        let digits = strip_prefix(encoded[i].as_str().as_bytes());
        let bytes = match hex_decode(digits) {
            Some(bytes) => bytes,
            None => { return Err((i, SignatureFault::Hex)); },
        };
        if bytes.len() != 4 {
            return Err((i, SignatureFault::Length));
        }
        let selector: [u8; 4] = [bytes[0], bytes[1], bytes[2], bytes[3]];
        assert(selector@ =~= bytes@);
        selectors.push(selector);
        i = i + 1;
    }
    Ok(selectors)
}

/// Why a configuration cannot be run.
#[derive(Clone, Copy, Debug, PartialEq, Eq, Structural)]
pub enum ConfigError {
    /// There are fewer keys than workers.
    NotEnoughKeys { keys: usize, workers: usize },
    /// Buying by share of the total supply, with a share of zero.
    ZeroShareOfSupply,
}

/// The buy method that buys a share of the total supply.
pub const METHOD_SHARE_OF_SUPPLY: u8 = 1;

/// What keeps a configuration from being run, if anything: first too few
/// keys, then a zero share under the method that buys by share.
pub open spec fn config_fault(config: Config, keys: nat, share_of_supply_is_zero: bool) -> Option<
    ConfigError,
> {
    if keys < config.workers {
        Some(ConfigError::NotEnoughKeys { keys: keys as usize, workers: config.workers })
    } else if share_of_supply_is_zero && config.buy.method == METHOD_SHARE_OF_SUPPLY {
        Some(ConfigError::ZeroShareOfSupply)
    } else {
        None
    }
}

/// Admits a configuration that was read, or says why it cannot be run.
pub fn get_config(config: Config, private_keys: &KeyRing, share_of_supply_is_zero: bool) -> (result:
    Result<Config, ConfigError>)
    ensures
        match result {
            Ok(admitted) => admitted == config && config_fault(
                config,
                private_keys@.len(),
                share_of_supply_is_zero,
            ).is_none(),
            Err(error) => config_fault(config, private_keys@.len(), share_of_supply_is_zero)
                == Some(error),
        },
{
    let keys = private_keys.len();
    if keys < config.workers {
        Err(ConfigError::NotEnoughKeys { keys, workers: config.workers })
    } else if share_of_supply_is_zero && config.buy.method == METHOD_SHARE_OF_SUPPLY {
        Err(ConfigError::ZeroShareOfSupply)
    } else {
        Ok(config)
    }
}

} // verus!
