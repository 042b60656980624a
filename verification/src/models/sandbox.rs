//! The simulation sandbox: how it is seeded from fetched chain state, what
//! it then holds, and the slot that keeps the one sandbox of the process.

use vstd::prelude::*;

use crate::config::Config;
use crate::models::emulator::{
    account_code_len, accounts_with, cached_accounts, cached_contracts, cached_storage,
    carried_code_len, contracts_with, fresh_accounts, fresh_contracts, fresh_storage,
    holds_account, insert_account_info, insert_account_storage, keccak256, new_sandbox,
    recorded_hash, storage_slot, AccountMark, CacheState, CachedAccount,
    Sandbox,
};
use crate::models::private_keys::KeyRing;
use crate::types::{Address, SecretKey, U256};
use crate::utils::key_to_address::{address_of_key, private_key_to_address};

verus! {

/// How many storage slots are copied for each account: slots 0 to 10.
pub const SEEDED_SLOTS: usize = 11;

/// Live state fetched for one account: balance, nonce, code and the first
/// storage slots, slot `i` at position `i`.
pub struct SandboxAccount {
    pub address: Address,
    pub balance: U256,
    pub nonce: u64,
    pub code: Vec<u8>,
    pub storage: [U256; 11],
}

/// Live state fetched for one contract: its code.
pub struct SandboxContract {
    pub address: Address,
    pub code: Vec<u8>,
}

/// The storage after the first `count` slots of `account` were written.
pub open spec fn storage_with_slots(
    storage: Map<(Seq<u8>, nat), nat>,
    account: SandboxAccount,
    count: nat,
) -> Map<(Seq<u8>, nat), nat>
    decreases count,
{
    if count == 0 {
        storage
    } else {
        storage_with_slots(storage, account, (count - 1) as nat).insert(
            (account.address.bytes@, (count - 1) as nat),
            account.storage@[count - 1]@,
        )
    }
}

/// The state after one account was copied in: its balance, nonce and code,
/// then its slots 0 to 10.
pub open spec fn state_with_account(state: CacheState, account: SandboxAccount) -> CacheState {
    CacheState {
        accounts: accounts_with(
            state.accounts,
            account.address.bytes@,
            account.balance@,
            account.nonce as nat,
            account.code@,
            keccak256(account.code@),
        ),
        storage: storage_with_slots(state.storage, account, SEEDED_SLOTS as nat),
        contracts: contracts_with(state.contracts, account.code@, keccak256(account.code@)),
    }
}

/// The state after the accounts were copied in, first to last.
pub open spec fn state_with_accounts(state: CacheState, accounts: Seq<SandboxAccount>) -> CacheState
    decreases accounts.len(),
{
    if accounts.len() == 0 {
        state
    } else {
        state_with_account(state_with_accounts(state, accounts.drop_last()), accounts.last())
    }
}

/// The state after one contract was copied in: where its address holds no
/// account yet, an account with no funds and this code; otherwise nothing
/// changes.
pub open spec fn state_with_contract(state: CacheState, contract: SandboxContract) -> CacheState {
    if state.accounts.contains_key(contract.address.bytes@) {
        state
    } else {
        CacheState {
            accounts: accounts_with(
                state.accounts,
                contract.address.bytes@,
                0,
                0,
                contract.code@,
                keccak256(contract.code@),
            ),
            storage: state.storage,
            contracts: contracts_with(state.contracts, contract.code@, keccak256(contract.code@)),
        }
    }
}

/// The state after the contracts were copied in, first to last.
pub open spec fn state_with_contracts(state: CacheState, contracts: Seq<SandboxContract>) -> CacheState
    decreases contracts.len(),
{
    if contracts.len() == 0 {
        state
    } else {
        state_with_contract(state_with_contracts(state, contracts.drop_last()), contracts.last())
    }
}

/// The state of a fresh cache.
pub open spec fn fresh_state() -> CacheState {
    CacheState {
        accounts: fresh_accounts(),
        storage: fresh_storage(),
        contracts: fresh_contracts(),
    }
}

/// The state of a sandbox seeded with these accounts and then these
/// contracts.
pub open spec fn seeded_state(accounts: Seq<SandboxAccount>, contracts: Seq<SandboxContract>) -> CacheState {
    state_with_contracts(state_with_accounts(fresh_state(), accounts), contracts)
}

impl Sandbox {
    /// Whether the sandbox holds an account at `address`.
    pub fn holds(&self, address: &Address) -> (held: bool)
        ensures
            held == cached_accounts(*self).contains_key(address.bytes@),
    {
        holds_account(self, address)
    }

    /// The length of the code that the account at `address` carries, if
    /// the sandbox holds that account and it carries code.
    pub fn code_len(&self, address: &Address) -> (len: Option<usize>)
        ensures
            len.is_some() == carried_code_len(cached_accounts(*self), address.bytes@).is_some(),
            len.is_some() ==> len.unwrap() == carried_code_len(
                cached_accounts(*self),
                address.bytes@,
            ).unwrap(),
    {
        account_code_len(self, address)
    }

    /// The value of one storage slot of the account at `address`, if the
    /// sandbox holds that slot.
    pub fn storage_at(&self, address: &Address, slot: &U256) -> (value: Option<U256>)
        ensures
            value.is_some() == cached_storage(*self).contains_key((address.bytes@, slot@)),
            value.is_some() ==> value.unwrap()@ == cached_storage(*self)[(address.bytes@, slot@)],
    {
        storage_slot(self, address, slot)
    }

    /// Copies one account into the sandbox.
    fn seed_account(&mut self, account: &SandboxAccount)
        ensures
            final(self).state() == state_with_account(old(self).state(), *account),
    {
        insert_account_info(self, &account.address, &account.balance, account.nonce, &account.code);
        let ghost base = cached_storage(*self);
        let mut slot: usize = 0;
        while slot < SEEDED_SLOTS
            invariant
                slot <= SEEDED_SLOTS,
                cached_accounts(*self) == accounts_with(
                    cached_accounts(*old(self)),
                    account.address.bytes@,
                    account.balance@,
                    account.nonce as nat,
                    account.code@,
                    keccak256(account.code@),
                ),
                cached_contracts(*self) == contracts_with(
                    cached_contracts(*old(self)),
                    account.code@,
                    keccak256(account.code@),
                ),
                base == cached_storage(*old(self)),
                cached_storage(*self) == storage_with_slots(base, *account, slot as nat),
            decreases SEEDED_SLOTS - slot,
        {
            let number = U256::from_u64(slot as u64);
            insert_account_storage(self, &account.address, &number, &account.storage[slot]);
            slot = slot + 1;
        }
    }

    /// Copies one contract into the sandbox.
    fn seed_contract(&mut self, contract: &SandboxContract)
        ensures
            final(self).state() == state_with_contract(old(self).state(), *contract),
    {
        if !holds_account(self, &contract.address) {
            let nothing = U256::from_u64(0);
            insert_account_info(self, &contract.address, &nothing, 0, &contract.code);
        }
    }
}

/// Builds a sandbox that holds exactly what was fetched: every account
/// with its balance, nonce, code and slots 0 to 10, then the code of every
/// contract whose address holds no account yet.
pub fn build_sandbox(accounts: &Vec<SandboxAccount>, contracts: &Vec<SandboxContract>) -> (sandbox:
    Sandbox)
    ensures
        sandbox.state() == seeded_state(accounts@, contracts@),
{
    let mut sandbox = new_sandbox();
    let mut i: usize = 0;
    while i < accounts.len()
        invariant
            i <= accounts.len(),
            sandbox.state() == state_with_accounts(fresh_state(), accounts@.take(i as int)),
        decreases accounts.len() - i,
    {
        sandbox.seed_account(&accounts[i]);
        proof {
            assert(accounts@.take(i + 1).drop_last() == accounts@.take(i as int));
        }
        i = i + 1;
    }
    proof {
        assert(accounts@.take(i as int) == accounts@);
    }
    let mut j: usize = 0;
    while j < contracts.len()
        invariant
            j <= contracts.len(),
            sandbox.state() == state_with_contracts(
                state_with_accounts(fresh_state(), accounts@),
                contracts@.take(j as int),
            ),
        decreases contracts.len() - j,
    {
        sandbox.seed_contract(&contracts[j]);
        proof {
            assert(contracts@.take(j + 1).drop_last() == contracts@.take(j as int));
        }
        j = j + 1;
    }
    proof {
        assert(contracts@.take(j as int) == contracts@);
    }
    sandbox
}

/// What a sandbox records of an account that it was seeded with.
pub open spec fn seeded_record(account: SandboxAccount) -> CachedAccount {
    CachedAccount {
        balance: account.balance@,
        nonce: account.nonce as nat,
        code_hash: recorded_hash(account.code@, keccak256(account.code@)),
        code: Some(account.code@),
        mark: AccountMark::Untouched,
    }
}

/// What a sandbox records of a contract that it was seeded with: its code
/// and no funds.
pub open spec fn seeded_contract_record(contract: SandboxContract) -> CachedAccount {
    CachedAccount {
        balance: 0,
        nonce: 0,
        code_hash: recorded_hash(contract.code@, keccak256(contract.code@)),
        code: Some(contract.code@),
        mark: AccountMark::Untouched,
    }
}

/// Whether `address` is the address of one of the accounts.
pub open spec fn is_account_address(accounts: Seq<SandboxAccount>, address: Seq<u8>) -> bool {
    exists|i: int| 0 <= i < accounts.len() && #[trigger] accounts[i].address.bytes@ == address
}

/// Whether `address` is the address of one of the contracts.
pub open spec fn is_contract_address(contracts: Seq<SandboxContract>, address: Seq<u8>) -> bool {
    exists|j: int| 0 <= j < contracts.len() && #[trigger] contracts[j].address.bytes@ == address
}

/// Whether no later entry of the list has the address of entry `i`.
pub open spec fn is_last_entry(accounts: Seq<SandboxAccount>, i: int) -> bool {
    forall|j: int| i < j < accounts.len() ==> #[trigger] accounts[j].address.bytes@ != accounts[i].address.bytes@
}

/// Whether no earlier entry of the list has the address of entry `j`.
pub open spec fn is_first_entry(contracts: Seq<SandboxContract>, j: int) -> bool {
    forall|i: int| 0 <= i < j ==> #[trigger] contracts[i].address.bytes@ != contracts[j].address.bytes@
}

/// Writing the first `count` slots of an account sets each of them.
proof fn lemma_slot_written(
    storage: Map<(Seq<u8>, nat), nat>,
    account: SandboxAccount,
    count: nat,
    k: nat,
)
    requires
        k < count <= 11,
    ensures
        storage_with_slots(storage, account, count).contains_key((account.address.bytes@, k)),
        storage_with_slots(storage, account, count)[(account.address.bytes@, k)]
            == account.storage@[k as int]@,
    decreases count,
{
    if k < count - 1 {
        lemma_slot_written(storage, account, (count - 1) as nat, k);
    }
}

/// Writing the first `count` slots of an account touches no other slot.
proof fn lemma_slot_kept(
    storage: Map<(Seq<u8>, nat), nat>,
    account: SandboxAccount,
    count: nat,
    key: (Seq<u8>, nat),
)
    requires
        !(key.0 == account.address.bytes@ && key.1 < count),
    ensures
        storage_with_slots(storage, account, count).contains_key(key) == storage.contains_key(key),
        storage_with_slots(storage, account, count)[key] == storage[key],
    decreases count,
{
    if count > 0 {
        lemma_slot_kept(storage, account, (count - 1) as nat, key);
    }
}

/// Seeding accounts into a fresh cache leaves an account at exactly the
/// addresses that were seeded, each unmarked.
proof fn lemma_account_domain(accounts: Seq<SandboxAccount>, address: Seq<u8>)
    ensures
        state_with_accounts(fresh_state(), accounts).accounts.contains_key(address)
            == is_account_address(accounts, address),
        is_account_address(accounts, address) ==> state_with_accounts(
            fresh_state(),
            accounts,
        ).accounts[address].mark == AccountMark::Untouched,
    decreases accounts.len(),
{
    if accounts.len() > 0 {
        let front = accounts.drop_last();
        lemma_account_domain(front, address);
        if is_account_address(front, address) {
            let i = choose|i: int| 0 <= i < front.len() && #[trigger] front[i].address.bytes@ == address;
            assert(accounts[i].address.bytes@ == address);
        }
        if accounts.last().address.bytes@ == address {
            assert(accounts[accounts.len() - 1].address.bytes@ == address);
        }
        if is_account_address(accounts, address) && address != accounts.last().address.bytes@ {
            let i = choose|i: int|
                0 <= i < accounts.len() && #[trigger] accounts[i].address.bytes@ == address;
            assert(front[i].address.bytes@ == address);
        }
    }
}

/// An entry that is the last of its address in a list is so in the list
/// without its last entry, unless it is that entry.
proof fn lemma_last_entry_in_front(accounts: Seq<SandboxAccount>, i: int)
    requires
        0 <= i < accounts.len() - 1,
        is_last_entry(accounts, i),
    ensures
        is_last_entry(accounts.drop_last(), i),
        accounts.drop_last()[i] == accounts[i],
        accounts.last().address.bytes@ != accounts[i].address.bytes@,
{
    let front = accounts.drop_last();
    assert(accounts[accounts.len() - 1].address.bytes@ != accounts[i].address.bytes@);
    assert forall|j: int| i < j < front.len() implies #[trigger] front[j].address.bytes@
        != front[i].address.bytes@ by {
        assert(accounts[j].address.bytes@ != accounts[i].address.bytes@);
    }
}

/// Seeding accounts into a fresh cache leaves, for the last entry of each
/// address, that entry's record.
proof fn lemma_account_record(accounts: Seq<SandboxAccount>, i: int)
    requires
        0 <= i < accounts.len(),
        is_last_entry(accounts, i),
    ensures
        state_with_accounts(fresh_state(), accounts).accounts[accounts[i].address.bytes@]
            == seeded_record(accounts[i]),
    decreases accounts.len(),
{
    let front = accounts.drop_last();
    if i < accounts.len() - 1 {
        lemma_last_entry_in_front(accounts, i);
        lemma_account_record(front, i);
    } else {
        lemma_account_domain(front, accounts[i].address.bytes@);
    }
}

/// Seeding accounts into a fresh cache leaves, for the last entry of each
/// address, that entry's slots 0 to 10.
proof fn lemma_account_slot(accounts: Seq<SandboxAccount>, i: int, k: nat)
    requires
        0 <= i < accounts.len(),
        is_last_entry(accounts, i),
        k < 11,
    ensures
        state_with_accounts(fresh_state(), accounts).storage.contains_key(
            (accounts[i].address.bytes@, k),
        ),
        state_with_accounts(fresh_state(), accounts).storage[(accounts[i].address.bytes@, k)]
            == accounts[i].storage@[k as int]@,
    decreases accounts.len(),
{
    let front = accounts.drop_last();
    let before = state_with_accounts(fresh_state(), front);
    if i < accounts.len() - 1 {
        lemma_last_entry_in_front(accounts, i);
        lemma_account_slot(front, i, k);
        lemma_slot_kept(before.storage, accounts.last(), 11, (accounts[i].address.bytes@, k));
    } else {
        lemma_slot_written(before.storage, accounts.last(), 11, k);
    }
}

/// Seeding accounts into a fresh cache leaves storage only at seeded
/// addresses and only in slots 0 to 10.
proof fn lemma_storage_domain(accounts: Seq<SandboxAccount>, key: (Seq<u8>, nat))
    requires
        state_with_accounts(fresh_state(), accounts).storage.contains_key(key),
    ensures
        key.1 < 11,
        is_account_address(accounts, key.0),
    decreases accounts.len(),
{
    if accounts.len() > 0 {
        let front = accounts.drop_last();
        let before = state_with_accounts(fresh_state(), front);
        if key.0 == accounts.last().address.bytes@ && key.1 < 11 {
            assert(accounts[accounts.len() - 1].address.bytes@ == key.0);
        } else {
            lemma_slot_kept(before.storage, accounts.last(), 11, key);
            lemma_storage_domain(front, key);
            let i = choose|i: int| 0 <= i < front.len() && #[trigger] front[i].address.bytes@ == key.0;
            assert(accounts[i].address.bytes@ == key.0);
        }
    }
}

/// Seeding contracts leaves the storage as it was, keeps every account
/// that was there, and adds an account at every contract address besides.
proof fn lemma_contract_domain(state: CacheState, contracts: Seq<SandboxContract>, address: Seq<u8>)
    ensures
        state_with_contracts(state, contracts).storage == state.storage,
        state_with_contracts(state, contracts).accounts.contains_key(address) == (
        state.accounts.contains_key(address) || is_contract_address(contracts, address)),
        state.accounts.contains_key(address) ==> state_with_contracts(
            state,
            contracts,
        ).accounts[address] == state.accounts[address],
    decreases contracts.len(),
{
    if contracts.len() > 0 {
        let front = contracts.drop_last();
        lemma_contract_domain(state, front, address);
        lemma_contract_domain(state, front, contracts.last().address.bytes@);
        if is_contract_address(front, address) {
            let j = choose|j: int| 0 <= j < front.len() && #[trigger] front[j].address.bytes@ == address;
            assert(contracts[j].address.bytes@ == address);
        }
        if contracts.last().address.bytes@ == address {
            assert(contracts[contracts.len() - 1].address.bytes@ == address);
        }
        if is_contract_address(contracts, address) && address != contracts.last().address.bytes@ {
            let j = choose|j: int|
                0 <= j < contracts.len() && #[trigger] contracts[j].address.bytes@ == address;
            assert(front[j].address.bytes@ == address);
        }
    }
}

/// Seeding contracts leaves, for the first entry of each address that held
/// no account, that entry's record.
proof fn lemma_contract_record(state: CacheState, contracts: Seq<SandboxContract>, j: int)
    requires
        0 <= j < contracts.len(),
        is_first_entry(contracts, j),
        !state.accounts.contains_key(contracts[j].address.bytes@),
    ensures
        state_with_contracts(state, contracts).accounts[contracts[j].address.bytes@]
            == seeded_contract_record(contracts[j]),
    decreases contracts.len(),
{
    let front = contracts.drop_last();
    let address = contracts[j].address.bytes@;
    lemma_contract_domain(state, front, address);
    lemma_contract_domain(state, front, contracts.last().address.bytes@);
    if j < contracts.len() - 1 {
        assert(front[j] == contracts[j]);
        assert forall|i: int| 0 <= i < j implies #[trigger] front[i].address.bytes@
            != front[j].address.bytes@ by {
            assert(contracts[i].address.bytes@ != contracts[j].address.bytes@);
        }
        lemma_contract_record(state, front, j);
        assert(is_contract_address(front, address));
    } else {
        if is_contract_address(front, address) {
            let i = choose|i: int| 0 <= i < front.len() && #[trigger] front[i].address.bytes@ == address;
            assert(contracts[i].address.bytes@ != contracts[j].address.bytes@);
        }
    }
}

/// A seeded sandbox holds an account at exactly the addresses that it was
/// seeded with, accounts and contracts.
pub proof fn lemma_seeded_addresses(
    accounts: Seq<SandboxAccount>,
    contracts: Seq<SandboxContract>,
    address: Seq<u8>,
)
    ensures
        seeded_state(accounts, contracts).accounts.contains_key(address) == (is_account_address(
            accounts,
            address,
        ) || is_contract_address(contracts, address)),
{
    lemma_account_domain(accounts, address);
    lemma_contract_domain(state_with_accounts(fresh_state(), accounts), contracts, address);
}

/// A seeded sandbox holds storage at no address but the accounts', and in
/// no slot above 10.
pub proof fn lemma_seeded_slots(
    accounts: Seq<SandboxAccount>,
    contracts: Seq<SandboxContract>,
    address: Seq<u8>,
    slot: nat,
)
    requires
        seeded_state(accounts, contracts).storage.contains_key((address, slot)),
    ensures
        slot < 11,
        is_account_address(accounts, address),
{
    lemma_contract_domain(state_with_accounts(fresh_state(), accounts), contracts, address);
    lemma_storage_domain(accounts, (address, slot));
}

/// A seeded sandbox holds of every account what was fetched for it:
/// balance, nonce and code. Of an address that was fetched more than once,
/// this holds of the last entry.
pub proof fn lemma_seeded_account(
    accounts: Seq<SandboxAccount>,
    contracts: Seq<SandboxContract>,
    i: int,
)
    requires
        0 <= i < accounts.len(),
        is_last_entry(accounts, i),
    ensures
        seeded_state(accounts, contracts).accounts.contains_key(accounts[i].address.bytes@),
        seeded_state(accounts, contracts).accounts[accounts[i].address.bytes@] == seeded_record(
            accounts[i],
        ),
{
    let address = accounts[i].address.bytes@;
    lemma_account_domain(accounts, address);
    lemma_account_record(accounts, i);
    lemma_contract_domain(state_with_accounts(fresh_state(), accounts), contracts, address);
}

/// A seeded sandbox holds of every account the slots 0 to 10 that were
/// fetched for it. Of an address that was fetched more than once, this
/// holds of the last entry.
pub proof fn lemma_seeded_storage(
    accounts: Seq<SandboxAccount>,
    contracts: Seq<SandboxContract>,
    i: int,
    slot: nat,
)
    requires
        0 <= i < accounts.len(),
        is_last_entry(accounts, i),
        slot < 11,
    ensures
        seeded_state(accounts, contracts).storage.contains_key((accounts[i].address.bytes@, slot)),
        seeded_state(accounts, contracts).storage[(accounts[i].address.bytes@, slot)]
            == accounts[i].storage@[slot as int]@,
{
    lemma_account_slot(accounts, i, slot);
    lemma_contract_domain(
        state_with_accounts(fresh_state(), accounts),
        contracts,
        accounts[i].address.bytes@,
    );
}

/// A seeded sandbox holds the code of every contract at the contract's
/// address, with no funds, unless that address is an account's, whose
/// record then stands. Of an address that was fetched more than once, this
/// holds of the first entry.
pub proof fn lemma_seeded_contract(
    accounts: Seq<SandboxAccount>,
    contracts: Seq<SandboxContract>,
    j: int,
)
    requires
        0 <= j < contracts.len(),
        is_first_entry(contracts, j),
        !is_account_address(accounts, contracts[j].address.bytes@),
    ensures
        seeded_state(accounts, contracts).accounts.contains_key(contracts[j].address.bytes@),
        seeded_state(accounts, contracts).accounts[contracts[j].address.bytes@]
            == seeded_contract_record(contracts[j]),
{
    let address = contracts[j].address.bytes@;
    let state = state_with_accounts(fresh_state(), accounts);
    lemma_account_domain(accounts, address);
    lemma_contract_domain(state, contracts, address);
    lemma_contract_record(state, contracts, j);
    assert(is_contract_address(contracts, address));
}

/// The addresses whose live state a sandbox is seeded with.
pub struct SeedTargets {
    /// Fetched with balance, nonce, code and slots 0 to 10.
    pub accounts: Vec<Address>,
    /// Fetched with code only.
    pub contracts: Vec<Address>,
}

/// The bytes of each address of a list.
pub open spec fn address_bytes(addresses: Seq<Address>) -> Seq<Seq<u8>> {
    Seq::new(addresses.len(), |i: int| addresses[i].bytes@)
}

/// The accounts of interest: the account of every key of the ring, in the
/// ring's order, then the developer's wallet.
pub open spec fn accounts_of_interest(keys: Seq<SecretKey>, dev_wallet: Address) -> Seq<Seq<u8>> {
    Seq::new(keys.len(), |i: int| address_of_key(keys[i].bytes())).push(dev_wallet.bytes@)
}

/// The contracts of interest: factory, router, bot contract, purchase
/// token and liquidity token, then the chain's own token where it is not
/// the liquidity token.
pub open spec fn contracts_of_interest(config: Config, factory: Address) -> Seq<Address> {
    let fixed = seq![
        factory,
        config.dex_router_address,
        config.bot_contract_address,
        config.buy.purchase_token_address,
        config.buy.liquidity_token_address,
    ];
    if config.network.chain_token_address != config.buy.liquidity_token_address {
        fixed.push(config.network.chain_token_address)
    } else {
        fixed
    }
}

/// Lists what one buy attempt touches: the accounts and the contracts that
/// a sandbox is seeded with.
pub fn seed_targets(private_keys: &KeyRing, config: &Config, factory_address: Address) -> (targets:
    SeedTargets)
    ensures
        address_bytes(targets.accounts@) == accounts_of_interest(
            private_keys@,
            config.buy.dev_wallet_address,
        ),
        targets.contracts@ == contracts_of_interest(*config, factory_address),
{
    let n = private_keys.len();
    let mut accounts: Vec<Address> = Vec::new();
    let mut i: usize = 0;
    while i < n
        invariant
            n == private_keys@.len(),
            i <= n,
            accounts@.len() == i,
            forall|j: int|
                0 <= j < i ==> accounts@[j].bytes@ == address_of_key(private_keys@[j].bytes()),
        decreases n - i,
    {
        let key = private_keys.key(i);
        accounts.push(private_key_to_address(&key));
        i = i + 1;
    }
    accounts.push(config.buy.dev_wallet_address);
    assert(address_bytes(accounts@) =~= accounts_of_interest(
        private_keys@,
        config.buy.dev_wallet_address,
    ));
    let mut contracts: Vec<Address> = Vec::new();
    contracts.push(factory_address);
    contracts.push(config.dex_router_address);
    contracts.push(config.bot_contract_address);
    contracts.push(config.buy.purchase_token_address);
    contracts.push(config.buy.liquidity_token_address);
    if !config.network.chain_token_address.same(&config.buy.liquidity_token_address) {
        contracts.push(config.network.chain_token_address);
    }
    assert(contracts@ =~= contracts_of_interest(*config, factory_address));
    SeedTargets { accounts, contracts }
}

/// What is fetched from the chain to seed a sandbox.
pub struct SeedData {
    pub accounts: Vec<SandboxAccount>,
    pub contracts: Vec<SandboxContract>,
}

/// A query of the seeding that the chain did not answer.
#[derive(Clone, Copy, Debug, PartialEq, Eq)]
pub struct SeedError {
    /// The address that was asked about.
    pub address: Address,
}

/// What a caller that wants the sandbox has to do.
#[derive(Clone, Copy, Debug, PartialEq, Eq, Structural)]
pub enum SandboxAction {
    /// The sandbox is built: use it and fetch nothing.
    Reuse,
    /// No sandbox is built: fetch the accounts and contracts of interest
    /// and hand them in.
    Seed,
}

/// The slot that holds the one sandbox of the process once it is built.
pub struct SandboxCell {
    sandbox: Option<Sandbox>,
}

/// What is decided for a caller that finds the slot in this state.
pub open spec fn action_of(cell: SandboxCell) -> SandboxAction {
    if cell.sandbox().is_some() {
        SandboxAction::Reuse
    } else {
        SandboxAction::Seed
    }
}

/// Whether handing `fetched` in to the slot `before` leaves the slot
/// `after`. A sandbox that is built stays as it is, whatever is handed in.
/// Else a failed fetch leaves the slot empty, and fetched data becomes the
/// sandbox, whole.
pub open spec fn seeding_step(before: SandboxCell, fetched: Result<SeedData, SeedError>, after: SandboxCell) -> bool {
    if before.sandbox().is_some() {
        after.sandbox() == before.sandbox()
    } else {
        match fetched {
            Ok(data) => after.sandbox().is_some() && after.sandbox().unwrap().state()
                == seeded_state(data.accounts@, data.contracts@),
            Err(error) => after.sandbox().is_none(),
        }
    }
}

impl SandboxCell {
    /// The sandbox, if it is built.
    pub closed spec fn sandbox(&self) -> Option<Sandbox> {
        self.sandbox
    }

    /// A slot without a sandbox.
    pub fn new() -> (cell: SandboxCell)
        ensures
            cell.sandbox().is_none(),
    {
        SandboxCell { sandbox: None }
    }

    /// The sandbox, if it is built.
    pub fn get(&self) -> (sandbox: Option<&Sandbox>)
        ensures
            sandbox.is_some() == self.sandbox().is_some(),
            sandbox.is_some() ==> *sandbox.unwrap() == self.sandbox().unwrap(),
    {
        self.sandbox.as_ref()
    }

    /// Takes the sandbox out, for the time of one simulation.
    pub(crate) fn take(&mut self) -> (sandbox: Option<Sandbox>)
        ensures
            sandbox == old(self).sandbox(),
            final(self).sandbox().is_none(),
    {
        self.sandbox.take()
    }

    /// Puts the sandbox back.
    pub(crate) fn put(&mut self, sandbox: Sandbox)
        ensures
            final(self).sandbox() == Some(sandbox),
    {
        self.sandbox = Some(sandbox);
    }

    /// Takes in what a caller fetched for seeding, or the query that
    /// failed, and reports that failure back if it left the slot empty.
    pub fn sandbox_seeded(&mut self, fetched: Result<SeedData, SeedError>) -> (result: Result<
        (),
        SeedError,
    >)
        ensures
            seeding_step(*old(self), fetched, *final(self)),
            result == match fetched {
                Err(error) if old(self).sandbox().is_none() => Err::<(), SeedError>(error),
                _ => Ok::<(), SeedError>(()),
            },
    {
        if self.sandbox.is_some() {
            return Ok(());
        }
        match fetched {
            Ok(data) => {
                self.sandbox = Some(build_sandbox(&data.accounts, &data.contracts));
                Ok(())
            },
            Err(error) => Err(error),
        }
    }
}

/// Decides how a caller gets the sandbox: the one that is built, with no
/// fetch at all, or else by seeding.
pub fn get_evm_client(cell: &SandboxCell) -> (action: SandboxAction)
    ensures
        action == action_of(*cell),
{
    if cell.sandbox.is_some() {
        SandboxAction::Reuse
    } else {
        SandboxAction::Seed
    }
}

/// Building twice from the same fetched data builds once: after the first
/// hand-in the decision is to reuse and fetch nothing, and a second
/// hand-in leaves the very sandbox that the first one built.
pub proof fn lemma_second_build_is_noop(
    empty: SandboxCell,
    data: SeedData,
    first: SandboxCell,
    second: SandboxCell,
)
    requires
        seeding_step(empty, Ok(data), first),
        seeding_step(first, Ok(data), second),
    ensures
        action_of(first) == SandboxAction::Reuse,
        second.sandbox() == first.sandbox(),
{
}

} // verus!
