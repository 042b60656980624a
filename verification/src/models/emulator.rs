//! The emulator and its in-memory state cache: everything that is taken on
//! trust about them, in one place.

use revm::primitives::{AccountInfo, Bytecode, ExecutionResult, TransactTo, TxEnv, B160};
use vstd::prelude::*;

use crate::types::{Address, U256};

verus! {

/// An in-memory replica of selected chain state with the emulator that
/// runs on it: revm's `EVM` over a `CacheDB` on an `EmptyDB`. Nothing of it
/// is visible to the verifier: what it holds is told by
/// [`cached_accounts`], [`cached_storage`], [`cached_contracts`] and
/// [`pending_transaction`].
#[verifier::external_body]
pub struct Sandbox {
    evm: revm::EVM<revm::db::CacheDB<revm::db::EmptyDB>>,
}

/// How the cache has marked an account.
pub enum AccountMark {
    /// Known not to exist.
    NotExisting,
    /// Written by an executed transaction.
    Touched,
    /// Storage wiped by an executed transaction.
    StorageCleared,
    /// Inserted and not yet written by any transaction.
    Untouched,
}

/// What the cache holds of one account, storage aside.
pub struct CachedAccount {
    pub balance: nat,
    pub nonce: nat,
    pub code_hash: Seq<u8>,
    pub code: Option<Seq<u8>>,
    pub mark: AccountMark,
}

/// A transaction as the emulator runs it: every amount already narrowed to
/// 64 bits.
pub struct SimulatedTransaction {
    pub caller: Address,
    pub to: Address,
    pub data: Vec<u8>,
    pub value: u64,
    pub gas_limit: u64,
    pub gas_price: u64,
    pub gas_priority_fee: u64,
    pub nonce: u64,
    pub chain_id: u64,
}

/// The mathematical content of a [`SimulatedTransaction`].
pub struct TransactionView {
    pub caller: Seq<u8>,
    pub to: Seq<u8>,
    pub data: Seq<u8>,
    pub value: nat,
    pub gas_limit: nat,
    pub gas_price: nat,
    pub gas_priority_fee: nat,
    pub nonce: nat,
    pub chain_id: nat,
}

impl View for SimulatedTransaction {
    type V = TransactionView;

    open spec fn view(&self) -> TransactionView {
        TransactionView {
            caller: self.caller.bytes@,
            to: self.to.bytes@,
            data: self.data@,
            value: self.value as nat,
            gas_limit: self.gas_limit as nat,
            gas_price: self.gas_price as nat,
            gas_priority_fee: self.gas_priority_fee as nat,
            nonce: self.nonce as nat,
            chain_id: self.chain_id as nat,
        }
    }
}

/// One event that a successful execution emitted.
#[derive(Clone, Debug, PartialEq, Eq)]
pub struct Log {
    pub address: Address,
    pub topics: Vec<[u8; 32]>,
    pub data: Vec<u8>,
}

/// What the emulator reported of one transaction, in plain values.
#[derive(Clone, Debug, PartialEq, Eq)]
pub enum RawOutcome {
    /// Ran to completion; the events it emitted.
    Success { logs: Vec<Log> },
    /// Ended by a revert; the bytes it returned.
    Revert { output: Vec<u8> },
    /// Stopped exceptionally; the emulator's name for the cause.
    Halt { reason: String },
    /// Refused before execution; the emulator's name for the cause.
    Rejected { reason: String },
}

/// The mathematical content of a [`Log`].
pub struct LogView {
    pub address: Seq<u8>,
    pub topics: Seq<Seq<u8>>,
    pub data: Seq<u8>,
}

impl View for Log {
    type V = LogView;

    open spec fn view(&self) -> LogView {
        LogView {
            address: self.address.bytes@,
            topics: Seq::new(self.topics@.len(), |i: int| self.topics@[i]@),
            data: self.data@,
        }
    }
}

/// The mathematical content of a [`RawOutcome`].
pub enum RawOutcomeView {
    Success { logs: Seq<LogView> },
    Revert { output: Seq<u8> },
    Halt { reason: Seq<char> },
    Rejected { reason: Seq<char> },
}

impl View for RawOutcome {
    type V = RawOutcomeView;

    open spec fn view(&self) -> RawOutcomeView {
        match *self {
            RawOutcome::Success { logs } => RawOutcomeView::Success {
                logs: Seq::new(logs@.len(), |i: int| logs@[i]@),
            },
            RawOutcome::Revert { output } => RawOutcomeView::Revert { output: output@ },
            RawOutcome::Halt { reason } => RawOutcomeView::Halt { reason: reason@ },
            RawOutcome::Rejected { reason } => RawOutcomeView::Rejected { reason: reason@ },
        }
    }
}

/// The state of a cache, as three maps.
pub struct CacheState {
    pub accounts: Map<Seq<u8>, CachedAccount>,
    pub storage: Map<(Seq<u8>, nat), nat>,
    pub contracts: Map<Seq<u8>, Seq<u8>>,
}

/// What running one transaction on a cache gives: the report and the cache
/// after the changes were committed.
pub struct Transition {
    pub outcome: RawOutcomeView,
    pub state: CacheState,
}

/// The accounts that a sandbox holds, by address: every entry of the
/// cache's account map, whatever its mark.
pub uninterp spec fn cached_accounts(sandbox: Sandbox) -> Map<Seq<u8>, CachedAccount>;

/// The storage slots that a sandbox holds, by address and slot number:
/// every entry of the storage map of every cached account.
pub uninterp spec fn cached_storage(sandbox: Sandbox) -> Map<(Seq<u8>, nat), nat>;

/// The contract code that a sandbox holds, by code hash: every entry of
/// the cache's code map, as the bytes that were filed.
pub uninterp spec fn cached_contracts(sandbox: Sandbox) -> Map<Seq<u8>, Seq<u8>>;

/// The transaction that a sandbox runs next: the transaction part of the
/// emulator's environment.
pub uninterp spec fn pending_transaction(sandbox: Sandbox) -> TransactionView;

/// The Keccak-256 digest of a byte string, as revm's `keccak256` gives it.
pub uninterp spec fn keccak256(bytes: Seq<u8>) -> Seq<u8>;

/// What revm's `EVM::transact_commit` makes of a transaction on a cache in
/// a given state, under the emulator's default chain configuration and
/// block: its report, and the cache once the changes are committed.
pub uninterp spec fn evm_transition(state: CacheState, transaction: TransactionView) -> Transition;

impl Sandbox {
    /// The three maps of the cache, together.
    pub open spec fn state(self) -> CacheState {
        CacheState {
            accounts: cached_accounts(self),
            storage: cached_storage(self),
            contracts: cached_contracts(self),
        }
    }
}

/// The Keccak-256 digest of the empty byte string.
pub open spec fn keccak_empty() -> Seq<u8> {
    seq![
        0xc5u8, 0xd2u8, 0x46u8, 0x01u8, 0x86u8, 0xf7u8, 0x23u8, 0x3cu8,
        0x92u8, 0x7eu8, 0x7du8, 0xb2u8, 0xdcu8, 0xc7u8, 0x03u8, 0xc0u8,
        0xe5u8, 0x00u8, 0xb6u8, 0x53u8, 0xcau8, 0x82u8, 0x27u8, 0x3bu8,
        0x7bu8, 0xfau8, 0xd8u8, 0x04u8, 0x5du8, 0x85u8, 0xa4u8, 0x70u8,
    ]
}

/// Thirty-two zero bytes.
pub open spec fn zero_hash() -> Seq<u8> {
    Seq::new(32, |i: int| 0u8)
}

/// The hash under which the cache files `code`, whose digest is `digest`.
pub open spec fn filed_hash(code: Seq<u8>, digest: Seq<u8>) -> Seq<u8> {
    if code.len() == 0 {
        keccak_empty()
    } else {
        digest
    }
}

/// The hash that the cache records in an account with `code`: the filed
/// hash, with all zeros read as "no code".
pub open spec fn recorded_hash(code: Seq<u8>, digest: Seq<u8>) -> Seq<u8> {
    if filed_hash(code, digest) == zero_hash() {
        keccak_empty()
    } else {
        filed_hash(code, digest)
    }
}

/// The accounts of a fresh cache: none.
pub open spec fn fresh_accounts() -> Map<Seq<u8>, CachedAccount> {
    Map::empty()
}

/// The storage of a fresh cache: none.
pub open spec fn fresh_storage() -> Map<(Seq<u8>, nat), nat> {
    Map::empty()
}

/// The code of a fresh cache: empty code under the two hashes that stand
/// for "no code".
pub open spec fn fresh_contracts() -> Map<Seq<u8>, Seq<u8>> {
    Map::empty().insert(keccak_empty(), Seq::empty()).insert(zero_hash(), Seq::empty())
}

/// The accounts after balance, nonce and code were written at `address`:
/// an account that was there keeps its mark.
pub open spec fn accounts_with(
    accounts: Map<Seq<u8>, CachedAccount>,
    address: Seq<u8>,
    balance: nat,
    nonce: nat,
    code: Seq<u8>,
    digest: Seq<u8>,
) -> Map<Seq<u8>, CachedAccount> {
    accounts.insert(
        address,
        CachedAccount {
            balance,
            nonce,
            code_hash: recorded_hash(code, digest),
            code: Some(code),
            mark: if accounts.contains_key(address) {
                accounts[address].mark
            } else {
                AccountMark::Untouched
            },
        },
    )
}

/// The code map after `code` was filed: non-empty code goes under its hash
/// unless that hash is taken.
pub open spec fn contracts_with(
    contracts: Map<Seq<u8>, Seq<u8>>,
    code: Seq<u8>,
    digest: Seq<u8>,
) -> Map<Seq<u8>, Seq<u8>> {
    if code.len() > 0 && !contracts.contains_key(digest) {
        contracts.insert(digest, code)
    } else {
        contracts
    }
}

/// `EVM::new` and `EVM::database` with `CacheDB::new` over `EmptyDB`: a
/// sandbox whose cache is fresh.
#[verifier::external_body]
pub(crate) fn new_sandbox() -> (sandbox: Sandbox)
    ensures
        cached_accounts(sandbox) == fresh_accounts(),
        cached_storage(sandbox) == fresh_storage(),
        cached_contracts(sandbox) == fresh_contracts(),
{
    let mut evm = revm::EVM::new();
    evm.database(revm::db::CacheDB::new(revm::db::EmptyDB()));
    Sandbox { evm }
}

/// `CacheDB::insert_account_info` with an `AccountInfo::new` over raw
/// bytecode: writes balance, nonce and code at `address`, keeps the
/// account's storage and mark, and files the code under its hash.
#[verifier::external_body]
pub(crate) fn insert_account_info(
    sandbox: &mut Sandbox,
    address: &Address,
    balance: &U256,
    nonce: u64,
    code: &Vec<u8>,
)
    ensures
        cached_accounts(*final(sandbox)) == accounts_with(
            cached_accounts(*old(sandbox)),
            address.bytes@,
            balance@,
            nonce as nat,
            code@,
            keccak256(code@),
        ),
        cached_storage(*final(sandbox)) == cached_storage(*old(sandbox)),
        cached_contracts(*final(sandbox)) == contracts_with(
            cached_contracts(*old(sandbox)),
            code@,
            keccak256(code@),
        ),
{
    let balance = revm::primitives::U256::from_limbs(balance.limbs);
    let info = AccountInfo::new(balance, nonce, Bytecode::new_raw(code.clone().into()));
    sandbox.evm.db().unwrap().insert_account_info(B160(address.bytes), info);
}

/// `CacheDB::insert_account_storage` on an account that the cache holds:
/// writes one slot and nothing else.
#[verifier::external_body]
pub(crate) fn insert_account_storage(sandbox: &mut Sandbox, address: &Address, slot: &U256, value: &U256)
    requires
        cached_accounts(*old(sandbox)).contains_key(address.bytes@),
    ensures
        cached_accounts(*final(sandbox)) == cached_accounts(*old(sandbox)),
        cached_storage(*final(sandbox)) == cached_storage(*old(sandbox)).insert(
            (address.bytes@, slot@),
            value@,
        ),
        cached_contracts(*final(sandbox)) == cached_contracts(*old(sandbox)),
{
    let slot = revm::primitives::U256::from_limbs(slot.limbs);
    let value = revm::primitives::U256::from_limbs(value.limbs);
    let _ = sandbox.evm.db().unwrap().insert_account_storage(B160(address.bytes), slot, value);
}

/// `HashMap::contains_key` on the cache's accounts: whether the cache
/// holds an account at `address`.
#[verifier::external_body]
pub(crate) fn holds_account(sandbox: &Sandbox, address: &Address) -> (held: bool)
    ensures
        held == cached_accounts(*sandbox).contains_key(address.bytes@),
{
    sandbox.evm.db.as_ref().unwrap().accounts.contains_key(&B160(address.bytes))
}

/// The length of the code that the account at `address` carries, if the
/// cache holds that account and it carries code.
pub open spec fn carried_code_len(accounts: Map<Seq<u8>, CachedAccount>, address: Seq<u8>) -> Option<
    nat,
> {
    if accounts.contains_key(address) && accounts[address].code.is_some() {
        Some(accounts[address].code.unwrap().len())
    } else {
        None
    }
}

/// `Bytecode::len` of the code carried by the cached account at `address`.
#[verifier::external_body]
pub(crate) fn account_code_len(sandbox: &Sandbox, address: &Address) -> (len: Option<usize>)
    ensures
        len.is_some() == carried_code_len(cached_accounts(*sandbox), address.bytes@).is_some(),
        len.is_some() ==> len.unwrap() == carried_code_len(
            cached_accounts(*sandbox),
            address.bytes@,
        ).unwrap(),
{
    let account = sandbox.evm.db.as_ref().unwrap().accounts.get(&B160(address.bytes));
    account.and_then(|account| account.info.code.as_ref()).map(|code| code.len())
}

/// `HashMap::get` on the storage of the cached account at `address`: the
/// value of one slot, if the cache holds it.
#[verifier::external_body]
pub(crate) fn storage_slot(sandbox: &Sandbox, address: &Address, slot: &U256) -> (value: Option<U256>)
    ensures
        value.is_some() == cached_storage(*sandbox).contains_key((address.bytes@, slot@)),
        value.is_some() ==> value.unwrap()@ == cached_storage(*sandbox)[(address.bytes@, slot@)],
{
    let slot = revm::primitives::U256::from_limbs(slot.limbs);
    let account = sandbox.evm.db.as_ref().unwrap().accounts.get(&B160(address.bytes));
    let value = account.and_then(|account| account.storage.get(&slot));
    value.map(|value| U256 { limbs: value.into_limbs() })
}

/// Assignment of the emulator's pending transaction: a call of
/// `transaction.to` with every field taken over as it stands and an empty
/// access list. The cache is not touched.
#[verifier::external_body]
pub(crate) fn set_transaction(sandbox: &mut Sandbox, transaction: &SimulatedTransaction)
    ensures
        pending_transaction(*final(sandbox)) == transaction@,
        cached_accounts(*final(sandbox)) == cached_accounts(*old(sandbox)),
        cached_storage(*final(sandbox)) == cached_storage(*old(sandbox)),
        cached_contracts(*final(sandbox)) == cached_contracts(*old(sandbox)),
{
    sandbox.evm.env.tx = TxEnv {
        caller: B160(transaction.caller.bytes),
        gas_limit: transaction.gas_limit,
        gas_price: revm::primitives::U256::from(transaction.gas_price),
        gas_priority_fee: Some(revm::primitives::U256::from(transaction.gas_priority_fee)),
        transact_to: TransactTo::Call(B160(transaction.to.bytes)),
        value: revm::primitives::U256::from(transaction.value),
        data: transaction.data.clone().into(),
        chain_id: Some(transaction.chain_id),
        nonce: Some(transaction.nonce),
        access_list: Vec::new(),
    };
}

/// `EVM::transact_commit`: runs the pending transaction on the cache and
/// commits what it changed. The report and the cache afterwards are those
/// that [`evm_transition`] names for the cache and the transaction before.
#[verifier::external_body]
pub(crate) fn transact_commit(sandbox: &mut Sandbox) -> (outcome: RawOutcome)
    ensures
        outcome@ == evm_transition(old(sandbox).state(), pending_transaction(*old(sandbox))).outcome,
        cached_accounts(*final(sandbox)) == evm_transition(
            old(sandbox).state(),
            pending_transaction(*old(sandbox)),
        ).state.accounts,
        cached_storage(*final(sandbox)) == evm_transition(
            old(sandbox).state(),
            pending_transaction(*old(sandbox)),
        ).state.storage,
        cached_contracts(*final(sandbox)) == evm_transition(
            old(sandbox).state(),
            pending_transaction(*old(sandbox)),
        ).state.contracts,
{
    match sandbox.evm.transact_commit() {
        Ok(ExecutionResult::Success { logs, .. }) => RawOutcome::Success {
            logs: logs.into_iter().map(|log| Log {
                address: Address { bytes: log.address.0 },
                topics: log.topics.into_iter().map(|topic| topic.0).collect(),
                data: log.data.to_vec(),
            }).collect(),
        },
        Ok(ExecutionResult::Revert { output, .. }) => RawOutcome::Revert { output: output.to_vec() },
        Ok(ExecutionResult::Halt { reason, .. }) => RawOutcome::Halt { reason: format!("{:?}", reason) },
        Err(error) => RawOutcome::Rejected { reason: format!("{:?}", error) },
    }
}

} // verus!
