//! Running a transaction request on the sandbox and reporting how it ended.

use vstd::prelude::*;

use crate::models::emulator::{
    account_code_len, carried_code_len, evm_transition, set_transaction, transact_commit,
    CacheState, CachedAccount, Log, LogView, RawOutcome, RawOutcomeView, Sandbox,
    SimulatedTransaction, TransactionView,
};
use crate::models::sandbox::SandboxCell;
use crate::types::{pow64, Address, U256};

verus! {

/// The nonce that every simulated transaction carries. It is a placeholder:
/// the sender's live nonce is not consulted.
pub const SIMULATION_NONCE: u64 = 17;

/// A transaction request as a caller states it, amounts at full width.
pub struct TransactionRequest {
    pub from: Address,
    pub to: Address,
    pub data: Vec<u8>,
    pub value: U256,
    pub gas: U256,
    pub max_fee_per_gas: U256,
    pub max_priority_fee_per_gas: U256,
    pub chain_id: Option<u64>,
}

/// An amount of a request that the emulator takes at 64 bits.
#[derive(Clone, Copy, Debug, PartialEq, Eq, Structural)]
pub enum TxField {
    Value,
    GasLimit,
    MaxFeePerGas,
    MaxPriorityFeePerGas,
}

/// Why an execution stopped exceptionally.
#[derive(Clone, Debug, PartialEq, Eq)]
pub enum HaltReason {
    /// The request carries call data but its target holds no code.
    NotAContract,
    /// The emulator halted; its name for the cause.
    Emulator(String),
}

/// How a simulated transaction ended.
#[derive(Clone, Debug, PartialEq, Eq)]
pub enum ExecutionOutcome {
    /// Ran to completion; the events it emitted.
    Success { logs: Vec<Log> },
    /// Ended by a revert; the bytes it returned.
    Revert { output: Vec<u8> },
    /// Stopped exceptionally.
    Halt { reason: HaltReason },
}

/// Why a request was not executed at all.
#[derive(Clone, Debug, PartialEq, Eq)]
pub enum SimulationError {
    /// No sandbox is built yet.
    NotSeeded,
    /// An amount does not fit the emulator's 64 bits.
    TooWide(TxField),
    /// The emulator refused the transaction; its name for the cause.
    Rejected(String),
}

/// The mathematical content of a [`HaltReason`].
pub enum HaltReasonView {
    NotAContract,
    Emulator(Seq<char>),
}

/// The mathematical content of an [`ExecutionOutcome`].
pub enum ExecutionOutcomeView {
    Success { logs: Seq<LogView> },
    Revert { output: Seq<u8> },
    Halt { reason: HaltReasonView },
}

/// The mathematical content of a [`SimulationError`].
pub enum SimulationErrorView {
    NotSeeded,
    TooWide(TxField),
    Rejected(Seq<char>),
}

impl View for HaltReason {
    type V = HaltReasonView;

    open spec fn view(&self) -> HaltReasonView {
        match *self {
            HaltReason::NotAContract => HaltReasonView::NotAContract,
            HaltReason::Emulator(name) => HaltReasonView::Emulator(name@),
        }
    }
}

impl View for ExecutionOutcome {
    type V = ExecutionOutcomeView;

    open spec fn view(&self) -> ExecutionOutcomeView {
        match *self {
            ExecutionOutcome::Success { logs } => ExecutionOutcomeView::Success {
                logs: Seq::new(logs@.len(), |i: int| logs@[i]@),
            },
            ExecutionOutcome::Revert { output } => ExecutionOutcomeView::Revert {
                output: output@,
            },
            ExecutionOutcome::Halt { reason } => ExecutionOutcomeView::Halt { reason: reason@ },
        }
    }
}

impl View for SimulationError {
    type V = SimulationErrorView;

    open spec fn view(&self) -> SimulationErrorView {
        match *self {
            SimulationError::NotSeeded => SimulationErrorView::NotSeeded,
            SimulationError::TooWide(field) => SimulationErrorView::TooWide(field),
            SimulationError::Rejected(name) => SimulationErrorView::Rejected(name@),
        }
    }
}

/// The mathematical content of a simulation's result.
pub open spec fn result_view(result: Result<ExecutionOutcome, SimulationError>) -> Result<
    ExecutionOutcomeView,
    SimulationErrorView,
> {
    match result {
        Ok(outcome) => Ok(outcome@),
        Err(error) => Err(error@),
    }
}

/// The chain id that a request runs under: its own, or else `fallback`.
pub open spec fn effective_chain_id(request: TransactionRequest, fallback: u64) -> u64 {
    match request.chain_id {
        Some(id) => id,
        None => fallback,
    }
}

/// The first amount of a request that does not fit 64 bits, in the order
/// value, gas limit, fee cap, priority fee.
pub open spec fn first_too_wide(request: TransactionRequest) -> Option<TxField> {
    if request.value@ >= pow64() {
        Some(TxField::Value)
    } else if request.gas@ >= pow64() {
        Some(TxField::GasLimit)
    } else if request.max_fee_per_gas@ >= pow64() {
        Some(TxField::MaxFeePerGas)
    } else if request.max_priority_fee_per_gas@ >= pow64() {
        Some(TxField::MaxPriorityFeePerGas)
    } else {
        None
    }
}

/// The transaction that the emulator is handed for a request whose amounts
/// all fit: a call from `from` to `to` with the same data and amounts, the
/// fee cap as gas price, and the placeholder nonce.
pub open spec fn translated(request: TransactionRequest, fallback: u64) -> TransactionView {
    TransactionView {
        caller: request.from.bytes@,
        to: request.to.bytes@,
        data: request.data@,
        value: request.value@,
        gas_limit: request.gas@,
        gas_price: request.max_fee_per_gas@,
        gas_priority_fee: request.max_priority_fee_per_gas@,
        nonce: SIMULATION_NONCE as nat,
        chain_id: effective_chain_id(request, fallback) as nat,
    }
}

/// Narrows a request to what the emulator takes. No amount is truncated:
/// the first one that does not fit 64 bits is named instead.
pub fn translate(request: TransactionRequest, fallback_chain_id: u64) -> (result: Result<
    SimulatedTransaction,
    TxField,
>)
    ensures
        match result {
            Ok(transaction) => first_too_wide(request).is_none() && transaction@ == translated(
                request,
                fallback_chain_id,
            ),
            Err(field) => first_too_wide(request) == Some(field),
        },
{
    let value = match request.value.to_u64() {
        Some(narrow) => narrow,
        None => { return Err(TxField::Value); },
    };
    let gas_limit = match request.gas.to_u64() {
        Some(narrow) => narrow,
        None => { return Err(TxField::GasLimit); },
    };
    let gas_price = match request.max_fee_per_gas.to_u64() {
        Some(narrow) => narrow,
        None => { return Err(TxField::MaxFeePerGas); },
    };
    let gas_priority_fee = match request.max_priority_fee_per_gas.to_u64() {
        Some(narrow) => narrow,
        None => { return Err(TxField::MaxPriorityFeePerGas); },
    };
    let chain_id = match request.chain_id {
        Some(id) => id,
        None => fallback_chain_id,
    };
    Ok(
        SimulatedTransaction {
            caller: request.from,
            to: request.to,
            data: request.data,
            value,
            gas_limit,
            gas_price,
            gas_priority_fee,
            nonce: SIMULATION_NONCE,
            chain_id,
        },
    )
}

/// How an emulator's report reads to a caller: success, revert and halt
/// are outcomes, each with its payload; a refusal is an error.
pub open spec fn classified(raw: RawOutcomeView) -> Result<ExecutionOutcomeView, SimulationErrorView> {
    match raw {
        RawOutcomeView::Success { logs } => Ok(ExecutionOutcomeView::Success { logs }),
        RawOutcomeView::Revert { output } => Ok(ExecutionOutcomeView::Revert { output }),
        RawOutcomeView::Halt { reason } => Ok(
            ExecutionOutcomeView::Halt { reason: HaltReasonView::Emulator(reason) },
        ),
        RawOutcomeView::Rejected { reason } => Err(SimulationErrorView::Rejected(reason)),
    }
}

/// Turns an emulator's report into the caller's result, payload intact.
pub fn classify(raw: RawOutcome) -> (result: Result<ExecutionOutcome, SimulationError>)
    ensures
        result_view(result) == classified(raw@),
{
    match raw {
        RawOutcome::Success { logs } => Ok(ExecutionOutcome::Success { logs }),
        RawOutcome::Revert { output } => Ok(ExecutionOutcome::Revert { output }),
        RawOutcome::Halt { reason } => Ok(
            ExecutionOutcome::Halt { reason: HaltReason::Emulator(reason) },
        ),
        RawOutcome::Rejected { reason } => Err(SimulationError::Rejected(reason)),
    }
}

/// Whether the account at `address` carries non-empty code.
pub open spec fn has_code(accounts: Map<Seq<u8>, CachedAccount>, address: Seq<u8>) -> bool {
    match carried_code_len(accounts, address) {
        Some(len) => len > 0,
        None => false,
    }
}

/// Whether a transaction is a call with data to an address without code.
pub open spec fn calls_missing_code(state: CacheState, transaction: TransactionView) -> bool {
    transaction.data.len() > 0 && !has_code(state.accounts, transaction.to)
}

/// What simulating a request on a cache in state `state` returns.
pub open spec fn simulated_result(state: CacheState, request: TransactionRequest, fallback: u64) -> Result<
    ExecutionOutcomeView,
    SimulationErrorView,
> {
    match first_too_wide(request) {
        Some(field) => Err(SimulationErrorView::TooWide(field)),
        None => if calls_missing_code(state, translated(request, fallback)) {
            Ok(ExecutionOutcomeView::Halt { reason: HaltReasonView::NotAContract })
        } else {
            classified(evm_transition(state, translated(request, fallback)).outcome)
        },
    }
}

/// The state of the cache after simulating a request on it: unchanged
/// where nothing was executed, else as the emulator committed it.
pub open spec fn simulated_state(state: CacheState, request: TransactionRequest, fallback: u64) -> CacheState {
    if first_too_wide(request).is_some() || calls_missing_code(
        state,
        translated(request, fallback),
    ) {
        state
    } else {
        evm_transition(state, translated(request, fallback)).state
    }
}

/// Simulates a request on a sandbox.
///
/// A request with an amount over 64 bits is refused, not truncated. A call
/// with data to an address that holds no code halts without being run.
/// Every other request is run by the emulator, whose changes stay in the
/// sandbox for the next simulation, and its report is returned with its
/// payload: logs, revert output, or the reason of a halt or refusal.
pub fn simulate_on(sandbox: &mut Sandbox, request: TransactionRequest, fallback_chain_id: u64) -> (result:
    Result<ExecutionOutcome, SimulationError>)
    ensures
        result_view(result) == simulated_result(old(sandbox).state(), request, fallback_chain_id),
        final(sandbox).state() == simulated_state(old(sandbox).state(), request, fallback_chain_id),
{
    let transaction = match translate(request, fallback_chain_id) {
        Ok(transaction) => transaction,
        Err(field) => { return Err(SimulationError::TooWide(field)); },
    };
    let coded = match account_code_len(sandbox, &transaction.to) {
        Some(len) => len > 0,
        None => false,
    };
    if transaction.data.len() > 0 && !coded {
        return Ok(ExecutionOutcome::Halt { reason: HaltReason::NotAContract });
    }
    set_transaction(sandbox, &transaction);
    let raw = transact_commit(sandbox);
    classify(raw)
}

/// Simulates a request on the sandbox of the process, as [`simulate_on`]
/// does. Where no sandbox is built yet, nothing is run and the caller is
/// told so.
pub fn simulate_send(cell: &mut SandboxCell, request: TransactionRequest, fallback_chain_id: u64) -> (result:
    Result<ExecutionOutcome, SimulationError>)
    ensures
        final(cell).sandbox().is_some() == old(cell).sandbox().is_some(),
        old(cell).sandbox().is_none() ==> result_view(result) == Err::<
            ExecutionOutcomeView,
            SimulationErrorView,
        >(SimulationErrorView::NotSeeded),
        old(cell).sandbox().is_some() ==> result_view(result) == simulated_result(
            old(cell).sandbox().unwrap().state(),
            request,
            fallback_chain_id,
        ) && final(cell).sandbox().unwrap().state() == simulated_state(
            old(cell).sandbox().unwrap().state(),
            request,
            fallback_chain_id,
        ),
{
    match cell.take() {
        Some(mut sandbox) => {
            let result = simulate_on(&mut sandbox, request, fallback_chain_id);
            cell.put(sandbox);
            result
        },
        None => Err(SimulationError::NotSeeded),
    }
}

/// Simulating a request that changes nothing in the cache gives the same
/// result when it is simulated again.
pub proof fn lemma_repeated_read(state: CacheState, request: TransactionRequest, fallback: u64)
    requires
        simulated_state(state, request, fallback) == state,
    ensures
        simulated_result(simulated_state(state, request, fallback), request, fallback)
            == simulated_result(state, request, fallback),
{
}

} // verus!
