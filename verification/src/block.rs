//! The block executor: the part of it that runs before and between transactions.

use crate::error::{BlockExecutionError, BlockValidationError};
use crate::hardforks::{EthereumHardfork, ForkCondition};
use crate::primitives::{B256, U256};
use crate::spec::EthExecutorSpec;
use crate::withdrawals::Withdrawal;
use alloy_consensus::Header;
use vstd::prelude::*;

verus! {

/// A block header of `alloy-consensus`.
#[verifier::external_type_specification]
#[verifier::external_body]
pub struct ExHeader(Header);

/// What the executor reads of the environment of the block.
#[derive(Debug, Clone, Copy)]
pub struct BlockEnv {
    /// The block number.
    pub number: U256,
    /// The block timestamp.
    pub timestamp: U256,
    /// The gas limit of the block.
    pub gas_limit: u64,
}

/// The inputs of a block that its transactions do not carry.
#[derive(Debug, Clone)]
pub struct EthBlockExecutionCtx<'a> {
    /// Parent block hash.
    pub parent_hash: B256,
    /// Parent beacon block root.
    pub parent_beacon_block_root: Option<B256>,
    /// Block ommers.
    pub ommers: &'a [Header],
    /// Block withdrawals.
    pub withdrawals: Option<Vec<Withdrawal>>,
    /// Block timestamp.
    pub timestamp: u64,
    /// Calldata of the bridge call that executes inbound messages. `None` where the bridge fork is
    /// inactive, the consensus layer sent no messages, or the chain has no bridge contract.
    pub bridge_request: Option<Vec<u8>>,
    /// The bridge messages as the consensus layer encoded them. They become the bridge entry of
    /// the requests of the block as they are, so that the requests hash covers the bytes that the
    /// consensus layer hashes. `None` where a block is replayed.
    pub bridge_request_raw: Option<Vec<u8>>,
}

/// What a receipt is built from.
pub struct ReceiptBuilderCtx<'a, Transaction, Evm, ExecutionResult, State> {
    /// The transaction.
    pub tx: &'a Transaction,
    /// The EVM that executed the transaction.
    pub evm: &'a Evm,
    /// The result of the execution.
    pub result: ExecutionResult,
    /// The state changes of the transaction.
    pub state: &'a State,
    /// The gas that the block has used, this transaction included.
    pub cumulative_gas_used: u64,
}

/// Builds the receipts of executed transactions.
pub trait ReceiptBuilder {
    /// The transactions.
    type Transaction;

    /// The EVM that executes them.
    type Evm;

    /// What an execution returns.
    type ExecutionResult;

    /// The state changes of an execution.
    type State;

    /// The receipts.
    type Receipt;

    /// Builds the receipt of a transaction that has been executed.
    fn build_receipt(
        &self,
        ctx: ReceiptBuilderCtx<
            '_,
            Self::Transaction,
            Self::Evm,
            Self::ExecutionResult,
            Self::State,
        >,
    ) -> Self::Receipt;
}

impl<T: ReceiptBuilder> ReceiptBuilder for &T {
    type Transaction = T::Transaction;

    type Evm = T::Evm;

    type ExecutionResult = T::ExecutionResult;

    type State = T::State;

    type Receipt = T::Receipt;

    fn build_receipt(
        &self,
        ctx: ReceiptBuilderCtx<'_, T::Transaction, T::Evm, T::ExecutionResult, T::State>,
    ) -> (receipt: T::Receipt)
        ensures
            call_ensures(T::build_receipt, (*self, ctx), receipt),
    {
        (**self).build_receipt(ctx)
    }
}

/// Executes the transactions of a block.
#[derive(Debug)]
pub struct EthBlockExecutor<'a, Evm, Spec, R: ReceiptBuilder> {
    spec: Spec,
    ctx: EthBlockExecutionCtx<'a>,
    evm: Evm,
    receipt_builder: R,
    receipts: Vec<R::Receipt>,
    gas_used: u64,
}

/// The value of an [`EthBlockExecutor`].
pub struct EthBlockExecutorView<'a, Evm, Spec, R: ReceiptBuilder> {
    /// The settings of the chain.
    pub chain: Spec,
    /// The inputs of the block.
    pub ctx: EthBlockExecutionCtx<'a>,
    /// The EVM.
    pub evm: Evm,
    /// The receipt builder.
    pub receipt_builder: R,
    /// The receipts of the transactions that have been committed.
    pub receipts: Seq<R::Receipt>,
    /// The gas that they used.
    pub gas_used: u64,
}

/// A change of the state that precedes the first transaction.
#[derive(Debug, Clone, Copy)]
pub enum PreExecutionChange {
    /// Set whether empty accounts that a transaction touches are removed.
    SetStateClearFlag(bool),
    /// Call the contract that keeps block hashes, with the parent hash.
    BlockhashesContractCall(B256),
    /// Call the contract that keeps beacon block roots, with the parent root.
    BeaconRootContractCall(Option<B256>),
}

/// The changes that precede the first transaction of a block with the inputs `ctx`, in order.
/// `state_clear_flag` tells whether Spurious Dragon is active.
pub open spec fn pre_execution_changes(
    state_clear_flag: bool,
    ctx: EthBlockExecutionCtx<'_>,
) -> Seq<PreExecutionChange> {
    seq![
        PreExecutionChange::SetStateClearFlag(state_clear_flag),
        PreExecutionChange::BlockhashesContractCall(ctx.parent_hash),
        PreExecutionChange::BeaconRootContractCall(ctx.parent_beacon_block_root),
    ]
}

/// What follows where `result` came of the change at `made`: its error where it failed, else the
/// change behind it; none behind the last.
pub open spec fn pre_execution_step<E>(
    changes: Seq<PreExecutionChange>,
    made: int,
    result: Result<(), E>,
) -> Result<Option<PreExecutionChange>, E> {
    match result {
        Err(error) => Err(error),
        Ok(_) => Ok(
            if made + 1 < changes.len() {
                Some(changes[made + 1])
            } else {
                None
            },
        ),
    }
}

/// Says what follows one of the changes that precede the first transaction, given what came of it.
///
/// A change that failed ends the block with its error, and no other change is made. Where the last
/// change succeeded, `Ok(None)` says that all of them did.
pub fn after_pre_execution_change<E>(
    changes: &Vec<PreExecutionChange>,
    made: usize,
    result: Result<(), E>,
) -> (next: Result<Option<PreExecutionChange>, E>)
    requires
        made < changes@.len(),
    ensures
        next == pre_execution_step(changes@, made as int, result),
{
    match result {
        Err(error) => Err(error),
        Ok(_) => {
            if made < changes.len() - 1 {
                Ok(Some(changes[made + 1]))
            } else {
                Ok(None)
            }
        },
    }
}

/// A change of the state that follows the last transaction.
#[derive(Debug, Clone, Copy, PartialEq, Eq, Structural)]
pub enum StateChangePostBlockSource {
    /// Balances were incremented.
    BalanceIncrements,
    /// The bridge contract executed inbound messages.
    BridgeExecution,
    /// The staking contract distributed rewards.
    StakingDistribution,
}

/// Where a change of the state that is reported to the state hook comes from.
#[derive(Debug, Clone, Copy, PartialEq, Eq, Structural)]
pub enum StateChangeSource {
    /// The transaction at the given index in the block.
    Transaction(usize),
    /// A change that follows the last transaction.
    PostBlock(StateChangePostBlockSource),
}

/// A transaction that was executed. `state` is to be reported to the state hook as a change that
/// comes from `source`; the receipt is built after that.
#[derive(Debug)]
pub struct TransactionReport<ExecutionResult, State> {
    /// Where the state changes come from.
    pub source: StateChangeSource,
    /// The state changes.
    pub state: State,
    /// The result of the execution.
    pub result: ExecutionResult,
}

/// A transaction whose receipt has been built. `state` is to be committed.
#[derive(Debug)]
pub struct TransactionCommit<State> {
    /// The state changes.
    pub state: State,
    /// The gas that the transaction is charged.
    pub gas_used: u64,
}

/// The least gas that a transaction is charged: 80% of its gas limit, rounded down.
pub open spec fn min_gas_used(tx_gas_limit: u64) -> nat {
    (tx_gas_limit * 4 / 5) as nat
}

/// The gas that a transaction is charged: what it used, but no less than [`min_gas_used`].
pub open spec fn charged_gas(raw_gas_used: u64, tx_gas_limit: u64) -> nat {
    if raw_gas_used < min_gas_used(tx_gas_limit) {
        min_gas_used(tx_gas_limit)
    } else {
        raw_gas_used as nat
    }
}

/// Returns the gas that a transaction is charged.
pub fn charge(raw_gas_used: u64, tx_gas_limit: u64) -> (gas_used: u64)
    requires
        tx_gas_limit * 4 <= u64::MAX,
    ensures
        gas_used == charged_gas(raw_gas_used, tx_gas_limit),
{
    let min_gas_used: u64 = (tx_gas_limit * 4) / 5;
    if raw_gas_used < min_gas_used {
        min_gas_used
    } else {
        raw_gas_used
    }
}

impl<'a, Evm, Spec, R: ReceiptBuilder> View for EthBlockExecutor<'a, Evm, Spec, R> {
    type V = EthBlockExecutorView<'a, Evm, Spec, R>;

    closed spec fn view(&self) -> EthBlockExecutorView<'a, Evm, Spec, R> {
        EthBlockExecutorView {
            chain: self.spec,
            ctx: self.ctx,
            evm: self.evm,
            receipt_builder: self.receipt_builder,
            receipts: self.receipts@,
            gas_used: self.gas_used,
        }
    }
}

impl<'a, Evm, Spec, R: ReceiptBuilder> EthBlockExecutor<'a, Evm, Spec, R> {
    /// Creates an executor that has executed nothing.
    pub fn new(evm: Evm, ctx: EthBlockExecutionCtx<'a>, spec: Spec, receipt_builder: R) -> (executor:
        EthBlockExecutor<'a, Evm, Spec, R>)
        ensures
            executor@ == (EthBlockExecutorView {
                chain: spec,
                ctx,
                evm,
                receipt_builder,
                receipts: Seq::empty(),
                gas_used: 0,
            }),
    {
        EthBlockExecutor { evm, ctx, receipts: Vec::new(), gas_used: 0, spec, receipt_builder }
    }

    /// The settings of the chain.
    pub fn spec(&self) -> (chain: &Spec)
        ensures
            *chain == self@.chain,
    {
        &self.spec
    }

    /// The inputs of the block.
    pub fn ctx(&self) -> (ctx: &EthBlockExecutionCtx<'a>)
        ensures
            *ctx == self@.ctx,
    {
        &self.ctx
    }

    /// The inputs of the block, for a change.
    pub fn ctx_mut(&mut self) -> (ctx: &mut EthBlockExecutionCtx<'a>)
        ensures
            *ctx == old(self)@.ctx,
            final(self)@ == (EthBlockExecutorView { ctx: *final(ctx), ..old(self)@ }),
    {
        &mut self.ctx
    }

    /// The receipts of the transactions that have been committed.
    pub fn receipts(&self) -> (receipts: &Vec<R::Receipt>)
        ensures
            receipts@ == self@.receipts,
    {
        &self.receipts
    }

    /// The gas that the block has used.
    pub fn gas_used(&self) -> (gas_used: u64)
        ensures
            gas_used == self@.gas_used,
    {
        self.gas_used
    }

    /// What the state changes of the next transaction are reported as: those of the transaction at
    /// the index that its receipt will have.
    pub fn next_transaction_source(&self) -> (source: StateChangeSource)
        ensures
            source == StateChangeSource::Transaction(self@.receipts.len() as usize),
    {
        StateChangeSource::Transaction(self.receipts.len())
    }

    /// The EVM, the receipts and the gas used.
    pub fn into_parts(self) -> (parts: (Evm, Vec<R::Receipt>, u64))
        ensures
            parts.0 == self@.evm,
            parts.1@ == self@.receipts,
            parts.2 == self@.gas_used,
    {
        (self.evm, self.receipts, self.gas_used)
    }

    /// The EVM.
    pub fn evm(&self) -> (evm: &Evm)
        ensures
            *evm == self@.evm,
    {
        &self.evm
    }

    /// The EVM, for a change.
    pub fn evm_mut(&mut self) -> (evm: &mut Evm)
        ensures
            *evm == old(self)@.evm,
            final(self)@ == (EthBlockExecutorView { evm: *final(evm), ..old(self)@ }),
    {
        &mut self.evm
    }
}

impl<'a, Evm, Spec: EthExecutorSpec, R: ReceiptBuilder<Evm = Evm>> EthBlockExecutor<
    'a,
    Evm,
    Spec,
    R,
> {
    /// Returns the changes that precede the first transaction, in the order in which they are to
    /// be made. [`after_pre_execution_change`] says what follows each of them.
    pub fn apply_pre_execution_changes(&self, block: &BlockEnv) -> (changes: Vec<
        PreExecutionChange,
    >)
        ensures
            exists|condition: ForkCondition| #[trigger]
                call_ensures(
                    Spec::ethereum_fork_activation,
                    (&self@.chain, EthereumHardfork::SpuriousDragon),
                    condition,
                ) && changes@ == pre_execution_changes(
                    condition.holds_at_block(block.number.saturated()),
                    self@.ctx,
                ),
    {
        let state_clear_flag = self.spec.is_spurious_dragon_active_at_block(
            block.number.saturating_to_u64(),
        );
        let mut changes: Vec<PreExecutionChange> = Vec::new();
        changes.push(PreExecutionChange::SetStateClearFlag(state_clear_flag));
        changes.push(PreExecutionChange::BlockhashesContractCall(self.ctx.parent_hash));
        changes.push(PreExecutionChange::BeaconRootContractCall(self.ctx.parent_beacon_block_root));
        changes
    }

    /// Checks that a transaction with the given gas limit fits into the gas that the block has
    /// left.
    pub fn check_transaction_gas_limit(&self, block: &BlockEnv, tx_gas_limit: u64) -> (result:
        Result<(), BlockValidationError>)
        requires
            self@.gas_used <= block.gas_limit,
        ensures
            result == (if tx_gas_limit > block.gas_limit - self@.gas_used {
                Err(
                    BlockValidationError::TransactionGasLimitMoreThanAvailableBlockGas {
                        transaction_gas_limit: tx_gas_limit,
                        block_available_gas: (block.gas_limit - self@.gas_used) as u64,
                    },
                )
            } else {
                Ok(())
            }),
    {
        let block_available_gas: u64 = block.gas_limit - self.gas_used;
        if tx_gas_limit > block_available_gas {
            return Err(
                BlockValidationError::TransactionGasLimitMoreThanAvailableBlockGas {
                    transaction_gas_limit: tx_gas_limit,
                    block_available_gas,
                },
            );
        }
        Ok(())
    }

    /// Starts to commit a transaction that has been executed: its state changes are to be reported
    /// as those of the transaction at the index that its receipt will have.
    pub fn report_transaction(&self, result: R::ExecutionResult, state: R::State) -> (report:
        TransactionReport<R::ExecutionResult, R::State>)
        ensures
            report == transaction_report(self@, result, state),
    {
        TransactionReport { source: self.next_transaction_source(), state, result }
    }

    /// Charges a transaction that has been reported and adds its receipt. Returns the state changes,
    /// which are to be committed, with the gas that the transaction is charged.
    pub fn commit_transaction(
        &mut self,
        tx: &R::Transaction,
        tx_gas_limit: u64,
        report: TransactionReport<R::ExecutionResult, R::State>,
        raw_gas_used: u64,
    ) -> (commit: TransactionCommit<R::State>)
        requires
            report.source == StateChangeSource::Transaction(old(self)@.receipts.len() as usize),
            tx_gas_limit * 4 <= u64::MAX,
            old(self)@.gas_used + charged_gas(raw_gas_used, tx_gas_limit) <= u64::MAX,
        ensures
            commit.gas_used == charged_gas(raw_gas_used, tx_gas_limit),
            commit.state == report.state,
            committed(old(self)@, *tx, report, commit, final(self)@),
    {
        let gas_used: u64 = charge(raw_gas_used, tx_gas_limit);
        self.gas_used = self.gas_used + gas_used;
        let receipt = self.receipt_builder.build_receipt(
            ReceiptBuilderCtx {
                tx,
                evm: &self.evm,
                result: report.result,
                state: &report.state,
                cumulative_gas_used: self.gas_used,
            },
        );
        self.receipts.push(receipt);
        assert(self@.receipts =~= old(self)@.receipts.push(receipt));
        TransactionCommit { state: report.state, gas_used }
    }
}

/// The report of a transaction that `executor` starts to commit.
pub open spec fn transaction_report<'a, Evm, Spec, R: ReceiptBuilder>(
    executor: EthBlockExecutorView<'a, Evm, Spec, R>,
    result: R::ExecutionResult,
    state: R::State,
) -> TransactionReport<R::ExecutionResult, R::State> {
    TransactionReport {
        source: StateChangeSource::Transaction(executor.receipts.len() as usize),
        state,
        result,
    }
}

/// Whether `after` is `before` once the reported transaction has been charged `commit.gas_used`: the
/// gas is added to that of the block, and a receipt is added that was built with the EVM as it was,
/// the result, the state changes and the gas that the block has then used. Nothing else changes.
pub open spec fn committed<'a, Evm, Spec, R: ReceiptBuilder<Evm = Evm>>(
    before: EthBlockExecutorView<'a, Evm, Spec, R>,
    tx: R::Transaction,
    report: TransactionReport<R::ExecutionResult, R::State>,
    commit: TransactionCommit<R::State>,
    after: EthBlockExecutorView<'a, Evm, Spec, R>,
) -> bool {
    &&& after.gas_used == before.gas_used + commit.gas_used
    &&& exists|receipt: R::Receipt|
        #![trigger before.receipts.push(receipt)]
        call_ensures(
            R::build_receipt,
            (
                &before.receipt_builder,
                ReceiptBuilderCtx {
                    tx: &tx,
                    evm: &before.evm,
                    result: report.result,
                    state: &report.state,
                    cumulative_gas_used: after.gas_used,
                },
            ),
            receipt,
        ) && after == (EthBlockExecutorView {
            receipts: before.receipts.push(receipt),
            gas_used: after.gas_used,
            ..before
        })
}

/// What the execution of the transaction with the given hash comes to: what the EVM returned, with
/// the hash beside an error.
pub fn executed_transaction<Output, E>(result: Result<Output, E>, hash: B256) -> (executed: Result<
    Output,
    BlockExecutionError<E>,
>)
    ensures
        executed == (match result {
            Ok(output) => Ok(output),
            Err(error) => Err(BlockExecutionError::Transaction { hash, error }),
        }),
{
    match result {
        Ok(output) => Ok(output),
        Err(error) => Err(BlockExecutionError::Transaction { hash, error }),
    }
}

} // verus!
