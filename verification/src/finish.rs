//! The part of the block executor that runs after the last transaction.
//!
//! Finishing a block alternates calls into the EVM and its state with decisions. The decisions are
//! here: [`EthBlockExecutor::finish`] returns the first call to make, [`Finish::resume`] takes what
//! the call returned and says what comes next.

use crate::balances;
use crate::balances::BalanceIncrements;
use crate::block::{
    BlockEnv, EthBlockExecutor, EthBlockExecutorView, ReceiptBuilder, StateChangePostBlockSource,
    StateChangeSource,
};
use crate::error::{BlockExecutionError, BlockExecutionErrorView, BlockValidationError};
use crate::hardforks::{EthereumHardfork, ForkCondition};
use crate::primitives::Address;
use crate::requests;
use crate::spec::EthExecutorSpec;
use crate::system_calls;
use crate::system_calls::{SystemCall, SystemCallView};
use alloy_eips::eip7685::Requests;
use vstd::prelude::*;

verus! {

/// The irregular state change of the DAO fork.
#[derive(Debug)]
pub struct DaoFork {
    /// The accounts whose balance is taken away.
    pub accounts: Vec<Address>,
    /// The account that receives the balances.
    pub beneficiary: Address,
}

/// The value of a [`DaoFork`].
pub struct DaoForkView {
    /// The accounts whose balance is taken away.
    pub accounts: Seq<Address>,
    /// The account that receives the balances.
    pub beneficiary: Address,
}

impl View for DaoFork {
    type V = DaoForkView;

    open spec fn view(&self) -> DaoForkView {
        DaoForkView { accounts: self.accounts@, beneficiary: self.beneficiary }
    }
}

/// What finishing a block involves.
#[derive(Debug)]
pub struct FinishPlan {
    /// Whether the block collects requests.
    pub prague_active: bool,
    /// The call of the bridge contract.
    pub bridge_call: Option<SystemCall>,
    /// The data of the bridge entry of the requests.
    pub bridge_entry: Option<Vec<u8>>,
    /// The DAO fork, where the block is its first.
    pub dao_fork: Option<DaoFork>,
    /// The call that distributes staking rewards.
    pub staking_call: Option<SystemCall>,
}

/// The value of a [`FinishPlan`].
pub struct FinishPlanView {
    /// Whether the block collects requests.
    pub prague_active: bool,
    /// The call of the bridge contract.
    pub bridge_call: Option<SystemCallView>,
    /// The data of the bridge entry of the requests.
    pub bridge_entry: Option<Seq<u8>>,
    /// The DAO fork, where the block is its first.
    pub dao_fork: Option<DaoForkView>,
    /// The call that distributes staking rewards.
    pub staking_call: Option<SystemCallView>,
}

impl View for FinishPlan {
    type V = FinishPlanView;

    open spec fn view(&self) -> FinishPlanView {
        FinishPlanView {
            prague_active: self.prague_active,
            bridge_call: system_calls::call_view(self.bridge_call),
            bridge_entry: system_calls::bytes_view(self.bridge_entry),
            dao_fork: match self.dao_fork {
                Some(dao) => Some(dao@),
                None => None,
            },
            staking_call: system_calls::call_view(self.staking_call),
        }
    }
}

/// Whether `plan` is what finishing `block` involves: requests once Prague is active, the bridge
/// call that is due, the bridge entry that came with the block, the DAO fork on its first block,
/// and the staking call that the withdrawals ask for.
pub open spec fn plan_due<'a, Evm, Spec: EthExecutorSpec, R: ReceiptBuilder>(
    executor: EthBlockExecutorView<'a, Evm, Spec, R>,
    block: BlockEnv,
    dao: DaoForkView,
    plan: FinishPlanView,
) -> bool {
    let chain = executor.chain;
    let ctx = executor.ctx;
    &&& exists|condition: ForkCondition| #[trigger]
        call_ensures(
            Spec::ethereum_fork_activation,
            (&chain, EthereumHardfork::Prague),
            condition,
        ) && plan.prague_active == condition.holds_at_timestamp(block.timestamp.saturated())
    &&& system_calls::bridge_call_due(
        &chain,
        ctx.timestamp,
        system_calls::bytes_view(ctx.bridge_request),
        plan.bridge_call,
    )
    &&& plan.bridge_entry == system_calls::bytes_view(ctx.bridge_request_raw)
    &&& exists|condition: ForkCondition| #[trigger]
        call_ensures(Spec::ethereum_fork_activation, (&chain, EthereumHardfork::Dao), condition)
            && plan.dao_fork == (if condition.starts_at_block(block.number.saturated()) {
            Some(dao)
        } else {
            None
        })
    &&& system_calls::staking_call_due(
        &chain,
        ctx.timestamp,
        system_calls::withdrawals_view(ctx.withdrawals),
        plan.staking_call,
    )
}

impl<'a, Evm, Spec: EthExecutorSpec, R: ReceiptBuilder> EthBlockExecutor<'a, Evm, Spec, R> {
    /// Returns what finishing the block involves. `dao` is the DAO fork, for the block that is its
    /// first.
    pub fn finish_plan(&self, block: &BlockEnv, dao: DaoFork) -> (plan: FinishPlan)
        ensures
            plan_due(self@, *block, dao@, plan@),
    {
        let chain = self.spec();
        let ctx = self.ctx();
        let prague_active = chain.is_prague_active_at_timestamp(
            block.timestamp.saturating_to_u64(),
        );
        let bridge_call = system_calls::bridge_contract_call(
            chain,
            ctx.timestamp,
            &ctx.bridge_request,
        );
        let bridge_entry = match &ctx.bridge_request_raw {
            Some(data) => Some(system_calls::copy_bytes(data)),
            None => None,
        };
        let dao_fork = if chain.ethereum_fork_activation(
            EthereumHardfork::Dao,
        ).transitions_at_block(block.number.saturating_to_u64()) {
            Some(dao)
        } else {
            None
        };
        let staking_call = system_calls::staking_distribution_call(
            chain,
            ctx.timestamp,
            &ctx.withdrawals,
        );
        FinishPlan { prague_active, bridge_call, bridge_entry, dao_fork, staking_call }
    }
}

/// What is waited for while a block is finished.
#[derive(Debug, Clone, Copy)]
pub enum FinishStage {
    /// The deposits of the block.
    Deposits,
    /// The requests of the post-execution system calls.
    PostExecutionRequests,
    /// The bridge call.
    BridgeCall,
    /// The commit of the state that the bridge call left.
    BridgeCommit,
    /// The balance increments of the block.
    Increments,
    /// The balances that the DAO fork takes away.
    Drain {
        /// The account that receives them.
        beneficiary: Address,
    },
    /// The application of the balance increments.
    Increment,
    /// The staking call.
    StakingCall,
    /// The commit of the state that the staking call left.
    StakingCommit,
    /// The report of the balance increments.
    Report,
}

/// A call to make while a block is finished. `State` is the state that a system call leaves.
#[derive(Debug)]
pub enum FinishAction<State> {
    /// Collect the deposits from the receipts of the block.
    ParseDeposits,
    /// Make the post-execution system calls and collect their requests.
    ApplyPostExecutionChanges,
    /// Make a system call.
    TransactSystemCall {
        /// What the call is made for.
        purpose: StateChangePostBlockSource,
        /// The call.
        call: SystemCall,
    },
    /// Report a state to the state hook, then commit it.
    CommitState {
        /// Where the state comes from.
        source: StateChangePostBlockSource,
        /// The state.
        state: State,
    },
    /// Collect the balance increments of the block.
    CollectBalanceIncrements,
    /// Set the balance of the accounts to zero and return what they held.
    DrainBalances(Vec<Address>),
    /// Apply the balance increments.
    IncrementBalances(BalanceIncrements),
    /// Report the accounts that were incremented to the state hook.
    ReportBalanceIncrements(BalanceIncrements),
}

/// What a [`FinishAction`] returned. `State` is the state that a system call leaves, `E` the error
/// of a call.
#[derive(Debug)]
pub enum FinishReply<State, E> {
    /// The data of the deposit request.
    Deposits(Result<Vec<u8>, E>),
    /// The requests of the post-execution system calls.
    PostExecutionRequests(Result<Requests, E>),
    /// The state that a system call left, or what it failed for.
    SystemCall(Result<State, String>),
    /// The state was reported and committed.
    StateCommitted,
    /// The balance increments.
    BalanceIncrements(BalanceIncrements),
    /// What the drained accounts held; `None` where draining failed.
    Drained(Option<Vec<u128>>),
    /// Whether the balance increments were applied.
    BalancesIncremented(bool),
    /// The balance increments were reported.
    Reported(Result<(), E>),
}

/// The value of a [`FinishAction`].
pub enum FinishActionView<State> {
    /// Collect the deposits from the receipts of the block.
    ParseDeposits,
    /// Make the post-execution system calls and collect their requests.
    ApplyPostExecutionChanges,
    /// Make a system call.
    TransactSystemCall {
        /// What the call is made for.
        purpose: StateChangePostBlockSource,
        /// The call.
        call: SystemCallView,
    },
    /// Report a state to the state hook, then commit it.
    CommitState {
        /// Where the state comes from.
        source: StateChangePostBlockSource,
        /// The state.
        state: State,
    },
    /// Collect the balance increments of the block.
    CollectBalanceIncrements,
    /// Set the balance of the accounts to zero and return what they held.
    DrainBalances(Seq<Address>),
    /// Apply the balance increments.
    IncrementBalances(Map<Address, u128>),
    /// Report the accounts that were incremented to the state hook.
    ReportBalanceIncrements(Map<Address, u128>),
}

impl<State> View for FinishAction<State> {
    type V = FinishActionView<State>;

    open spec fn view(&self) -> FinishActionView<State> {
        match *self {
            FinishAction::ParseDeposits => FinishActionView::ParseDeposits,
            FinishAction::ApplyPostExecutionChanges => FinishActionView::ApplyPostExecutionChanges,
            FinishAction::TransactSystemCall { purpose, call } => {
                FinishActionView::TransactSystemCall { purpose, call: call@ }
            },
            FinishAction::CommitState { source, state } => {
                FinishActionView::CommitState { source, state }
            },
            FinishAction::CollectBalanceIncrements => FinishActionView::CollectBalanceIncrements,
            FinishAction::DrainBalances(accounts) => FinishActionView::DrainBalances(accounts@),
            FinishAction::IncrementBalances(increments) => {
                FinishActionView::IncrementBalances(increments@)
            },
            FinishAction::ReportBalanceIncrements(increments) => {
                FinishActionView::ReportBalanceIncrements(increments@)
            },
        }
    }
}

impl<State> FinishActionView<State> {
    /// Where the change comes from that the call reports to the state hook: the commit of a state
    /// says so itself, the report of the balance increments is that of a change of balances. `None`
    /// for the other calls, for which nothing is decided here.
    pub open spec fn reported_as(self) -> Option<StateChangeSource> {
        match self {
            FinishActionView::CommitState { source, state } => Some(
                StateChangeSource::PostBlock(source),
            ),
            FinishActionView::ReportBalanceIncrements(increments) => Some(
                StateChangeSource::PostBlock(StateChangePostBlockSource::BalanceIncrements),
            ),
            _ => None,
        }
    }
}

impl<State> FinishAction<State> {
    /// Where the change comes from that the call reports to the state hook; `None` for a call for
    /// which that is not decided here.
    pub fn state_change_source(&self) -> (source: Option<StateChangeSource>)
        ensures
            source == self@.reported_as(),
    {
        match self {
            FinishAction::CommitState { source, state: _ } => Some(
                StateChangeSource::PostBlock(*source),
            ),
            FinishAction::ReportBalanceIncrements(_) => Some(
                StateChangeSource::PostBlock(StateChangePostBlockSource::BalanceIncrements),
            ),
            _ => None,
        }
    }
}

/// The value of a [`FinishReply`].
pub enum FinishReplyView<State, E> {
    /// The data of the deposit request.
    Deposits(Result<Seq<u8>, E>),
    /// The requests of the post-execution system calls.
    PostExecutionRequests(Result<Seq<Seq<u8>>, E>),
    /// The state that a system call left, or what it failed for.
    SystemCall(Result<State, Seq<char>>),
    /// The state was reported and committed.
    StateCommitted,
    /// The balance increments.
    BalanceIncrements(Map<Address, u128>),
    /// What the drained accounts held; `None` where draining failed.
    Drained(Option<Seq<u128>>),
    /// Whether the balance increments were applied.
    BalancesIncremented(bool),
    /// The balance increments were reported.
    Reported(Result<(), E>),
}

impl<State, E> View for FinishReply<State, E> {
    type V = FinishReplyView<State, E>;

    open spec fn view(&self) -> FinishReplyView<State, E> {
        match *self {
            FinishReply::Deposits(Ok(data)) => FinishReplyView::Deposits(Ok(data@)),
            FinishReply::Deposits(Err(error)) => FinishReplyView::Deposits(Err(error)),
            FinishReply::PostExecutionRequests(Ok(list)) => {
                FinishReplyView::PostExecutionRequests(Ok(requests::request_list(list)))
            },
            FinishReply::PostExecutionRequests(Err(error)) => {
                FinishReplyView::PostExecutionRequests(Err(error))
            },
            FinishReply::SystemCall(Ok(state)) => FinishReplyView::SystemCall(Ok(state)),
            FinishReply::SystemCall(Err(reason)) => FinishReplyView::SystemCall(Err(reason@)),
            FinishReply::StateCommitted => FinishReplyView::StateCommitted,
            FinishReply::BalanceIncrements(increments) => {
                FinishReplyView::BalanceIncrements(increments@)
            },
            FinishReply::Drained(Some(amounts)) => FinishReplyView::Drained(Some(amounts@)),
            FinishReply::Drained(None) => FinishReplyView::Drained(None),
            FinishReply::BalancesIncremented(applied) => {
                FinishReplyView::BalancesIncremented(applied)
            },
            FinishReply::Reported(result) => FinishReplyView::Reported(result),
        }
    }
}

/// How far the finishing of a block is.
pub struct FinishState {
    /// What finishing the block involves.
    pub plan: FinishPlanView,
    /// What is waited for.
    pub stage: FinishStage,
    /// The requests that have been collected.
    pub requests: Seq<Seq<u8>>,
    /// The balance increments of the block.
    pub increments: Map<Address, u128>,
}

/// What follows a reply: another call, the requests of the finished block, or an error.
pub enum FinishProgressView<State, E> {
    /// There is a call to make.
    Pending(FinishState, FinishActionView<State>),
    /// The block is finished.
    Done(Seq<Seq<u8>>),
    /// The block is invalid or could not be finished.
    Failed(BlockExecutionErrorView<E>),
}

/// `state`, waiting for what `action` returns.
pub open spec fn waiting<State, E>(
    state: FinishState,
    stage: FinishStage,
    action: FinishActionView<State>,
) -> FinishProgressView<State, E> {
    FinishProgressView::Pending(FinishState { stage, ..state }, action)
}

/// How finishing a block starts: with the requests where Prague is active.
pub open spec fn start<State, E>(plan: FinishPlanView) -> FinishProgressView<State, E> {
    let state = FinishState {
        plan,
        stage: FinishStage::Deposits,
        requests: seq![],
        increments: Map::empty(),
    };
    if plan.prague_active {
        waiting(state, FinishStage::Deposits, FinishActionView::ParseDeposits)
    } else {
        after_requests(state)
    }
}

/// What follows the requests of the system calls: the bridge call, where there is one.
pub open spec fn after_requests<State, E>(state: FinishState) -> FinishProgressView<State, E> {
    match state.plan.bridge_call {
        Some(call) => waiting(
            state,
            FinishStage::BridgeCall,
            FinishActionView::TransactSystemCall {
                purpose: StateChangePostBlockSource::BridgeExecution,
                call,
            },
        ),
        None => after_bridge(state),
    }
}

/// The bridge entry that `plan` adds to the requests.
pub open spec fn bridge_request(plan: FinishPlanView) -> Seq<Seq<u8>> {
    if plan.prague_active && plan.bridge_entry is Some {
        requests::typed_request(requests::BRIDGE_REQUEST_TYPE, plan.bridge_entry->0)
    } else {
        seq![]
    }
}

/// What follows the bridge call: its entry joins the requests, then come the balance increments.
pub open spec fn after_bridge<State, E>(state: FinishState) -> FinishProgressView<State, E> {
    waiting(
        FinishState { requests: state.requests + bridge_request(state.plan), ..state },
        FinishStage::Increments,
        FinishActionView::CollectBalanceIncrements,
    )
}

/// What follows the collection of the balance increments: the DAO fork, where this is its block.
pub open spec fn after_collecting<State, E>(state: FinishState) -> FinishProgressView<State, E> {
    match state.plan.dao_fork {
        Some(dao) => waiting(
            state,
            FinishStage::Drain { beneficiary: dao.beneficiary },
            FinishActionView::DrainBalances(dao.accounts),
        ),
        None => after_dao(state),
    }
}

/// What follows the DAO fork: the application of the balance increments.
pub open spec fn after_dao<State, E>(state: FinishState) -> FinishProgressView<State, E> {
    waiting(
        state,
        FinishStage::Increment,
        FinishActionView::IncrementBalances(state.increments),
    )
}

/// What follows the balance increments: the staking call, where there is one.
pub open spec fn after_incrementing<State, E>(state: FinishState) -> FinishProgressView<State, E> {
    match state.plan.staking_call {
        Some(call) => waiting(
            state,
            FinishStage::StakingCall,
            FinishActionView::TransactSystemCall {
                purpose: StateChangePostBlockSource::StakingDistribution,
                call,
            },
        ),
        None => after_staking(state),
    }
}

/// What follows the staking call: the report of the balance increments.
pub open spec fn after_staking<State, E>(state: FinishState) -> FinishProgressView<State, E> {
    waiting(
        state,
        FinishStage::Report,
        FinishActionView::ReportBalanceIncrements(state.increments),
    )
}

/// Whether `reply` is one that `state` waits for. The sum of drained balances fits, with what the
/// beneficiary receives already, into the type of a balance.
pub open spec fn awaited<State, E>(state: FinishState, reply: FinishReplyView<State, E>) -> bool {
    match state.stage {
        FinishStage::Deposits => reply is Deposits,
        FinishStage::PostExecutionRequests => reply is PostExecutionRequests,
        FinishStage::BridgeCall => reply is SystemCall,
        FinishStage::BridgeCommit => reply is StateCommitted,
        FinishStage::Increments => reply is BalanceIncrements,
        FinishStage::Drain { beneficiary } => reply matches FinishReplyView::Drained(drained)
            && (drained is Some ==> balances::amount_in(state.increments, beneficiary)
            + balances::sum(drained->0) <= u128::MAX),
        FinishStage::Increment => reply is BalancesIncremented,
        FinishStage::StakingCall => reply is SystemCall,
        FinishStage::StakingCommit => reply is StateCommitted,
        FinishStage::Report => reply is Reported,
    }
}

/// What follows `reply` in `state`.
///
/// A failure ends the block, except that of the staking call, which is passed over.
pub open spec fn step<State, E>(
    state: FinishState,
    reply: FinishReplyView<State, E>,
) -> FinishProgressView<State, E> {
    let increment_failed = FinishProgressView::Failed(
        BlockExecutionErrorView::Validation(BlockValidationError::IncrementBalanceFailed),
    );
    match (state.stage, reply) {
        (FinishStage::Deposits, FinishReplyView::Deposits(Ok(data))) => waiting(
            FinishState {
                requests: state.requests + requests::typed_request(0, data),
                ..state
            },
            FinishStage::PostExecutionRequests,
            FinishActionView::ApplyPostExecutionChanges,
        ),
        (FinishStage::Deposits, FinishReplyView::Deposits(Err(error))) => {
            FinishProgressView::Failed(BlockExecutionErrorView::Call(error))
        },
        (
            FinishStage::PostExecutionRequests,
            FinishReplyView::PostExecutionRequests(Ok(more)),
        ) => after_requests(FinishState { requests: state.requests + more, ..state }),
        (
            FinishStage::PostExecutionRequests,
            FinishReplyView::PostExecutionRequests(Err(error)),
        ) => FinishProgressView::Failed(BlockExecutionErrorView::Call(error)),
        (FinishStage::BridgeCall, FinishReplyView::SystemCall(Ok(left))) => waiting(
            state,
            FinishStage::BridgeCommit,
            FinishActionView::CommitState {
                source: StateChangePostBlockSource::BridgeExecution,
                state: left,
            },
        ),
        (FinishStage::BridgeCall, FinishReplyView::SystemCall(Err(reason))) => {
            FinishProgressView::Failed(
                BlockExecutionErrorView::Message(system_calls::bridge_failure(reason)),
            )
        },
        (FinishStage::BridgeCommit, _) => after_bridge(state),
        (FinishStage::Increments, FinishReplyView::BalanceIncrements(increments)) => {
            after_collecting(FinishState { increments, ..state })
        },
        (FinishStage::Drain { beneficiary }, FinishReplyView::Drained(Some(amounts))) => after_dao(
            FinishState {
                increments: balances::with_amount(
                    state.increments,
                    beneficiary,
                    balances::sum(amounts),
                ),
                ..state
            },
        ),
        (FinishStage::Drain { beneficiary }, _) => increment_failed,
        (FinishStage::Increment, FinishReplyView::BalancesIncremented(applied)) => if applied {
            after_incrementing(state)
        } else {
            increment_failed
        },
        (FinishStage::StakingCall, FinishReplyView::SystemCall(Ok(left))) => waiting(
            state,
            FinishStage::StakingCommit,
            FinishActionView::CommitState {
                source: StateChangePostBlockSource::StakingDistribution,
                state: left,
            },
        ),
        (FinishStage::StakingCall, _) => after_staking(state),
        (FinishStage::StakingCommit, _) => after_staking(state),
        (FinishStage::Report, FinishReplyView::Reported(Err(error))) => {
            FinishProgressView::Failed(BlockExecutionErrorView::Call(error))
        },
        _ => FinishProgressView::Done(state.requests),
    }
}

/// The result of a finished block.
#[derive(Debug)]
pub struct BlockExecutionResult<Receipt> {
    /// The receipts of all transactions.
    pub receipts: Vec<Receipt>,
    /// The requests of the block.
    pub requests: Requests,
    /// The gas that the block used.
    pub gas_used: u64,
}

/// A block that is being finished.
pub struct Finish<'a, Evm, Spec, R: ReceiptBuilder> {
    executor: EthBlockExecutor<'a, Evm, Spec, R>,
    plan: FinishPlan,
    stage: FinishStage,
    requests: Requests,
    increments: BalanceIncrements,
}

/// What follows a reply.
pub enum FinishProgress<'a, Evm, Spec, R: ReceiptBuilder, State, E> {
    /// There is a call to make.
    Pending {
        /// The block, waiting for what the call returns.
        block: Finish<'a, Evm, Spec, R>,
        /// The call.
        action: FinishAction<State>,
    },
    /// The block is finished.
    Done {
        /// The EVM.
        evm: Evm,
        /// The result.
        result: BlockExecutionResult<R::Receipt>,
    },
    /// The block is invalid or could not be finished.
    Failed(BlockExecutionError<E>),
}

impl<'a, Evm, Spec, R: ReceiptBuilder> View for Finish<'a, Evm, Spec, R> {
    type V = FinishState;

    closed spec fn view(&self) -> FinishState {
        FinishState {
            plan: self.plan@,
            stage: self.stage,
            requests: requests::request_list(self.requests),
            increments: self.increments@,
        }
    }
}

impl<'a, Evm, Spec, R: ReceiptBuilder, State, E> View for FinishProgress<
    'a,
    Evm,
    Spec,
    R,
    State,
    E,
> {
    type V = FinishProgressView<State, E>;

    open spec fn view(&self) -> FinishProgressView<State, E> {
        match *self {
            FinishProgress::Pending { block, action } => {
                FinishProgressView::Pending(block@, action@)
            },
            FinishProgress::Done { evm, result } => {
                FinishProgressView::Done(requests::request_list(result.requests))
            },
            FinishProgress::Failed(error) => FinishProgressView::Failed(error@),
        }
    }
}

impl<'a, Evm, Spec, R: ReceiptBuilder, State, E> FinishProgress<'a, Evm, Spec, R, State, E> {
    /// Whether `executor` is the one that finishes the block or, once the block is finished, the
    /// one that it was finished by.
    pub open spec fn finishes(self, executor: EthBlockExecutorView<'a, Evm, Spec, R>) -> bool {
        match self {
            FinishProgress::Pending { block, action } => block.executing() == executor,
            FinishProgress::Done { evm, result } => {
                &&& evm == executor.evm
                &&& result.receipts@ == executor.receipts
                &&& result.gas_used == executor.gas_used
            },
            FinishProgress::Failed(error) => true,
        }
    }
}

impl<'a, Evm, Spec: EthExecutorSpec, R: ReceiptBuilder> EthBlockExecutor<'a, Evm, Spec, R> {
    /// Starts to finish the block. `dao` is the DAO fork, for the block that is its first.
    pub fn finish<State, E>(self, block: &BlockEnv, dao: DaoFork) -> (progress: FinishProgress<
        'a,
        Evm,
        Spec,
        R,
        State,
        E,
    >)
        ensures
            exists|plan: FinishPlanView| #[trigger]
                plan_due(self@, *block, dao@, plan) && progress@ == start::<State, E>(plan),
            progress.finishes(self@),
    {
        let plan = self.finish_plan(block, dao);
        let prague_active = plan.prague_active;
        let block = Finish {
            executor: self,
            plan,
            stage: FinishStage::Deposits,
            requests: requests::no_requests(),
            increments: BalanceIncrements::new(),
        };
        if prague_active {
            FinishProgress::Pending { block, action: FinishAction::ParseDeposits }
        } else {
            block.after_requests()
        }
    }
}

impl<'a, Evm, Spec, R: ReceiptBuilder> Finish<'a, Evm, Spec, R> {
    /// The executor of the block.
    pub closed spec fn executing(self) -> EthBlockExecutorView<'a, Evm, Spec, R> {
        self.executor@
    }

    /// The executor of the block.
    pub fn executor(&self) -> (executor: &EthBlockExecutor<'a, Evm, Spec, R>)
        ensures
            executor@ == self.executing(),
    {
        &self.executor
    }

    /// The EVM, for a change.
    pub fn evm_mut(&mut self) -> (evm: &mut Evm)
        ensures
            *evm == old(self).executing().evm,
            final(self).executing() == (EthBlockExecutorView {
                evm: *final(evm),
                ..old(self).executing()
            }),
            final(self)@ == old(self)@,
    {
        self.executor.evm_mut()
    }

    /// Checks whether `reply` is one that the block waits for.
    pub fn accepts<State, E>(&self, reply: &FinishReply<State, E>) -> (accepted: bool)
        ensures
            accepted == awaited(self@, reply@),
    {
        match (self.stage, reply) {
            (FinishStage::Deposits, FinishReply::Deposits(_)) => true,
            (FinishStage::PostExecutionRequests, FinishReply::PostExecutionRequests(_)) => true,
            (FinishStage::BridgeCall, FinishReply::SystemCall(_)) => true,
            (FinishStage::BridgeCommit, FinishReply::StateCommitted) => true,
            (FinishStage::Increments, FinishReply::BalanceIncrements(_)) => true,
            (FinishStage::Drain { beneficiary: _ }, FinishReply::Drained(None)) => true,
            (FinishStage::Drain { beneficiary }, FinishReply::Drained(Some(amounts))) => {
                match balances::total(amounts) {
                    Some(drained) => drained <= u128::MAX - self.increments.amount(beneficiary),
                    None => false,
                }
            },
            (FinishStage::Increment, FinishReply::BalancesIncremented(_)) => true,
            (FinishStage::StakingCall, FinishReply::SystemCall(_)) => true,
            (FinishStage::StakingCommit, FinishReply::StateCommitted) => true,
            (FinishStage::Report, FinishReply::Reported(_)) => true,
            _ => false,
        }
    }

    /// What follows a reply of the call that is waited for.
    pub fn resume<State, E>(self, reply: FinishReply<State, E>) -> (progress: FinishProgress<
        'a,
        Evm,
        Spec,
        R,
        State,
        E,
    >)
        requires
            awaited(self@, reply@),
        ensures
            progress@ == step(self@, reply@),
            progress.finishes(self.executing()),
    {
        let mut block = self;
        match (block.stage, reply) {
            (FinishStage::Deposits, FinishReply::Deposits(Ok(data))) => {
                requests::push_request_with_type(
                    &mut block.requests,
                    requests::deposit_request_type(),
                    data,
                );
                block.stage = FinishStage::PostExecutionRequests;
                FinishProgress::Pending { block, action: FinishAction::ApplyPostExecutionChanges }
            },
            (FinishStage::Deposits, FinishReply::Deposits(Err(error))) => {
                FinishProgress::Failed(BlockExecutionError::Call(error))
            },
            (
                FinishStage::PostExecutionRequests,
                FinishReply::PostExecutionRequests(Ok(more)),
            ) => {
                requests::extend_requests(&mut block.requests, more);
                block.after_requests()
            },
            (
                FinishStage::PostExecutionRequests,
                FinishReply::PostExecutionRequests(Err(error)),
            ) => FinishProgress::Failed(BlockExecutionError::Call(error)),
            (FinishStage::BridgeCall, FinishReply::SystemCall(Ok(state))) => {
                block.stage = FinishStage::BridgeCommit;
                let source = StateChangePostBlockSource::BridgeExecution;
                FinishProgress::Pending {
                    block,
                    action: FinishAction::CommitState { source, state },
                }
            },
            (FinishStage::BridgeCall, FinishReply::SystemCall(Err(reason))) => {
                let message = system_calls::bridge_failure_message(&reason);
                FinishProgress::Failed(BlockExecutionError::Message(message))
            },
            (FinishStage::BridgeCommit, _) => block.after_bridge(),
            (FinishStage::Increments, FinishReply::BalanceIncrements(increments)) => {
                block.increments = increments;
                block.after_collecting()
            },
            (FinishStage::Drain { beneficiary }, FinishReply::Drained(Some(amounts))) => {
                let drained: u128 = balances::total(&amounts).unwrap();
                block.increments = block.increments.increased(beneficiary, drained);
                block.after_dao()
            },
            (FinishStage::Drain { beneficiary: _ }, _) => {
                let error = BlockValidationError::IncrementBalanceFailed;
                FinishProgress::Failed(BlockExecutionError::Validation(error))
            },
            (FinishStage::Increment, FinishReply::BalancesIncremented(applied)) => {
                if applied {
                    block.after_incrementing()
                } else {
                    let error = BlockValidationError::IncrementBalanceFailed;
                    FinishProgress::Failed(BlockExecutionError::Validation(error))
                }
            },
            (FinishStage::StakingCall, FinishReply::SystemCall(Ok(state))) => {
                block.stage = FinishStage::StakingCommit;
                let source = StateChangePostBlockSource::StakingDistribution;
                FinishProgress::Pending {
                    block,
                    action: FinishAction::CommitState { source, state },
                }
            },
            (FinishStage::StakingCall, _) => block.after_staking(),
            (FinishStage::StakingCommit, _) => block.after_staking(),
            (FinishStage::Report, FinishReply::Reported(Err(error))) => {
                FinishProgress::Failed(BlockExecutionError::Call(error))
            },
            _ => {
                let requests = block.requests;
                let (evm, receipts, gas_used) = block.executor.into_parts();
                FinishProgress::Done {
                    evm,
                    result: BlockExecutionResult { receipts, requests, gas_used },
                }
            },
        }
    }

    fn after_requests<State, E>(self) -> (progress: FinishProgress<'a, Evm, Spec, R, State, E>)
        ensures
            progress@ == after_requests::<State, E>(self@),
            progress.finishes(self.executing()),
    {
        let mut block = self;
        let call = match &block.plan.bridge_call {
            Some(call) => call.clone(),
            None => {
                return block.after_bridge();
            },
        };
        block.stage = FinishStage::BridgeCall;
        let purpose = StateChangePostBlockSource::BridgeExecution;
        FinishProgress::Pending {
            block,
            action: FinishAction::TransactSystemCall { purpose, call },
        }
    }

    fn after_bridge<State, E>(self) -> (progress: FinishProgress<'a, Evm, Spec, R, State, E>)
        ensures
            progress@ == after_bridge::<State, E>(self@),
            progress.finishes(self.executing()),
    {
        let mut block = self;
        if block.plan.prague_active {
            if let Some(data) = &block.plan.bridge_entry {
                requests::push_request_with_type(
                    &mut block.requests,
                    requests::BRIDGE_REQUEST_TYPE,
                    system_calls::copy_bytes(data),
                );
            }
        }
        block.stage = FinishStage::Increments;
        assert(block@.requests =~= self@.requests + bridge_request(self@.plan));
        FinishProgress::Pending { block, action: FinishAction::CollectBalanceIncrements }
    }

    fn after_collecting<State, E>(self) -> (progress: FinishProgress<'a, Evm, Spec, R, State, E>)
        ensures
            progress@ == after_collecting::<State, E>(self@),
            progress.finishes(self.executing()),
    {
        let mut block = self;
        let (accounts, beneficiary) = match &block.plan.dao_fork {
            Some(dao) => (copy_addresses(&dao.accounts), dao.beneficiary),
            None => {
                return block.after_dao();
            },
        };
        block.stage = FinishStage::Drain { beneficiary };
        FinishProgress::Pending { block, action: FinishAction::DrainBalances(accounts) }
    }

    fn after_dao<State, E>(self) -> (progress: FinishProgress<'a, Evm, Spec, R, State, E>)
        ensures
            progress@ == after_dao::<State, E>(self@),
            progress.finishes(self.executing()),
    {
        let mut block = self;
        let increments = block.increments.clone();
        block.stage = FinishStage::Increment;
        FinishProgress::Pending { block, action: FinishAction::IncrementBalances(increments) }
    }

    fn after_incrementing<State, E>(self) -> (progress: FinishProgress<
        'a,
        Evm,
        Spec,
        R,
        State,
        E,
    >)
        ensures
            progress@ == after_incrementing::<State, E>(self@),
            progress.finishes(self.executing()),
    {
        let mut block = self;
        let call = match &block.plan.staking_call {
            Some(call) => call.clone(),
            None => {
                return block.after_staking();
            },
        };
        block.stage = FinishStage::StakingCall;
        let purpose = StateChangePostBlockSource::StakingDistribution;
        FinishProgress::Pending {
            block,
            action: FinishAction::TransactSystemCall { purpose, call },
        }
    }

    fn after_staking<State, E>(self) -> (progress: FinishProgress<'a, Evm, Spec, R, State, E>)
        ensures
            progress@ == after_staking::<State, E>(self@),
            progress.finishes(self.executing()),
    {
        let mut block = self;
        let increments = block.increments.clone();
        block.stage = FinishStage::Report;
        FinishProgress::Pending { block, action: FinishAction::ReportBalanceIncrements(increments) }
    }
}

/// Copies a list of addresses.
fn copy_addresses(addresses: &Vec<Address>) -> (copy: Vec<Address>)
    ensures
        copy@ == addresses@,
{
    let copy = addresses.clone();
    assert(copy@ =~= addresses@);
    copy
}

} // verus!
