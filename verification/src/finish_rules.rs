//! What finishing a block comes to, in terms of the block and of what the calls return.

use crate::balances;
use crate::block::{
    BlockEnv, EthBlockExecutor, EthBlockExecutorView, ReceiptBuilder, StateChangePostBlockSource,
    StateChangeSource,
};
use crate::error::{BlockExecutionError, BlockExecutionErrorView, BlockValidationError};
use crate::finish;
use crate::finish::{
    DaoFork, DaoForkView, Finish, FinishAction, FinishActionView, FinishPlan, FinishPlanView,
    FinishProgress, FinishProgressView, FinishReply, FinishReplyView, FinishStage, FinishState,
};
use crate::hardforks::{EthereumHardfork, ForkCondition};
use crate::laws;
use crate::laws::FinishFacts;
use crate::requests;
use crate::spec::EthExecutorSpec;
use crate::system_calls;
use vstd::prelude::*;

verus! {

/// What finishing a block involves follows from the block, its inputs and its chain.
///
/// Requests are collected where the chain says that Prague is bound to a time that the block has
/// reached. The bridge entry is the raw bridge bytes of the inputs, all of them, and there is none
/// where there are none. The DAO fork is part of it where the chain says that the fork is bound to
/// the number of the block. The bridge and staking calls are those that are due at the time of the
/// inputs, with their calldata and withdrawals.
pub proof fn law_plan_due<'a, Evm, Spec: EthExecutorSpec, R: ReceiptBuilder>(
    executor: EthBlockExecutorView<'a, Evm, Spec, R>,
    block: BlockEnv,
    dao: DaoForkView,
    plan: FinishPlanView,
)
    requires
        finish::plan_due(executor, block, dao, plan),
    ensures
        exists|condition: ForkCondition| #[trigger]
            call_ensures(
                Spec::ethereum_fork_activation,
                (&executor.chain, EthereumHardfork::Prague),
                condition,
            ) && (plan.prague_active <==> (condition matches ForkCondition::Timestamp(time)
                && block.timestamp.value() >= time)),
        match executor.ctx.bridge_request_raw {
            Some(raw) => plan.bridge_entry is Some && plan.bridge_entry->0 == raw@,
            None => plan.bridge_entry is None,
        },
        exists|condition: ForkCondition| #[trigger]
            call_ensures(
                Spec::ethereum_fork_activation,
                (&executor.chain, EthereumHardfork::Dao),
                condition,
            ) && (plan.dao_fork is Some <==> (condition matches ForkCondition::Block(number)
                && number == (if block.number.value() <= 0xffff_ffff_ffff_ffff {
                block.number.value()
            } else {
                0xffff_ffff_ffff_ffff
            }))),
        plan.dao_fork is Some ==> plan.dao_fork->0 == dao,
        system_calls::bridge_call_due(
            &executor.chain,
            executor.ctx.timestamp,
            match executor.ctx.bridge_request {
                Some(calldata) => Some(calldata@),
                None => None,
            },
            plan.bridge_call,
        ),
        system_calls::staking_call_due(
            &executor.chain,
            executor.ctx.timestamp,
            match executor.ctx.withdrawals {
                Some(list) => Some(list@),
                None => None,
            },
            plan.staking_call,
        ),
{
}

/// The plan of a block is one that is due, and says what its parts say.
pub proof fn law_finish_plan<'a, Evm, Spec: EthExecutorSpec, R: ReceiptBuilder>(
    executor: EthBlockExecutor<'a, Evm, Spec, R>,
    block: BlockEnv,
    dao: DaoFork,
    plan: FinishPlan,
)
    requires
        call_ensures(
            EthBlockExecutor::<'a, Evm, Spec, R>::finish_plan,
            (&executor, &block, dao),
            plan,
        ),
    ensures
        finish::plan_due(executor@, block, dao@, plan@),
        match executor@.ctx.bridge_request_raw {
            Some(raw) => plan.bridge_entry is Some && plan.bridge_entry->0@ == raw@,
            None => plan.bridge_entry is None,
        },
        plan.dao_fork is Some ==> plan.dao_fork->0.accounts@ == dao.accounts@
            && plan.dao_fork->0.beneficiary == dao.beneficiary,
{
}

/// A plan says what its parts say.
pub proof fn law_value_of_plan(plan: FinishPlan)
    ensures
        plan@.prague_active == plan.prague_active,
        match plan.bridge_call {
            Some(call) => plan@.bridge_call is Some && plan@.bridge_call->0.caller == call.caller
                && plan@.bridge_call->0.contract == call.contract && plan@.bridge_call->0.data
                == call.data@,
            None => plan@.bridge_call is None,
        },
        match plan.bridge_entry {
            Some(data) => plan@.bridge_entry is Some && plan@.bridge_entry->0 == data@,
            None => plan@.bridge_entry is None,
        },
        match plan.dao_fork {
            Some(dao) => plan@.dao_fork is Some && plan@.dao_fork->0.accounts == dao.accounts@
                && plan@.dao_fork->0.beneficiary == dao.beneficiary,
            None => plan@.dao_fork is None,
        },
        match plan.staking_call {
            Some(call) => plan@.staking_call is Some && plan@.staking_call->0.caller == call.caller
                && plan@.staking_call->0.contract == call.contract && plan@.staking_call->0.data
                == call.data@,
            None => plan@.staking_call is None,
        },
{
}

/// A call that is handed out says what its parts say.
pub proof fn law_value_of_action<State>(action: FinishAction<State>)
    ensures
        match action {
            FinishAction::ParseDeposits => action@ is ParseDeposits,
            FinishAction::ApplyPostExecutionChanges => action@ is ApplyPostExecutionChanges,
            FinishAction::TransactSystemCall { purpose, call } => action@
                matches FinishActionView::TransactSystemCall { purpose: said, call: told } && said
                == purpose && told.caller == call.caller && told.contract == call.contract
                && told.data == call.data@,
            FinishAction::CommitState { source, state } => action@
                matches FinishActionView::CommitState { source: said, state: told } && said == source
                && told == state,
            FinishAction::CollectBalanceIncrements => action@ is CollectBalanceIncrements,
            FinishAction::DrainBalances(accounts) => action@ matches FinishActionView::DrainBalances(
                told,
            ) && told == accounts@,
            FinishAction::IncrementBalances(increments) => action@
                matches FinishActionView::IncrementBalances(told) && told == increments@,
            FinishAction::ReportBalanceIncrements(increments) => action@
                matches FinishActionView::ReportBalanceIncrements(told) && told == increments@,
        },
{
}

/// A reply says what its parts say.
pub proof fn law_value_of_reply<State, E>(reply: FinishReply<State, E>)
    ensures
        match reply {
            FinishReply::Deposits(Ok(data)) => reply@ matches FinishReplyView::Deposits(Ok(told))
                && told == data@,
            FinishReply::Deposits(Err(error)) => reply@ matches FinishReplyView::Deposits(Err(told))
                && told == error,
            FinishReply::PostExecutionRequests(Ok(list)) => reply@
                matches FinishReplyView::PostExecutionRequests(Ok(told)) && told
                == requests::request_list(list),
            FinishReply::PostExecutionRequests(Err(error)) => reply@
                matches FinishReplyView::PostExecutionRequests(Err(told)) && told == error,
            FinishReply::SystemCall(Ok(state)) => reply@ matches FinishReplyView::SystemCall(
                Ok(told),
            ) && told == state,
            FinishReply::SystemCall(Err(reason)) => reply@ matches FinishReplyView::SystemCall(
                Err(told),
            ) && told == reason@,
            FinishReply::StateCommitted => reply@ is StateCommitted,
            FinishReply::BalanceIncrements(increments) => reply@
                matches FinishReplyView::BalanceIncrements(told) && told == increments@,
            FinishReply::Drained(Some(amounts)) => reply@ matches FinishReplyView::Drained(
                Some(told),
            ) && told == amounts@,
            FinishReply::Drained(None) => reply@ matches FinishReplyView::Drained(None),
            FinishReply::BalancesIncremented(applied) => reply@
                matches FinishReplyView::BalancesIncremented(told) && told == applied,
            FinishReply::Reported(Ok(_)) => reply@ matches FinishReplyView::Reported(Ok(_)),
            FinishReply::Reported(Err(error)) => reply@ matches FinishReplyView::Reported(Err(told))
                && told == error,
        },
{
}

/// An error says what its parts say.
pub proof fn law_value_of_error<E>(error: BlockExecutionError<E>)
    ensures
        match error {
            BlockExecutionError::Validation(inner) => error@
                matches BlockExecutionErrorView::Validation(told) && told == inner,
            BlockExecutionError::Transaction { hash, error: inner } => error@
                matches BlockExecutionErrorView::Transaction { hash: said, error: told } && said
                == hash && told == inner,
            BlockExecutionError::Call(inner) => error@ matches BlockExecutionErrorView::Call(told)
                && told == inner,
            BlockExecutionError::Message(text) => error@ matches BlockExecutionErrorView::Message(
                told,
            ) && told == text@,
        },
{
}

/// Progress says what its parts say. A finished block hands out the EVM, the receipts and the gas of
/// the executor that finished it, and one that waits keeps that executor.
pub proof fn law_value_of_progress<'a, Evm, Spec, R: ReceiptBuilder, State, E>(
    progress: FinishProgress<'a, Evm, Spec, R, State, E>,
    executor: EthBlockExecutorView<'a, Evm, Spec, R>,
)
    requires
        progress.finishes(executor),
    ensures
        match progress {
            FinishProgress::Pending { block, action } => progress@
                matches FinishProgressView::Pending(state, call) && state == block@ && call
                == action@ && block.executing() == executor,
            FinishProgress::Done { evm, result } => progress@ matches FinishProgressView::Done(list)
                && list == requests::request_list(result.requests) && evm == executor.evm
                && result.receipts@ == executor.receipts && result.gas_used == executor.gas_used,
            FinishProgress::Failed(error) => progress@ matches FinishProgressView::Failed(told)
                && told == error@,
        },
{
}

/// Finishing a block starts with a plan that is due, for the executor itself. Where the plan
/// collects requests, the deposits come first.
pub proof fn law_finish<'a, Evm, Spec: EthExecutorSpec, R: ReceiptBuilder, State, E>(
    executor: EthBlockExecutor<'a, Evm, Spec, R>,
    block: BlockEnv,
    dao: DaoFork,
    progress: FinishProgress<'a, Evm, Spec, R, State, E>,
)
    requires
        call_ensures(
            EthBlockExecutor::<'a, Evm, Spec, R>::finish::<State, E>,
            (executor, &block, dao),
            progress,
        ),
    ensures
        progress.finishes(executor@),
        exists|plan: FinishPlanView| #[trigger]
            finish::plan_due(executor@, block, dao@, plan) && progress@ == finish::start::<State, E>(
                plan,
            ) && (plan.prague_active <==> (progress matches FinishProgress::Pending { action, .. }
                && action is ParseDeposits)),
{
}

/// What follows a reply is a function of where the block stands and of the reply, and the executor
/// stays the one that it was.
pub proof fn law_resume<'a, Evm, Spec, R: ReceiptBuilder, State, E>(
    block: Finish<'a, Evm, Spec, R>,
    reply: FinishReply<State, E>,
    progress: FinishProgress<'a, Evm, Spec, R, State, E>,
)
    requires
        call_ensures(Finish::<'a, Evm, Spec, R>::resume::<State, E>, (block, reply), progress),
    ensures
        progress@ == finish::step(block@, reply@),
        progress.finishes(block.executing()),
{
}

/// A block that is being finished tells the executor that finishes it.
pub proof fn law_finishing_executor<'a, Evm, Spec, R: ReceiptBuilder>(
    block: Finish<'a, Evm, Spec, R>,
    executor: EthBlockExecutor<'a, Evm, Spec, R>,
)
    requires
        call_ensures(Finish::<'a, Evm, Spec, R>::executor, (&block,), &executor),
    ensures
        executor@ == block.executing(),
{
}

/// What is done to the EVM of a block that is being finished is done to it alone.
pub proof fn law_finishing_evm<'a, Evm, Spec, R: ReceiptBuilder>(
    block: &mut Finish<'a, Evm, Spec, R>,
    evm: &mut Evm,
)
    requires
        call_ensures(Finish::<'a, Evm, Spec, R>::evm_mut, (block,), evm),
    ensures
        *old(evm) == old(block).executing().evm,
        final(block).executing().evm == *final(evm),
        final(block).executing().chain == old(block).executing().chain,
        final(block).executing().ctx == old(block).executing().ctx,
        final(block).executing().receipt_builder == old(block).executing().receipt_builder,
        final(block).executing().receipts == old(block).executing().receipts,
        final(block).executing().gas_used == old(block).executing().gas_used,
        final(block)@ == old(block)@,
{
}

/// A reply is taken exactly where it is of the kind that the block waits for. Balances that were
/// drained are taken where they fit, with what the beneficiary is to receive already, into 128 bits.
pub proof fn law_accepts<'a, Evm, Spec, R: ReceiptBuilder, State, E>(
    block: Finish<'a, Evm, Spec, R>,
    reply: FinishReply<State, E>,
    accepted: bool,
)
    requires
        call_ensures(Finish::<'a, Evm, Spec, R>::accepts::<State, E>, (&block, &reply), accepted),
    ensures
        accepted <==> finish::awaited(block@, reply@),
        accepted <==> match block@.stage {
            FinishStage::Deposits => reply is Deposits,
            FinishStage::PostExecutionRequests => reply is PostExecutionRequests,
            FinishStage::BridgeCall | FinishStage::StakingCall => reply is SystemCall,
            FinishStage::BridgeCommit | FinishStage::StakingCommit => reply is StateCommitted,
            FinishStage::Increments => reply is BalanceIncrements,
            FinishStage::Drain { beneficiary } => match reply {
                FinishReply::Drained(Some(amounts)) => (if block@.increments.contains_key(
                    beneficiary,
                ) {
                    block@.increments[beneficiary] as nat
                } else {
                    0
                }) + balances::sum(amounts@) <= 0xffff_ffff_ffff_ffff_ffff_ffff_ffff_ffff,
                FinishReply::Drained(None) => true,
                _ => false,
            },
            FinishStage::Increment => reply is BalancesIncremented,
            FinishStage::Report => reply is Reported,
        },
{
}

/// What is reported to the state hook: a committed state under its own source, the balance
/// increments under theirs. No other call is given a source.
pub proof fn law_reported_source<State>(
    action: FinishAction<State>,
    source: Option<StateChangeSource>,
)
    requires
        call_ensures(FinishAction::<State>::state_change_source, (&action,), source),
    ensures
        match action {
            FinishAction::CommitState { source: stated, state } => source == Some(
                StateChangeSource::PostBlock(stated),
            ),
            FinishAction::ReportBalanceIncrements(increments) => source == Some(
                StateChangeSource::PostBlock(StateChangePostBlockSource::BalanceIncrements),
            ),
            _ => source is None,
        },
        action@.reported_as() == source,
{
}

/// Which replies end a block, and with which error. A call that collects requests and the report of
/// the increments hand on their error. A failed bridge call is put in words. Balances that cannot be
/// drained or incremented make the block invalid. No other reply ends a block with an error, not
/// even a failed staking call.
pub proof fn law_errors<State, E>(state: FinishState, reply: FinishReplyView<State, E>)
    requires
        finish::awaited(state, reply),
    ensures
        match reply {
            FinishReplyView::Deposits(Err(error)) => finish::step(state, reply)
                == FinishProgressView::<State, E>::Failed(BlockExecutionErrorView::Call(error)),
            FinishReplyView::PostExecutionRequests(Err(error)) => finish::step(state, reply)
                == FinishProgressView::<State, E>::Failed(BlockExecutionErrorView::Call(error)),
            FinishReplyView::Reported(Err(error)) => finish::step(state, reply)
                == FinishProgressView::<State, E>::Failed(BlockExecutionErrorView::Call(error)),
            FinishReplyView::Drained(None) | FinishReplyView::BalancesIncremented(false) =>
                finish::step(state, reply) == FinishProgressView::<State, E>::Failed(
                BlockExecutionErrorView::Validation(BlockValidationError::IncrementBalanceFailed),
            ),
            FinishReplyView::SystemCall(Err(reason)) => if state.stage is BridgeCall {
                finish::step(state, reply) == FinishProgressView::<State, E>::Failed(
                    BlockExecutionErrorView::Message(
                        "0G bridge system call execution failed: "@ + reason,
                    ),
                )
            } else {
                finish::step(state, reply) is Pending
            },
            FinishReplyView::Reported(Ok(_)) => finish::step(state, reply)
                == FinishProgressView::<State, E>::Done(state.requests),
            _ => finish::step(state, reply) is Pending,
        },
{
}

/// A block that is finished, call by call and reply by reply, whatever came back.
///
/// With `p` calls for the requests, `b` for the bridge and `d` for the DAO fork: the deposits and the
/// post-execution changes come first; the bridge call follows, and the commit of what it left; then
/// the increments are collected, the accounts of the DAO fork drained, and the increments applied.
/// The staking call is next, and the commit of what it left unless it failed. The report of the
/// increments that were applied is the last. What was drained is added to the beneficiary.
pub proof fn law_finished_call_by_call<State, E>(
    plan: FinishPlanView,
    replies: Seq<FinishReplyView<State, E>>,
)
    requires
        laws::answered(finish::start::<State, E>(plan), replies),
        laws::run(finish::start::<State, E>(plan), replies) is Done,
    ensures
        ({
            let made = laws::calls(finish::start::<State, E>(plan), replies);
            let p: int = if plan.prague_active { 2 } else { 0 };
            let b: int = if plan.bridge_call is Some { 2 } else { 0 };
            let d: int = if plan.dao_fork is Some { 1 } else { 0 };
            let k = p + b + d + 2;
            let s: int = if plan.staking_call is None {
                0
            } else if replies[k]->SystemCall_0 is Ok {
                2
            } else {
                1
            };
            let collected = replies[p + b]->BalanceIncrements_0;
            let drained = replies[p + b + 1]->Drained_0->0;
            let increments = made[p + b + d + 1]->IncrementBalances_0;
            &&& made.len() == k + s + 1
            &&& replies.len() == k + s + 1
            &&& plan.prague_active ==> {
                &&& made[0] is ParseDeposits
                &&& replies[0] is Deposits && replies[0]->Deposits_0 is Ok
                &&& made[1] is ApplyPostExecutionChanges
                &&& replies[1] is PostExecutionRequests && replies[1]->PostExecutionRequests_0 is Ok
            }
            &&& plan.bridge_call matches Some(call) ==> {
                &&& made[p] == FinishActionView::<State>::TransactSystemCall {
                    purpose: StateChangePostBlockSource::BridgeExecution,
                    call,
                }
                &&& replies[p] is SystemCall && replies[p]->SystemCall_0 is Ok
                &&& made[p + 1] == FinishActionView::<State>::CommitState {
                    source: StateChangePostBlockSource::BridgeExecution,
                    state: replies[p]->SystemCall_0->Ok_0,
                }
                &&& replies[p + 1] is StateCommitted
            }
            &&& made[p + b] is CollectBalanceIncrements
            &&& replies[p + b] is BalanceIncrements
            &&& match plan.dao_fork {
                Some(dao) => {
                    &&& made[p + b + 1] == FinishActionView::<State>::DrainBalances(dao.accounts)
                    &&& replies[p + b + 1] is Drained && replies[p + b + 1]->Drained_0 is Some
                    &&& increments.contains_key(dao.beneficiary)
                    &&& increments[dao.beneficiary] == (if collected.contains_key(dao.beneficiary) {
                        collected[dao.beneficiary] as nat
                    } else {
                        0
                    }) + balances::sum(drained)
                    &&& increments.remove(dao.beneficiary) == collected.remove(dao.beneficiary)
                },
                None => increments == collected,
            }
            &&& made[p + b + d + 1] is IncrementBalances
            &&& replies[p + b + d + 1] == FinishReplyView::<State, E>::BalancesIncremented(true)
            &&& plan.staking_call matches Some(call) ==> {
                &&& made[k] == FinishActionView::<State>::TransactSystemCall {
                    purpose: StateChangePostBlockSource::StakingDistribution,
                    call,
                }
                &&& replies[k] is SystemCall
                &&& replies[k]->SystemCall_0 is Ok ==> made[k + 1]
                    == FinishActionView::<State>::CommitState {
                    source: StateChangePostBlockSource::StakingDistribution,
                    state: replies[k]->SystemCall_0->Ok_0,
                } && replies[k + 1] is StateCommitted
            }
            &&& made[k + s] == FinishActionView::<State>::ReportBalanceIncrements(increments)
            &&& replies[k + s] is Reported && replies[k + s]->Reported_0 is Ok
        }),
{
    let facts = laws::law_finished_block::<State, E>(plan, replies);
    let made = laws::block_calls(plan, facts);
    match plan.dao_fork {
        Some(dao) => {
            let increments = laws::block_increments(plan, facts);
            assert(increments.remove(dao.beneficiary) =~= facts.collected.remove(dao.beneficiary));
        },
        None => {},
    }
}

/// The requests of a finished block, in terms of its inputs and of what the calls returned. Before
/// Prague there are none. From Prague on they are the deposits behind a zero byte, unless there are
/// none; what the post-execution changes returned; and the raw bridge bytes of the inputs behind the
/// byte 0xf0, all of them, unless there are none.
pub proof fn law_finished_requests<'a, Evm, Spec: EthExecutorSpec, R: ReceiptBuilder, State, E>(
    executor: EthBlockExecutorView<'a, Evm, Spec, R>,
    block: BlockEnv,
    dao: DaoForkView,
    plan: FinishPlanView,
    replies: Seq<FinishReplyView<State, E>>,
    list: Seq<Seq<u8>>,
)
    requires
        finish::plan_due(executor, block, dao, plan),
        laws::answered(finish::start::<State, E>(plan), replies),
        laws::run(finish::start::<State, E>(plan), replies) == FinishProgressView::<State, E>::Done(
            list,
        ),
    ensures
        !plan.prague_active ==> list.len() == 0,
        plan.prague_active ==> {
            let deposits = replies[0]->Deposits_0->Ok_0;
            let more = replies[1]->PostExecutionRequests_0->Ok_0;
            let raw = executor.ctx.bridge_request_raw;
            &&& deposits.len() > 0 ==> list.len() > 0 && list[0] == seq![0u8] + deposits
            &&& {
                let from: int = if deposits.len() > 0 { 1 } else { 0 };
                &&& list.len() >= from + more.len()
                &&& list.subrange(from, from + more.len()) == more
                &&& raw is Some && raw->0@.len() > 0 ==> list.len() == from + more.len() + 1
                    && list.last() == seq![0xf0u8] + raw->0@
                &&& raw is None || raw->0@.len() == 0 ==> list.len() == from + more.len()
            }
        },
{
    law_plan_due(executor, block, dao, plan);
    let facts = laws::law_finished_block::<State, E>(plan, replies);
    if plan.prague_active {
        let deposits = replies[0]->Deposits_0->Ok_0;
        let more = replies[1]->PostExecutionRequests_0->Ok_0;
        let from: int = if deposits.len() > 0 { 1 } else { 0 };
        assert(deposits == facts.deposits);
        assert(more == facts.post_execution);
        assert(list.subrange(from, from + more.len()) =~= more);
    }
}

/// On a block that has reached Prague, raw bridge bytes of the inputs are the last request of every
/// finished run, behind the byte 0xf0, whatever calldata came with them; on a block that has not,
/// there are no requests. `prague` is the condition that the chain always names.
pub proof fn law_bridge_bytes_are_the_last_request<
    'a,
    Evm,
    Spec: EthExecutorSpec,
    R: ReceiptBuilder,
    State,
    E,
>(
    executor: EthBlockExecutor<'a, Evm, Spec, R>,
    block: BlockEnv,
    dao: DaoFork,
    progress: FinishProgress<'a, Evm, Spec, R, State, E>,
    replies: Seq<FinishReplyView<State, E>>,
    list: Seq<Seq<u8>>,
    prague: ForkCondition,
)
    requires
        call_ensures(
            EthBlockExecutor::<'a, Evm, Spec, R>::finish::<State, E>,
            (executor, &block, dao),
            progress,
        ),
        forall|condition: ForkCondition| #[trigger]
            call_ensures(
                Spec::ethereum_fork_activation,
                (&executor@.chain, EthereumHardfork::Prague),
                condition,
            ) ==> condition == prague,
        laws::answered(progress@, replies),
        laws::run(progress@, replies) == FinishProgressView::<State, E>::Done(list),
    ensures
        !(prague matches ForkCondition::Timestamp(time) && block.timestamp.value() >= time)
            ==> list.len() == 0,
        (prague matches ForkCondition::Timestamp(time) && block.timestamp.value() >= time)
            && executor@.ctx.bridge_request_raw is Some
            && executor@.ctx.bridge_request_raw->0@.len() > 0 ==> list.len() > 0 && list.last()
            == seq![0xf0u8] + executor@.ctx.bridge_request_raw->0@,
{
    let plan = choose|plan: FinishPlanView| #[trigger]
        finish::plan_due(executor@, block, dao@, plan) && progress@ == finish::start::<State, E>(
            plan,
        );
    law_plan_due(executor@, block, dao@, plan);
    law_finished_requests::<Evm, Spec, R, State, E>(executor@, block, dao@, plan, replies, list);
}

/// Where no call fails that the block cannot do without, the block is finished: each reply that is
/// of the right kind and no failure is taken, and the last one ends the block.
pub proof fn law_good_replies_finish<State, E>(
    plan: FinishPlanView,
    replies: Seq<FinishReplyView<State, E>>,
)
    requires
        ({
            let p: int = if plan.prague_active { 2 } else { 0 };
            let b: int = if plan.bridge_call is Some { 2 } else { 0 };
            let d: int = if plan.dao_fork is Some { 1 } else { 0 };
            let k = p + b + d + 2;
            let s: int = if plan.staking_call is None {
                0
            } else if replies[k]->SystemCall_0 is Ok {
                2
            } else {
                1
            };
            let collected = replies[p + b]->BalanceIncrements_0;
            &&& replies.len() == k + s + 1
            &&& plan.prague_active ==> {
                &&& replies[0] is Deposits && replies[0]->Deposits_0 is Ok
                &&& replies[1] is PostExecutionRequests && replies[1]->PostExecutionRequests_0 is Ok
            }
            &&& plan.bridge_call is Some ==> {
                &&& replies[p] is SystemCall && replies[p]->SystemCall_0 is Ok
                &&& replies[p + 1] is StateCommitted
            }
            &&& replies[p + b] is BalanceIncrements
            &&& plan.dao_fork matches Some(dao) ==> {
                &&& replies[p + b + 1] is Drained && replies[p + b + 1]->Drained_0 is Some
                &&& (if collected.contains_key(dao.beneficiary) {
                    collected[dao.beneficiary] as nat
                } else {
                    0
                }) + balances::sum(replies[p + b + 1]->Drained_0->0) <= u128::MAX
            }
            &&& replies[p + b + d + 1] == FinishReplyView::<State, E>::BalancesIncremented(true)
            &&& plan.staking_call is Some ==> {
                &&& replies[k] is SystemCall
                &&& replies[k]->SystemCall_0 is Ok ==> replies[k + 1] is StateCommitted
            }
            &&& replies[k + s] is Reported && replies[k + s]->Reported_0 is Ok
        }),
    ensures
        laws::answered(finish::start::<State, E>(plan), replies),
        laws::run(finish::start::<State, E>(plan), replies) is Done,
{
    let p: int = if plan.prague_active { 2 } else { 0 };
    let b: int = if plan.bridge_call is Some { 2 } else { 0 };
    let d: int = if plan.dao_fork is Some { 1 } else { 0 };
    let k = p + b + d + 2;
    let facts = FinishFacts::<State> {
        deposits: replies[0]->Deposits_0->Ok_0,
        post_execution: replies[1]->PostExecutionRequests_0->Ok_0,
        bridge_state: replies[p]->SystemCall_0->Ok_0,
        collected: replies[p + b]->BalanceIncrements_0,
        drained: replies[p + b + 1]->Drained_0->0,
        staking: replies[k]->SystemCall_0,
    };
    assert(replies.last()->Reported_0->Ok_0 == ());
    assert(replies.last() == FinishReplyView::<State, E>::Reported(Ok(())));
    assert(replies =~= laws::block_replies::<State, E>(plan, facts));
    laws::law_block_is_finished::<State, E>(plan, facts);
}

/// Any block may be finished, any reply may be asked about, and each that is accepted may be given.
pub proof fn law_block_may_be_finished<
    'a,
    Evm,
    Spec: EthExecutorSpec,
    R: ReceiptBuilder,
    State,
    E,
>(
    executor: EthBlockExecutor<'a, Evm, Spec, R>,
    env: BlockEnv,
    dao: DaoFork,
    block: Finish<'a, Evm, Spec, R>,
    reply: FinishReply<State, E>,
)
    ensures
        call_requires(
            EthBlockExecutor::<'a, Evm, Spec, R>::finish::<State, E>,
            (executor, &env, dao),
        ),
        call_requires(Finish::<'a, Evm, Spec, R>::accepts::<State, E>, (&block, &reply)),
        call_ensures(Finish::<'a, Evm, Spec, R>::accepts::<State, E>, (&block, &reply), true)
            ==> call_requires(Finish::<'a, Evm, Spec, R>::resume::<State, E>, (block, reply)),
{
}

} // verus!
