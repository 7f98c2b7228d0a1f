//! What holds of whole blocks: of the calls that finish one, of the requests it ends up with, and
//! of the gas it uses.

use crate::balances;
use crate::block;
use crate::block::{
    BlockEnv, EthBlockExecutionCtx, EthBlockExecutorView, PreExecutionChange, ReceiptBuilder,
    ReceiptBuilderCtx, StateChangePostBlockSource, StateChangeSource, TransactionCommit,
    TransactionReport,
};
use crate::error::{BlockExecutionErrorView, BlockValidationError};
use crate::finish;
use crate::finish::{
    DaoForkView, FinishActionView, FinishPlanView, FinishProgressView, FinishReplyView,
    FinishStage, FinishState,
};
use crate::primitives;
use crate::primitives::Address;
use crate::requests;
use crate::spec::{EthExecutorSpec, EthSpec};
use crate::system_calls;
use crate::system_calls::SystemCallView;
use vstd::prelude::*;

verus! {

/// The changes that are made from the one at `made` on, and what they come to, where `results` holds
/// what each change returns when it is made.
pub open spec fn run_changes<E>(
    changes: Seq<PreExecutionChange>,
    made: nat,
    results: Seq<Result<(), E>>,
) -> (Seq<PreExecutionChange>, Result<(), E>)
    decreases changes.len() - made,
{
    if made < changes.len() {
        let change = seq![changes[made as int]];
        match block::pre_execution_step(changes, made as int, results[made as int]) {
            Err(error) => (change, Err(error)),
            Ok(None) => (change, Ok(())),
            Ok(Some(next)) => {
                let (later, outcome) = run_changes(changes, made + 1, results);
                (change + later, outcome)
            },
        }
    } else {
        (seq![], Ok(()))
    }
}

/// The changes that precede the first transaction succeed exactly where both contract calls do.
/// Each call is made at most once, that of the block hashes first. Where it fails, its error is
/// what the changes come to, and the call of the beacon root is not made; where that one fails, its
/// error is.
pub proof fn law_pre_execution_changes<E>(
    state_clear_flag: bool,
    ctx: EthBlockExecutionCtx<'_>,
    blockhashes: Result<(), E>,
    beacon_root: Result<(), E>,
)
    ensures
        ({
            let changes = block::pre_execution_changes(state_clear_flag, ctx);
            let results = seq![Ok(()), blockhashes, beacon_root];
            let (made, outcome) = run_changes(changes, 0, results);
            &&& outcome is Ok <==> blockhashes is Ok && beacon_root is Ok
            &&& match blockhashes {
                Err(error) => outcome == Err::<(), E>(error) && made == seq![
                    PreExecutionChange::SetStateClearFlag(state_clear_flag),
                    PreExecutionChange::BlockhashesContractCall(ctx.parent_hash),
                ],
                Ok(_) => outcome == beacon_root && made == seq![
                    PreExecutionChange::SetStateClearFlag(state_clear_flag),
                    PreExecutionChange::BlockhashesContractCall(ctx.parent_hash),
                    PreExecutionChange::BeaconRootContractCall(ctx.parent_beacon_block_root),
                ],
            }
        }),
{
    let changes = block::pre_execution_changes(state_clear_flag, ctx);
    let results = seq![Ok(()), blockhashes, beacon_root];
    reveal_with_fuel(run_changes, 4);
    let (made, outcome) = run_changes(changes, 0, results);
    if blockhashes is Ok {
        assert(made =~= changes);
        if beacon_root is Ok {
            assert(beacon_root->Ok_0 == ());
        }
    } else {
        assert(made =~= changes.take(2));
    }
}

/// A transaction is reported before its receipt is built, under the index that the receipt then
/// has, and the state changes that were reported are the ones to commit.
pub proof fn law_transaction_is_reported_and_committed<
    'a,
    Evm,
    Spec,
    R: ReceiptBuilder<Evm = Evm>,
>(
    before: EthBlockExecutorView<'a, Evm, Spec, R>,
    after: EthBlockExecutorView<'a, Evm, Spec, R>,
    tx: R::Transaction,
    result: R::ExecutionResult,
    state: R::State,
    report: TransactionReport<R::ExecutionResult, R::State>,
    commit: TransactionCommit<R::State>,
)
    requires
        report == block::transaction_report(before, result, state),
        commit.state == report.state,
        block::committed(before, tx, report, commit, after),
    ensures
        report.source == StateChangeSource::Transaction(before.receipts.len() as usize),
        report.state == state,
        commit.state == state,
        after.receipts.len() == before.receipts.len() + 1,
        after.receipts.drop_last() == before.receipts,
        after.evm == before.evm,
{
    assert(after.receipts.drop_last() =~= before.receipts);
}

/// What comes of `progress` when the calls return `replies`, one after the other.
pub open spec fn run<State, E>(
    progress: FinishProgressView<State, E>,
    replies: Seq<FinishReplyView<State, E>>,
) -> FinishProgressView<State, E>
    decreases replies.len(),
{
    match progress {
        FinishProgressView::Pending(state, action) if replies.len() > 0 => run(
            finish::step(state, replies[0]),
            replies.drop_first(),
        ),
        _ => progress,
    }
}

/// Whether `replies` answer calls of `progress`, one after the other.
pub open spec fn answered<State, E>(
    progress: FinishProgressView<State, E>,
    replies: Seq<FinishReplyView<State, E>>,
) -> bool
    decreases replies.len(),
{
    replies.len() > 0 ==> match progress {
        FinishProgressView::Pending(state, action) => finish::awaited(state, replies[0])
            && answered(finish::step(state, replies[0]), replies.drop_first()),
        _ => false,
    }
}

/// The calls that `progress` makes when they return `replies`.
pub open spec fn calls<State, E>(
    progress: FinishProgressView<State, E>,
    replies: Seq<FinishReplyView<State, E>>,
) -> Seq<FinishActionView<State>>
    decreases replies.len(),
{
    match progress {
        FinishProgressView::Pending(state, action) => if replies.len() == 0 {
            seq![action]
        } else {
            seq![action] + calls(finish::step(state, replies[0]), replies.drop_first())
        },
        _ => seq![],
    }
}

/// What the calls that finish a block return where none fails that the block cannot do without.
pub struct FinishFacts<State> {
    /// The data of the deposit request.
    pub deposits: Seq<u8>,
    /// The requests of the post-execution system calls.
    pub post_execution: Seq<Seq<u8>>,
    /// The state that the bridge call leaves.
    pub bridge_state: State,
    /// The balance increments.
    pub collected: Map<Address, u128>,
    /// What the accounts of the DAO fork hold.
    pub drained: Seq<u128>,
    /// The state that the staking call leaves, or what it fails for.
    pub staking: Result<State, Seq<char>>,
}

/// The balance increments of the block: those collected and, on the first block of the DAO fork,
/// the drained balances for the beneficiary.
pub open spec fn block_increments<State>(
    plan: FinishPlanView,
    facts: FinishFacts<State>,
) -> Map<Address, u128> {
    match plan.dao_fork {
        Some(dao) => balances::with_amount(
            facts.collected,
            dao.beneficiary,
            balances::sum(facts.drained),
        ),
        None => facts.collected,
    }
}

/// The requests of the block: none before Prague; then the deposits, those of the post-execution
/// system calls and the bridge entry.
pub open spec fn block_requests<State>(
    plan: FinishPlanView,
    facts: FinishFacts<State>,
) -> Seq<Seq<u8>> {
    if plan.prague_active {
        (if facts.deposits.len() > 0 {
            seq![seq![0u8] + facts.deposits]
        } else {
            seq![]
        }) + facts.post_execution + (if plan.bridge_entry is Some && plan.bridge_entry->0.len() > 0 {
            seq![seq![0xf0u8] + plan.bridge_entry->0]
        } else {
            seq![]
        })
    } else {
        seq![]
    }
}

/// The drained balances fit, with what the beneficiary receives already, into the type of a
/// balance.
pub open spec fn drained_fits<State>(plan: FinishPlanView, facts: FinishFacts<State>) -> bool {
    plan.dao_fork matches Some(dao) ==> balances::amount_in(facts.collected, dao.beneficiary)
        + balances::sum(facts.drained) <= u128::MAX
}

/// The calls from the staking call on.
pub open spec fn calls_from_staking<State>(
    plan: FinishPlanView,
    facts: FinishFacts<State>,
) -> Seq<FinishActionView<State>> {
    (match plan.staking_call {
        Some(call) => seq![
            FinishActionView::<State>::TransactSystemCall {
                purpose: StateChangePostBlockSource::StakingDistribution,
                call,
            },
        ] + (match facts.staking {
            Ok(state) => seq![
                FinishActionView::CommitState {
                    source: StateChangePostBlockSource::StakingDistribution,
                    state,
                },
            ],
            Err(reason) => seq![],
        }),
        None => seq![],
    }) + seq![FinishActionView::ReportBalanceIncrements(block_increments(plan, facts))]
}

/// The calls from the collection of the balance increments on.
pub open spec fn calls_from_increments<State>(
    plan: FinishPlanView,
    facts: FinishFacts<State>,
) -> Seq<FinishActionView<State>> {
    seq![FinishActionView::<State>::CollectBalanceIncrements] + (match plan.dao_fork {
        Some(dao) => seq![FinishActionView::<State>::DrainBalances(dao.accounts)],
        None => seq![],
    }) + seq![
        FinishActionView::<State>::IncrementBalances(block_increments(plan, facts)),
    ] + calls_from_staking(plan, facts)
}

/// The calls that finish a block, in order.
///
/// Where Prague is active, the requests are collected first. The bridge call follows, and the
/// commit of the state that it left. Then the balance increments are collected, the accounts of the
/// DAO fork drained and the increments applied. The staking call comes next, with the commit of the
/// state that it left where it did not fail. The report of the increments that were applied is the
/// last.
pub open spec fn block_calls<State>(
    plan: FinishPlanView,
    facts: FinishFacts<State>,
) -> Seq<FinishActionView<State>> {
    (if plan.prague_active {
        seq![
            FinishActionView::<State>::ParseDeposits,
            FinishActionView::<State>::ApplyPostExecutionChanges,
        ]
    } else {
        seq![]
    }) + (match plan.bridge_call {
        Some(call) => seq![
            FinishActionView::TransactSystemCall {
                purpose: StateChangePostBlockSource::BridgeExecution,
                call,
            },
            FinishActionView::CommitState {
                source: StateChangePostBlockSource::BridgeExecution,
                state: facts.bridge_state,
            },
        ],
        None => seq![],
    }) + calls_from_increments(plan, facts)
}

/// The replies from the staking call on.
pub open spec fn replies_from_staking<State, E>(
    plan: FinishPlanView,
    facts: FinishFacts<State>,
) -> Seq<FinishReplyView<State, E>> {
    (if plan.staking_call is Some {
        seq![FinishReplyView::<State, E>::SystemCall(facts.staking)] + (if facts.staking is Ok {
            seq![FinishReplyView::<State, E>::StateCommitted]
        } else {
            seq![]
        })
    } else {
        seq![]
    }) + seq![FinishReplyView::<State, E>::Reported(Ok(()))]
}

/// The replies from the collection of the balance increments on.
pub open spec fn replies_from_increments<State, E>(
    plan: FinishPlanView,
    facts: FinishFacts<State>,
) -> Seq<FinishReplyView<State, E>> {
    seq![FinishReplyView::<State, E>::BalanceIncrements(facts.collected)] + (
    if plan.dao_fork is Some {
        seq![FinishReplyView::<State, E>::Drained(Some(facts.drained))]
    } else {
        seq![]
    }) + seq![FinishReplyView::<State, E>::BalancesIncremented(true)] + replies_from_staking(
        plan,
        facts,
    )
}

/// What the calls of [`block_calls`] return.
pub open spec fn block_replies<State, E>(
    plan: FinishPlanView,
    facts: FinishFacts<State>,
) -> Seq<FinishReplyView<State, E>> {
    (if plan.prague_active {
        seq![
            FinishReplyView::<State, E>::Deposits(Ok(facts.deposits)),
            FinishReplyView::<State, E>::PostExecutionRequests(Ok(facts.post_execution)),
        ]
    } else {
        seq![]
    }) + (if plan.bridge_call is Some {
        seq![
            FinishReplyView::<State, E>::SystemCall(Ok(facts.bridge_state)),
            FinishReplyView::<State, E>::StateCommitted,
        ]
    } else {
        seq![]
    }) + replies_from_increments(plan, facts)
}

/// One reply more at the front of a run.
proof fn lemma_unfold<State, E>(
    state: FinishState,
    action: FinishActionView<State>,
    reply: FinishReplyView<State, E>,
    rest: Seq<FinishReplyView<State, E>>,
)
    ensures
        ({
            let progress = FinishProgressView::Pending(state, action);
            let next = finish::step(state, reply);
            let replies = seq![reply] + rest;
            &&& run(progress, replies) == run(next, rest)
            &&& calls(progress, replies) == seq![action] + calls(next, rest)
            &&& answered(progress, replies) == (finish::awaited(state, reply) && answered(
                next,
                rest,
            ))
        }),
{
    let replies = seq![reply] + rest;
    assert(replies[0] == reply);
    assert(replies.drop_first() =~= rest);
}

/// From the staking call on, a run makes the calls of [`calls_from_staking`].
proof fn lemma_run_from_staking<State, E>(state: FinishState, facts: FinishFacts<State>)
    requires
        state.increments == block_increments(state.plan, facts),
    ensures
        ({
            let progress = finish::after_incrementing::<State, E>(state);
            let replies = replies_from_staking::<State, E>(state.plan, facts);
            &&& answered(progress, replies)
            &&& run(progress, replies) == FinishProgressView::<State, E>::Done(state.requests)
            &&& calls(progress, replies) == calls_from_staking(state.plan, facts)
        }),
{
    let empty = Seq::<FinishReplyView<State, E>>::empty();
    let reported = FinishReplyView::<State, E>::Reported(Ok(()));
    let report = FinishActionView::<State>::ReportBalanceIncrements(state.increments);
    let reporting = FinishState { stage: FinishStage::Report, ..state };
    let last = seq![reported];
    assert(seq![reported] + empty =~= last);
    lemma_unfold(reporting, report, reported, empty);
    assert(calls(finish::after_staking::<State, E>(state), last) =~= seq![report]);
    match state.plan.staking_call {
        Some(call) => {
            let purpose = StateChangePostBlockSource::StakingDistribution;
            let transact = FinishActionView::<State>::TransactSystemCall { purpose, call };
            let calling = FinishState { stage: FinishStage::StakingCall, ..state };
            let reply = FinishReplyView::<State, E>::SystemCall(facts.staking);
            match facts.staking {
                Ok(left) => {
                    let commit = FinishActionView::<State>::CommitState {
                        source: purpose,
                        state: left,
                    };
                    let committing = FinishState { stage: FinishStage::StakingCommit, ..state };
                    let committed = FinishReplyView::<State, E>::StateCommitted;
                    lemma_unfold(committing, commit, committed, last);
                    lemma_unfold(calling, transact, reply, seq![committed] + last);
                    assert(replies_from_staking::<State, E>(state.plan, facts) =~= seq![reply] + (
                    seq![committed] + last));
                    assert(calls_from_staking(state.plan, facts) =~= seq![transact] + (seq![commit]
                        + seq![report]));
                },
                Err(reason) => {
                    lemma_unfold(calling, transact, reply, last);
                    assert(replies_from_staking::<State, E>(state.plan, facts) =~= seq![reply]
                        + last);
                    assert(calls_from_staking(state.plan, facts) =~= seq![transact] + seq![
                        report,
                    ]);
                },
            }
        },
        None => {
            assert(replies_from_staking::<State, E>(state.plan, facts) =~= last);
            assert(calls_from_staking(state.plan, facts) =~= seq![report]);
        },
    }
}

/// From the collection of the balance increments on, a run makes the calls of
/// [`calls_from_increments`].
proof fn lemma_run_from_increments<State, E>(state: FinishState, facts: FinishFacts<State>)
    requires
        drained_fits(state.plan, facts),
    ensures
        ({
            let progress = finish::after_bridge::<State, E>(state);
            let replies = replies_from_increments::<State, E>(state.plan, facts);
            &&& answered(progress, replies)
            &&& run(progress, replies) == FinishProgressView::<State, E>::Done(
                state.requests + finish::bridge_request(state.plan),
            )
            &&& calls(progress, replies) == calls_from_increments(state.plan, facts)
        }),
{
    let plan = state.plan;
    let collecting = FinishState {
        stage: FinishStage::Increments,
        requests: state.requests + finish::bridge_request(plan),
        ..state
    };
    let collect = FinishActionView::<State>::CollectBalanceIncrements;
    let collected = FinishReplyView::<State, E>::BalanceIncrements(facts.collected);
    let increments = block_increments(plan, facts);
    let increment = FinishActionView::<State>::IncrementBalances(increments);
    let incremented = FinishReplyView::<State, E>::BalancesIncremented(true);
    let incrementing = FinishState { stage: FinishStage::Increment, increments, ..collecting };
    let tail = replies_from_staking::<State, E>(plan, facts);
    let tail_calls = calls_from_staking(plan, facts);
    lemma_run_from_staking::<State, E>(incrementing, facts);
    lemma_unfold(incrementing, increment, incremented, tail);
    match plan.dao_fork {
        Some(dao) => {
            let drain = FinishActionView::<State>::DrainBalances(dao.accounts);
            let drained = FinishReplyView::<State, E>::Drained(Some(facts.drained));
            let draining = FinishState {
                stage: FinishStage::Drain { beneficiary: dao.beneficiary },
                increments: facts.collected,
                ..collecting
            };
            lemma_unfold(draining, drain, drained, seq![incremented] + tail);
            lemma_unfold(collecting, collect, collected, seq![drained] + (seq![incremented] + tail));
            assert(replies_from_increments::<State, E>(plan, facts) =~= seq![collected] + (
            seq![drained] + (seq![incremented] + tail)));
            assert(calls_from_increments(plan, facts) =~= seq![collect] + (seq![drain] + (
            seq![increment] + tail_calls)));
        },
        None => {
            lemma_unfold(collecting, collect, collected, seq![incremented] + tail);
            assert(replies_from_increments::<State, E>(plan, facts) =~= seq![collected] + (
            seq![incremented] + tail));
            assert(calls_from_increments(plan, facts) =~= seq![collect] + (seq![increment]
                + tail_calls));
        },
    }
}

/// Where none of the calls fails that the block cannot do without, the block is finished: the calls
/// are those of [`block_calls`] and the requests those of [`block_requests`].
pub proof fn law_block_is_finished<State, E>(plan: FinishPlanView, facts: FinishFacts<State>)
    requires
        drained_fits(plan, facts),
    ensures
        answered(finish::start::<State, E>(plan), block_replies::<State, E>(plan, facts)),
        run(finish::start::<State, E>(plan), block_replies::<State, E>(plan, facts))
            == FinishProgressView::<State, E>::Done(block_requests(plan, facts)),
        calls(finish::start::<State, E>(plan), block_replies::<State, E>(plan, facts))
            == block_calls(plan, facts),
{
    let first = FinishState {
        plan,
        stage: FinishStage::Deposits,
        requests: seq![],
        increments: Map::empty(),
    };
    let typed = first.requests + requests::typed_request(0, facts.deposits);
    let second = FinishState {
        stage: FinishStage::PostExecutionRequests,
        requests: typed,
        ..first
    };
    let state = if plan.prague_active {
        FinishState { requests: typed + facts.post_execution, ..second }
    } else {
        first
    };
    let tail = replies_from_increments::<State, E>(plan, facts);
    let tail_calls = calls_from_increments(plan, facts);
    lemma_run_from_increments::<State, E>(state, facts);
    let bridge_replies = if plan.bridge_call is Some {
        seq![
            FinishReplyView::<State, E>::SystemCall(Ok(facts.bridge_state)),
            FinishReplyView::<State, E>::StateCommitted,
        ]
    } else {
        seq![]
    };
    let from_bridge = bridge_replies + tail;
    let bridging = finish::after_requests::<State, E>(state);
    match plan.bridge_call {
        Some(call) => {
            let purpose = StateChangePostBlockSource::BridgeExecution;
            let transact = FinishActionView::<State>::TransactSystemCall { purpose, call };
            let commit = FinishActionView::<State>::CommitState {
                source: purpose,
                state: facts.bridge_state,
            };
            let calling = FinishState { stage: FinishStage::BridgeCall, ..state };
            let committing = FinishState { stage: FinishStage::BridgeCommit, ..state };
            let reply = FinishReplyView::<State, E>::SystemCall(Ok(facts.bridge_state));
            let committed = FinishReplyView::<State, E>::StateCommitted;
            lemma_run_from_increments::<State, E>(committing, facts);
            lemma_unfold(committing, commit, committed, tail);
            lemma_unfold(calling, transact, reply, seq![committed] + tail);
            assert(from_bridge =~= seq![reply] + (seq![committed] + tail));
            assert(calls(bridging, from_bridge) =~= seq![transact, commit] + tail_calls);
        },
        None => {
            assert(from_bridge =~= tail);
            assert(calls(bridging, from_bridge) =~= Seq::<FinishActionView<State>>::empty()
                + tail_calls);
        },
    }
    if plan.prague_active {
        let deposits = FinishReplyView::<State, E>::Deposits(Ok(facts.deposits));
        let more = FinishReplyView::<State, E>::PostExecutionRequests(Ok(facts.post_execution));
        let parse = FinishActionView::<State>::ParseDeposits;
        let apply = FinishActionView::<State>::ApplyPostExecutionChanges;
        lemma_unfold(second, apply, more, from_bridge);
        lemma_unfold(first, parse, deposits, seq![more] + from_bridge);
        assert(block_replies::<State, E>(plan, facts) =~= seq![deposits] + (seq![more]
            + from_bridge));
        assert(block_calls(plan, facts) =~= seq![parse] + (seq![apply] + calls(
            bridging,
            from_bridge,
        )));
        assert(state.requests + finish::bridge_request(plan) =~= block_requests(plan, facts));
    } else {
        assert(block_replies::<State, E>(plan, facts) =~= from_bridge);
        assert(block_calls(plan, facts) =~= calls(bridging, from_bridge));
        assert(state.requests + finish::bridge_request(plan) =~= block_requests(plan, facts));
    }
}

/// The last thing that a finished block reports to the state hook is its balance increments, under
/// their own name.
pub proof fn law_increments_are_reported_last<State>(
    plan: FinishPlanView,
    facts: FinishFacts<State>,
)
    ensures
        block_calls(plan, facts).len() > 0,
        block_calls(plan, facts).last() == FinishActionView::<State>::ReportBalanceIncrements(
            block_increments(plan, facts),
        ),
        block_calls(plan, facts).last().reported_as() == Some(
            StateChangeSource::PostBlock(StateChangePostBlockSource::BalanceIncrements),
        ),
{
}

/// A run that is to end has a reply to the call that it waits for.
proof fn lemma_first_reply<State, E>(
    state: FinishState,
    action: FinishActionView<State>,
    replies: Seq<FinishReplyView<State, E>>,
) -> (rest: Seq<FinishReplyView<State, E>>)
    requires
        answered(FinishProgressView::Pending(state, action), replies),
        run(FinishProgressView::Pending(state, action), replies) is Done,
    ensures
        replies.len() > 0,
        replies == seq![replies[0]] + rest,
        finish::awaited(state, replies[0]),
        answered(finish::step(state, replies[0]), rest),
        run(finish::step(state, replies[0]), rest) is Done,
{
    let rest = replies.drop_first();
    assert(replies.len() > 0);
    assert(replies =~= seq![replies[0]] + rest);
    rest
}

/// From the staking call on, a run that ends well has the replies of [`replies_from_staking`].
proof fn lemma_replies_from_staking<State, E>(
    state: FinishState,
    replies: Seq<FinishReplyView<State, E>>,
) -> (staking: Result<State, Seq<char>>)
    requires
        answered(finish::after_incrementing::<State, E>(state), replies),
        run(finish::after_incrementing::<State, E>(state), replies) is Done,
    ensures
        forall|facts: FinishFacts<State>|
            facts.staking == staking ==> replies == #[trigger] replies_from_staking::<State, E>(
                state.plan,
                facts,
            ),
{
    let report = FinishActionView::<State>::ReportBalanceIncrements(state.increments);
    let reporting = FinishState { stage: FinishStage::Report, ..state };
    let reported = FinishReplyView::<State, E>::Reported(Ok(()));
    match state.plan.staking_call {
        Some(call) => {
            let purpose = StateChangePostBlockSource::StakingDistribution;
            let transact = FinishActionView::<State>::TransactSystemCall { purpose, call };
            let calling = FinishState { stage: FinishStage::StakingCall, ..state };
            let rest = lemma_first_reply(calling, transact, replies);
            let staking = replies[0]->SystemCall_0;
            match staking {
                Ok(left) => {
                    let commit = FinishActionView::<State>::CommitState {
                        source: purpose,
                        state: left,
                    };
                    let committing = FinishState { stage: FinishStage::StakingCommit, ..state };
                    let last = lemma_first_reply(committing, commit, rest);
                    let none = lemma_first_reply(reporting, report, last);
                    assert(none =~= seq![]);
                    assert(last[0]->Reported_0->Ok_0 == ());
                    assert(last[0] == reported);
                    assert(replies =~= seq![
                        FinishReplyView::<State, E>::SystemCall(staking),
                        FinishReplyView::<State, E>::StateCommitted,
                        reported,
                    ]);
                },
                Err(reason) => {
                    let none = lemma_first_reply(reporting, report, rest);
                    assert(none =~= seq![]);
                    assert(rest[0]->Reported_0->Ok_0 == ());
                    assert(rest[0] == reported);
                    assert(replies =~= seq![
                        FinishReplyView::<State, E>::SystemCall(staking),
                        reported,
                    ]);
                },
            }
            assert forall|facts: FinishFacts<State>| facts.staking == staking implies replies
                == #[trigger] replies_from_staking::<State, E>(state.plan, facts) by {
                assert(replies =~= replies_from_staking::<State, E>(state.plan, facts));
            }
            staking
        },
        None => {
            let none = lemma_first_reply(reporting, report, replies);
            assert(none =~= seq![]);
            assert(replies[0]->Reported_0->Ok_0 == ());
            assert(replies[0] == reported);
            assert forall|facts: FinishFacts<State>|
                #![trigger replies_from_staking::<State, E>(state.plan, facts)]
                replies == replies_from_staking::<State, E>(state.plan, facts) by {
                assert(replies =~= replies_from_staking::<State, E>(state.plan, facts));
            }
            arbitrary()
        },
    }
}

/// From the collection of the balance increments on, a run that ends well has the replies of
/// [`replies_from_increments`].
proof fn lemma_replies_from_increments<State, E>(
    state: FinishState,
    replies: Seq<FinishReplyView<State, E>>,
) -> (facts: FinishFacts<State>)
    requires
        answered(finish::after_bridge::<State, E>(state), replies),
        run(finish::after_bridge::<State, E>(state), replies) is Done,
    ensures
        drained_fits(state.plan, facts),
        replies == replies_from_increments::<State, E>(state.plan, facts),
{
    let plan = state.plan;
    let collecting = FinishState {
        stage: FinishStage::Increments,
        requests: state.requests + finish::bridge_request(plan),
        ..state
    };
    let collect = FinishActionView::<State>::CollectBalanceIncrements;
    let rest = lemma_first_reply(collecting, collect, replies);
    let collected = replies[0]->BalanceIncrements_0;
    let collected_state = FinishState { increments: collected, ..collecting };
    let blank = FinishFacts::<State> {
        deposits: arbitrary(),
        post_execution: arbitrary(),
        bridge_state: arbitrary(),
        collected,
        drained: arbitrary(),
        staking: arbitrary(),
    };
    match plan.dao_fork {
        Some(dao) => {
            let drain = FinishActionView::<State>::DrainBalances(dao.accounts);
            let draining = FinishState {
                stage: FinishStage::Drain { beneficiary: dao.beneficiary },
                ..collected_state
            };
            let after = lemma_first_reply(draining, drain, rest);
            let drained = rest[0]->Drained_0->0;
            let increments = balances::with_amount(
                collected,
                dao.beneficiary,
                balances::sum(drained),
            );
            let incrementing = FinishState {
                stage: FinishStage::Increment,
                increments,
                ..collected_state
            };
            let increment = FinishActionView::<State>::IncrementBalances(increments);
            let tail = lemma_first_reply(incrementing, increment, after);
            let staking = lemma_replies_from_staking(incrementing, tail);
            let facts = FinishFacts { drained, staking, ..blank };
            assert(tail == replies_from_staking::<State, E>(plan, facts));
            assert(replies =~= replies_from_increments::<State, E>(plan, facts));
            facts
        },
        None => {
            let incrementing = FinishState { stage: FinishStage::Increment, ..collected_state };
            let increment = FinishActionView::<State>::IncrementBalances(collected);
            let tail = lemma_first_reply(incrementing, increment, rest);
            let staking = lemma_replies_from_staking(incrementing, tail);
            let facts = FinishFacts { staking, ..blank };
            assert(tail == replies_from_staking::<State, E>(plan, facts));
            assert(replies =~= replies_from_increments::<State, E>(plan, facts));
            facts
        },
    }
}

/// A block is finished in one way only: whatever the calls return, a run that ends well got the
/// replies of [`block_replies`], made the calls of [`block_calls`] in their order, and has the
/// requests of [`block_requests`].
pub proof fn law_finished_block<State, E>(
    plan: FinishPlanView,
    replies: Seq<FinishReplyView<State, E>>,
) -> (facts: FinishFacts<State>)
    requires
        answered(finish::start::<State, E>(plan), replies),
        run(finish::start::<State, E>(plan), replies) is Done,
    ensures
        drained_fits(plan, facts),
        replies == block_replies::<State, E>(plan, facts),
        calls(finish::start::<State, E>(plan), replies) == block_calls(plan, facts),
        run(finish::start::<State, E>(plan), replies) == FinishProgressView::<State, E>::Done(
            block_requests(plan, facts),
        ),
{
    let first = FinishState {
        plan,
        stage: FinishStage::Deposits,
        requests: seq![],
        increments: Map::empty(),
    };
    let (deposits, post_execution, state, from_bridge) = if plan.prague_active {
        let rest = lemma_first_reply(
            first,
            FinishActionView::<State>::ParseDeposits,
            replies,
        );
        let deposits = replies[0]->Deposits_0->Ok_0;
        let second = FinishState {
            stage: FinishStage::PostExecutionRequests,
            requests: first.requests + requests::typed_request(0, deposits),
            ..first
        };
        let from_bridge = lemma_first_reply(
            second,
            FinishActionView::<State>::ApplyPostExecutionChanges,
            rest,
        );
        let post_execution = rest[0]->PostExecutionRequests_0->Ok_0;
        let state = FinishState { requests: second.requests + post_execution, ..second };
        (deposits, post_execution, state, from_bridge)
    } else {
        (arbitrary(), arbitrary(), first, replies)
    };
    let facts = match plan.bridge_call {
        Some(call) => {
            let purpose = StateChangePostBlockSource::BridgeExecution;
            let calling = FinishState { stage: FinishStage::BridgeCall, ..state };
            let transact = FinishActionView::<State>::TransactSystemCall { purpose, call };
            let rest = lemma_first_reply(calling, transact, from_bridge);
            let bridge_state = from_bridge[0]->SystemCall_0->Ok_0;
            let committing = FinishState { stage: FinishStage::BridgeCommit, ..state };
            let commit = FinishActionView::<State>::CommitState {
                source: purpose,
                state: bridge_state,
            };
            let tail = lemma_first_reply(committing, commit, rest);
            let later = lemma_replies_from_increments(committing, tail);
            FinishFacts { deposits, post_execution, bridge_state, ..later }
        },
        None => {
            let later = lemma_replies_from_increments(state, from_bridge);
            FinishFacts { deposits, post_execution, ..later }
        },
    };
    assert(replies =~= block_replies::<State, E>(plan, facts));
    law_block_is_finished::<State, E>(plan, facts);
    facts
}

/// How many replies may follow at `stage`.
spec fn replies_left(stage: FinishStage) -> nat {
    match stage {
        FinishStage::Deposits => 10,
        FinishStage::PostExecutionRequests => 9,
        FinishStage::BridgeCall => 8,
        FinishStage::BridgeCommit => 7,
        FinishStage::Increments => 6,
        FinishStage::Drain { beneficiary } => 5,
        FinishStage::Increment => 4,
        FinishStage::StakingCall => 3,
        FinishStage::StakingCommit => 2,
        FinishStage::Report => 1,
    }
}

proof fn lemma_replies_left<State, E>(
    progress: FinishProgressView<State, E>,
    replies: Seq<FinishReplyView<State, E>>,
)
    requires
        answered(progress, replies),
    ensures
        replies.len() <= (match progress {
            FinishProgressView::Pending(state, action) => replies_left(state.stage),
            _ => 0,
        }),
    decreases replies.len(),
{
    if replies.len() > 0 {
        match progress {
            FinishProgressView::Pending(state, action) => {
                lemma_replies_left(finish::step(state, replies[0]), replies.drop_first());
            },
            _ => {},
        }
    }
}

/// Finishing a block comes to an end: it makes no more than ten calls.
pub proof fn law_finishing_ends<State, E>(
    plan: FinishPlanView,
    replies: Seq<FinishReplyView<State, E>>,
)
    requires
        answered(finish::start::<State, E>(plan), replies),
    ensures
        replies.len() <= 10,
{
    lemma_replies_left(finish::start::<State, E>(plan), replies);
}

/// The error that ends the block where `reply` is what `state` waits for; `None` where the block
/// goes on.
///
/// The calls that collect requests and the report pass their error on. A failed bridge call is
/// named in words. Balances that cannot be drained or incremented make the block invalid.
pub open spec fn fatal_error<State, E>(
    state: FinishState,
    reply: FinishReplyView<State, E>,
) -> Option<BlockExecutionErrorView<E>> {
    match reply {
        FinishReplyView::Deposits(Err(error)) => Some(BlockExecutionErrorView::Call(error)),
        FinishReplyView::PostExecutionRequests(Err(error)) => Some(
            BlockExecutionErrorView::Call(error),
        ),
        FinishReplyView::Reported(Err(error)) => Some(BlockExecutionErrorView::Call(error)),
        FinishReplyView::SystemCall(Err(reason)) if state.stage is BridgeCall => Some(
            BlockExecutionErrorView::Message("0G bridge system call execution failed: "@ + reason),
        ),
        FinishReplyView::Drained(None) | FinishReplyView::BalancesIncremented(false) => Some(
            BlockExecutionErrorView::Validation(BlockValidationError::IncrementBalanceFailed),
        ),
        _ => None,
    }
}

/// What ends a block early is exactly what [`fatal_error`] says.
pub proof fn law_what_ends_a_block<State, E>(
    state: FinishState,
    reply: FinishReplyView<State, E>,
)
    requires
        finish::awaited(state, reply),
    ensures
        match fatal_error(state, reply) {
            Some(error) => finish::step(state, reply) == FinishProgressView::<State, E>::Failed(
                error,
            ),
            None => finish::step(state, reply) !is Failed,
        },
{
}

/// A staking call that fails is passed over: the block goes on as it does after a staking call
/// that succeeded and was committed.
pub proof fn law_failed_staking_call_is_passed_over<State, E>(
    state: FinishState,
    reason: Seq<char>,
)
    requires
        state.stage is StakingCall,
    ensures
        finish::step(state, FinishReplyView::<State, E>::SystemCall(Err(reason))) == finish::step(
            FinishState { stage: FinishStage::StakingCommit, ..state },
            FinishReplyView::<State, E>::StateCommitted,
        ),
{
}

/// Before Prague a block has no requests, whatever came with it.
pub proof fn law_no_requests_before_prague<State, E>(
    plan: FinishPlanView,
    replies: Seq<FinishReplyView<State, E>>,
)
    requires
        !plan.prague_active,
        answered(finish::start::<State, E>(plan), replies),
    ensures
        run(finish::start::<State, E>(plan), replies) matches FinishProgressView::Done(list)
            ==> list == Seq::<Seq<u8>>::empty(),
{
    if run(finish::start::<State, E>(plan), replies) is Done {
        let facts = law_finished_block::<State, E>(plan, replies);
    }
}

/// From Prague on, bridge messages that came with the block are its last request, behind the type
/// byte of the bridge, byte for byte as the consensus layer encoded them. They are there whether
/// the bridge contract was called or not.
pub proof fn law_bridge_entry<State, E>(
    plan: FinishPlanView,
    replies: Seq<FinishReplyView<State, E>>,
)
    requires
        plan.prague_active,
        plan.bridge_entry is Some,
        plan.bridge_entry->0.len() > 0,
        answered(finish::start::<State, E>(plan), replies),
    ensures
        run(finish::start::<State, E>(plan), replies) matches FinishProgressView::Done(list)
            ==> list.len() > 0 && list.last() == seq![requests::BRIDGE_REQUEST_TYPE]
            + plan.bridge_entry->0,
{
    if run(finish::start::<State, E>(plan), replies) is Done {
        let facts = law_finished_block::<State, E>(plan, replies);
        let list = block_requests(plan, facts);
        assert(list.last() == finish::bridge_request(plan)[0]);
    }
}

/// Where no bridge messages came with the block, as where a block is replayed, its requests are
/// the deposits and those of the post-execution system calls.
pub proof fn law_no_bridge_entry<State, E>(
    plan: FinishPlanView,
    replies: Seq<FinishReplyView<State, E>>,
) -> (facts: FinishFacts<State>)
    requires
        plan.prague_active,
        plan.bridge_entry is None || plan.bridge_entry->0.len() == 0,
        answered(finish::start::<State, E>(plan), replies),
        run(finish::start::<State, E>(plan), replies) is Done,
    ensures
        replies == block_replies::<State, E>(plan, facts),
        run(finish::start::<State, E>(plan), replies) == FinishProgressView::<State, E>::Done(
            requests::typed_request(0, facts.deposits) + facts.post_execution,
        ),
{
    let facts = law_finished_block::<State, E>(plan, replies);
    assert(block_requests(plan, facts) =~= requests::typed_request(0, facts.deposits)
        + facts.post_execution);
    facts
}

/// The DAO fork adds what was drained to the amount of the beneficiary and changes no other amount.
pub proof fn law_dao_beneficiary(
    amounts: Map<Address, u128>,
    beneficiary: Address,
    drained: Seq<u128>,
    address: Address,
)
    requires
        balances::amount_in(amounts, beneficiary) + balances::sum(drained) <= u128::MAX,
    ensures
        balances::amount_in(
            balances::with_amount(amounts, beneficiary, balances::sum(drained)),
            address,
        ) == balances::amount_in(amounts, address) + (if address == beneficiary {
            balances::sum(drained)
        } else {
            0
        }),
{
}

/// The bridge is called only where all gates are open: the fork is active, the chain has a bridge
/// contract and the block comes with calldata that is not empty. The call is then made from the
/// system address to that contract with that calldata.
pub proof fn law_bridge_gates(active: bool, target: Option<Address>, calldata: Option<Seq<u8>>)
    ensures
        match system_calls::gated_bridge_call(active, target, calldata) {
            Some(call) => {
                &&& active
                &&& target == Some(call.contract)
                &&& calldata == Some(call.data)
                &&& call.data.len() > 0
                &&& call.caller == Address { bytes: primitives::SYSTEM_ADDRESS }
            },
            None => !active || target is None || calldata is None || calldata->0.len() == 0,
        },
{
}

/// On a chain on which the bridge fork is not active, or that has no bridge contract, the bridge is
/// not called.
pub proof fn law_bridge_is_opt_in<Spec: EthExecutorSpec>(
    chain: &Spec,
    timestamp: u64,
    calldata: Option<Seq<u8>>,
    call: Option<SystemCallView>,
)
    requires
        system_calls::bridge_call_due(chain, timestamp, calldata, call),
        ({
            ||| forall|active: bool| #[trigger]
                call_ensures(Spec::is_bridge_active_at_timestamp, (chain, timestamp), active)
                    ==> !active
            ||| forall|target: Option<Address>| #[trigger]
                call_ensures(Spec::bridge_contract_address, (chain,), target) ==> target is None
        }),
    ensures
        call is None,
{
}

/// The public networks do not call the bridge, and pay staking rewards to the address of the first
/// withdrawal.
pub proof fn law_public_networks<'a, Evm, R: ReceiptBuilder>(
    executor: EthBlockExecutorView<'a, Evm, EthSpec, R>,
    block: BlockEnv,
    dao: DaoForkView,
    plan: FinishPlanView,
)
    requires
        finish::plan_due(executor, block, dao, plan),
    ensures
        plan.bridge_call is None,
        plan.staking_call matches Some(call) ==> call.contract
            == executor.ctx.withdrawals->0@[0].address,
{
}

/// [`law_public_networks`] for an executor that borrows the settings of the chain.
pub proof fn law_public_networks_by_reference<'a, Evm, R: ReceiptBuilder>(
    executor: EthBlockExecutorView<'a, Evm, &'a EthSpec, R>,
    block: BlockEnv,
    dao: DaoForkView,
    plan: FinishPlanView,
)
    requires
        finish::plan_due(executor, block, dao, plan),
    ensures
        plan.bridge_call is None,
        plan.staking_call matches Some(call) ==> call.contract
            == executor.ctx.withdrawals->0@[0].address,
{
}

/// A transaction is charged what it used or 80% of its gas limit, whichever is more, and no more
/// than its gas limit where it used no more.
pub proof fn law_charge(raw_gas_used: u64, tx_gas_limit: u64)
    ensures
        block::charged_gas(raw_gas_used, tx_gas_limit) >= raw_gas_used,
        5 * block::charged_gas(raw_gas_used, tx_gas_limit) > 4 * tx_gas_limit - 5,
        block::charged_gas(raw_gas_used, tx_gas_limit) == raw_gas_used || 5 * block::charged_gas(
            raw_gas_used,
            tx_gas_limit,
        ) <= 4 * tx_gas_limit,
        5 * raw_gas_used >= 4 * tx_gas_limit ==> block::charged_gas(raw_gas_used, tx_gas_limit)
            == raw_gas_used,
        raw_gas_used <= tx_gas_limit ==> block::charged_gas(raw_gas_used, tx_gas_limit)
            <= tx_gas_limit,
{
}

/// Committing a transaction that passed the check of its gas limit, and used no more gas than that
/// limit, keeps the gas that the block has used within the gas limit of the block.
pub proof fn law_gas_limit_is_kept<'a, Evm, Spec, R: ReceiptBuilder<Evm = Evm>>(
    before: EthBlockExecutorView<'a, Evm, Spec, R>,
    tx: R::Transaction,
    report: TransactionReport<R::ExecutionResult, R::State>,
    commit: TransactionCommit<R::State>,
    after: EthBlockExecutorView<'a, Evm, Spec, R>,
    block: BlockEnv,
    raw_gas_used: u64,
    tx_gas_limit: u64,
)
    requires
        before.gas_used <= block.gas_limit,
        tx_gas_limit <= block.gas_limit - before.gas_used,
        raw_gas_used <= tx_gas_limit,
        block::committed(before, tx, report, commit, after),
        commit.gas_used == block::charged_gas(raw_gas_used, tx_gas_limit),
    ensures
        after.gas_used <= block.gas_limit,
        after.gas_used >= before.gas_used + raw_gas_used,
{
    law_charge(raw_gas_used, tx_gas_limit);
}

/// A transaction that was executed: the gas that it used and its gas limit.
pub struct ExecutedTransaction {
    /// The gas that it used.
    pub raw_gas_used: u64,
    /// Its gas limit.
    pub gas_limit: u64,
}

/// The gas that a block with the given transactions uses.
pub open spec fn block_gas(transactions: Seq<ExecutedTransaction>) -> nat
    decreases transactions.len(),
{
    if transactions.len() == 0 {
        0
    } else {
        block_gas(transactions.drop_last()) + block::charged_gas(
            transactions.last().raw_gas_used,
            transactions.last().gas_limit,
        )
    }
}

/// Whether each transaction passed the check of its gas limit when its turn came, and used no more
/// gas than that limit.
pub open spec fn admitted(block_gas_limit: u64, transactions: Seq<ExecutedTransaction>) -> bool
    decreases transactions.len(),
{
    transactions.len() > 0 ==> {
        let last = transactions.last();
        let before = transactions.drop_last();
        &&& admitted(block_gas_limit, before)
        &&& last.gas_limit <= block_gas_limit - block_gas(before)
        &&& last.raw_gas_used <= last.gas_limit
    }
}

/// The gas that a block uses stays within its gas limit, so that the gas that it has left can
/// always be told.
pub proof fn law_block_gas_limit(block_gas_limit: u64, transactions: Seq<ExecutedTransaction>)
    requires
        admitted(block_gas_limit, transactions),
    ensures
        block_gas(transactions) <= block_gas_limit,
    decreases transactions.len(),
{
    if transactions.len() > 0 {
        law_block_gas_limit(block_gas_limit, transactions.drop_last());
        law_charge(transactions.last().raw_gas_used, transactions.last().gas_limit);
    }
}

/// Whether the executor at `i` commits the transaction at `i`: what comes of it is in `afters`, and
/// the next executor is that but for its EVM, which may have changed since. `txs`, `reports` and
/// `commits` are what the commits are given and return.
pub open spec fn commits_at<'a, Evm, Spec, R: ReceiptBuilder<Evm = Evm>>(
    executors: Seq<EthBlockExecutorView<'a, Evm, Spec, R>>,
    transactions: Seq<ExecutedTransaction>,
    txs: Seq<R::Transaction>,
    reports: Seq<TransactionReport<R::ExecutionResult, R::State>>,
    commits: Seq<TransactionCommit<R::State>>,
    afters: Seq<EthBlockExecutorView<'a, Evm, Spec, R>>,
    i: int,
) -> bool {
    &&& block::committed(executors[i], txs[i], reports[i], commits[i], afters[i])
    &&& commits[i].gas_used == block::charged_gas(
        transactions[i].raw_gas_used,
        transactions[i].gas_limit,
    )
    &&& executors[i + 1] == (EthBlockExecutorView { evm: executors[i + 1].evm, ..afters[i] })
}

/// Whether `executors` are the states of an executor that commits `transactions` one after the
/// other, starting with nothing executed.
pub open spec fn commits_of<'a, Evm, Spec, R: ReceiptBuilder<Evm = Evm>>(
    executors: Seq<EthBlockExecutorView<'a, Evm, Spec, R>>,
    transactions: Seq<ExecutedTransaction>,
    txs: Seq<R::Transaction>,
    reports: Seq<TransactionReport<R::ExecutionResult, R::State>>,
    commits: Seq<TransactionCommit<R::State>>,
    afters: Seq<EthBlockExecutorView<'a, Evm, Spec, R>>,
) -> bool {
    &&& executors.len() == transactions.len() + 1
    &&& executors[0].gas_used == 0
    &&& executors[0].receipts.len() == 0
    &&& forall|i: int|
        0 <= i < transactions.len() ==> #[trigger] commits_at(
            executors,
            transactions,
            txs,
            reports,
            commits,
            afters,
            i,
        )
}

/// The commits before the last are commits.
proof fn lemma_earlier_commits<'a, Evm, Spec, R: ReceiptBuilder<Evm = Evm>>(
    executors: Seq<EthBlockExecutorView<'a, Evm, Spec, R>>,
    transactions: Seq<ExecutedTransaction>,
    txs: Seq<R::Transaction>,
    reports: Seq<TransactionReport<R::ExecutionResult, R::State>>,
    commits: Seq<TransactionCommit<R::State>>,
    afters: Seq<EthBlockExecutorView<'a, Evm, Spec, R>>,
)
    requires
        transactions.len() > 0,
        commits_of(executors, transactions, txs, reports, commits, afters),
    ensures
        commits_of(
            executors.drop_last(),
            transactions.drop_last(),
            txs,
            reports,
            commits,
            afters,
        ),
{
    let rest = transactions.drop_last();
    let earlier = executors.drop_last();
    assert(earlier[0] == executors[0]);
    assert forall|i: int| 0 <= i < rest.len() implies #[trigger] commits_at(
        earlier,
        rest,
        txs,
        reports,
        commits,
        afters,
        i,
    ) by {
        assert(commits_at(executors, transactions, txs, reports, commits, afters, i));
        assert(rest[i] == transactions[i]);
        assert(earlier[i] == executors[i]);
        assert(earlier[i + 1] == executors[i + 1]);
    }
}

/// What a block has used once its transactions have been committed is the sum of what they are
/// charged, and it has a receipt of each. Each receipt was built with the sum up to its transaction.
pub proof fn law_executor_gas<'a, Evm, Spec, R: ReceiptBuilder<Evm = Evm>>(
    executors: Seq<EthBlockExecutorView<'a, Evm, Spec, R>>,
    transactions: Seq<ExecutedTransaction>,
    txs: Seq<R::Transaction>,
    reports: Seq<TransactionReport<R::ExecutionResult, R::State>>,
    commits: Seq<TransactionCommit<R::State>>,
    afters: Seq<EthBlockExecutorView<'a, Evm, Spec, R>>,
)
    requires
        commits_of(executors, transactions, txs, reports, commits, afters),
    ensures
        executors.last().gas_used == block_gas(transactions),
        executors.last().receipts.len() == transactions.len(),
        executors.last().receipt_builder == executors[0].receipt_builder,
        forall|i: int|
            #![trigger transactions[i]]
            0 <= i < transactions.len() ==> call_ensures(
                R::build_receipt,
                (
                    &executors[0].receipt_builder,
                    ReceiptBuilderCtx {
                        tx: &txs[i],
                        evm: &executors[i].evm,
                        result: reports[i].result,
                        state: &reports[i].state,
                        cumulative_gas_used: block_gas(transactions.take(i + 1)) as u64,
                    },
                ),
                executors.last().receipts[i],
            ),
    decreases transactions.len(),
{
    if transactions.len() > 0 {
        let rest = transactions.drop_last();
        let earlier = executors.drop_last();
        let last = transactions.len() - 1;
        lemma_earlier_commits(executors, transactions, txs, reports, commits, afters);
        law_executor_gas(earlier, rest, txs, reports, commits, afters);
        assert(commits_at(executors, transactions, txs, reports, commits, afters, last));
        assert(executors[last] == earlier.last());
        assert(transactions.take(last + 1) =~= transactions);
        assert forall|i: int|
            #![trigger transactions[i]]
            0 <= i < transactions.len() implies call_ensures(
            R::build_receipt,
            (
                &executors[0].receipt_builder,
                ReceiptBuilderCtx {
                    tx: &txs[i],
                    evm: &executors[i].evm,
                    result: reports[i].result,
                    state: &reports[i].state,
                    cumulative_gas_used: block_gas(transactions.take(i + 1)) as u64,
                },
            ),
            executors.last().receipts[i],
        ) by {
            if i < last {
                assert(rest[i] == transactions[i]);
                assert(rest.take(i + 1) =~= transactions.take(i + 1));
                assert(executors.last().receipts[i] == earlier.last().receipts[i]);
                assert(earlier[i] == executors[i]);
            }
        }
    }
}

/// An executor that checks the gas limit of each transaction before it commits it, and whose
/// transactions use no more gas than their limit, stays within the gas limit of the block.
pub proof fn law_executor_gas_limit<'a, Evm, Spec, R: ReceiptBuilder<Evm = Evm>>(
    executors: Seq<EthBlockExecutorView<'a, Evm, Spec, R>>,
    transactions: Seq<ExecutedTransaction>,
    txs: Seq<R::Transaction>,
    reports: Seq<TransactionReport<R::ExecutionResult, R::State>>,
    commits: Seq<TransactionCommit<R::State>>,
    afters: Seq<EthBlockExecutorView<'a, Evm, Spec, R>>,
    block: BlockEnv,
)
    requires
        commits_of(executors, transactions, txs, reports, commits, afters),
        forall|i: int|
            #![trigger transactions[i]]
            0 <= i < transactions.len() ==> {
                &&& transactions[i].gas_limit <= block.gas_limit - executors[i].gas_used
                &&& transactions[i].raw_gas_used <= transactions[i].gas_limit
            },
    ensures
        executors.last().gas_used == block_gas(transactions),
        admitted(block.gas_limit, transactions),
        executors.last().gas_used <= block.gas_limit,
    decreases transactions.len(),
{
    law_executor_gas(executors, transactions, txs, reports, commits, afters);
    if transactions.len() > 0 {
        let rest = transactions.drop_last();
        let earlier = executors.drop_last();
        lemma_earlier_commits(executors, transactions, txs, reports, commits, afters);
        assert forall|i: int| #![trigger rest[i]] 0 <= i < rest.len() implies {
            &&& rest[i].gas_limit <= block.gas_limit - earlier[i].gas_used
            &&& rest[i].raw_gas_used <= rest[i].gas_limit
        } by {
            assert(rest[i] == transactions[i]);
            assert(earlier[i] == executors[i]);
        }
        law_executor_gas_limit(earlier, rest, txs, reports, commits, afters, block);
        let last = transactions[transactions.len() - 1];
        assert(last.gas_limit <= block.gas_limit - earlier.last().gas_used);
    }
    law_block_gas_limit(block.gas_limit, transactions);
}

} // verus!
