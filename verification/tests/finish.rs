use alloy_eips::eip7685::Requests;
use alloy_primitives::Bytes;
use eth_block_executor::balances::BalanceIncrements;
use eth_block_executor::block::{
    BlockEnv, EthBlockExecutionCtx, EthBlockExecutor, ReceiptBuilder, ReceiptBuilderCtx,
    StateChangePostBlockSource, StateChangeSource,
};
use eth_block_executor::error::{BlockExecutionError, BlockValidationError};
use eth_block_executor::finish::{
    BlockExecutionResult, DaoFork, FinishAction, FinishProgress, FinishReply,
};
use eth_block_executor::hardforks::{EthereumHardfork, EthereumHardforks, ForkCondition};
use eth_block_executor::primitives::{Address, B256, SYSTEM_ADDRESS, U256};
use eth_block_executor::requests::BRIDGE_REQUEST_TYPE;
use eth_block_executor::spec::{EthExecutorSpec, EthSpec};
use eth_block_executor::system_calls::{
    staking_distribution_call, staking_gates, DEFAULT_STAKING_CONTRACT,
};
use eth_block_executor::withdrawals::Withdrawal;

const BRIDGE: Address = Address { bytes: [0xb0; 20] };
const STAKING: Address = Address { bytes: [0x57; 20] };
const BENEFICIARY: Address = Address { bytes: [0xbf; 20] };
const MINER: Address = Address { bytes: [0x11; 20] };

#[derive(Debug, Clone)]
struct Chain {
    prague: ForkCondition,
    dao: ForkCondition,
    bridge_active: bool,
    staking_active: bool,
    staking_contract: Option<Address>,
}

impl EthereumHardforks for Chain {
    fn ethereum_fork_activation(&self, fork: EthereumHardfork) -> ForkCondition {
        match fork {
            EthereumHardfork::Prague => self.prague,
            EthereumHardfork::Dao => self.dao,
            _ => ForkCondition::Never,
        }
    }
}

impl EthExecutorSpec for Chain {
    fn deposit_contract_address(&self) -> Option<Address> {
        None
    }
    fn staking_contract_address(&self) -> Option<Address> {
        self.staking_contract
    }
    fn is_staking_activate_at_timestamp(&self, timestamp: u64) -> bool {
        self.staking_active && timestamp == 77
    }
    fn bridge_contract_address(&self) -> Option<Address> {
        Some(BRIDGE)
    }
    fn is_bridge_active_at_timestamp(&self, timestamp: u64) -> bool {
        self.bridge_active && timestamp == 77
    }
}

fn chain() -> Chain {
    Chain {
        prague: ForkCondition::Timestamp(1_000),
        dao: ForkCondition::Block(64),
        bridge_active: true,
        staking_active: false,
        staking_contract: None,
    }
}

struct Builder;

impl ReceiptBuilder for Builder {
    type Transaction = ();
    type Evm = &'static str;
    type ExecutionResult = ();
    type State = ();
    type Receipt = u64;

    fn build_receipt(&self, ctx: ReceiptBuilderCtx<'_, (), &'static str, (), ()>) -> u64 {
        ctx.cumulative_gas_used
    }
}

fn env(number: u64, timestamp: u64) -> BlockEnv {
    BlockEnv {
        number: U256 { limbs: [number, 0, 0, 0] },
        timestamp: U256 { limbs: [timestamp, 0, 0, 0] },
        gas_limit: 30_000_000,
    }
}

fn dao() -> DaoFork {
    DaoFork {
        accounts: vec![Address { bytes: [1; 20] }, Address { bytes: [2; 20] }],
        beneficiary: BENEFICIARY,
    }
}

fn ctx() -> EthBlockExecutionCtx<'static> {
    EthBlockExecutionCtx {
        parent_hash: B256 { bytes: [3; 32] },
        parent_beacon_block_root: None,
        ommers: &[],
        withdrawals: None,
        timestamp: 77,
        bridge_request: None,
        bridge_request_raw: None,
    }
}

fn withdrawals(validator_index: u64) -> Option<Vec<Withdrawal>> {
    let first = Withdrawal { index: 4, validator_index, address: MINER, amount: 5 };
    Some(vec![first, Withdrawal::default()])
}

/// What the calls return. The state that a system call leaves is a number.
struct Host {
    deposits: Result<Vec<u8>, &'static str>,
    post_execution: Result<Requests, &'static str>,
    bridge: Result<u32, String>,
    staking: Result<u32, String>,
    drained: Option<Vec<u128>>,
    applied: bool,
    reported: Result<(), &'static str>,
}

fn host() -> Host {
    Host {
        deposits: Ok(vec![0xd1, 0xd2]),
        post_execution: Ok(Requests::new(vec![
            Bytes::from(vec![1, 0xaa]),
            Bytes::from(vec![2, 0xbb]),
        ])),
        bridge: Ok(500),
        staking: Ok(600),
        drained: Some(vec![30, 12]),
        applied: true,
        reported: Ok(()),
    }
}

type Outcome = Result<(&'static str, BlockExecutionResult<u64>), BlockExecutionError<&'static str>>;

fn show(increments: &BalanceIncrements) -> String {
    let mut shown = String::new();
    for (address, amount) in increments.entries() {
        shown.push_str(&format!(" {:02x}:{}", address.bytes[0], amount));
    }
    shown
}

/// Finishes a block. Returns the calls that were made, in words, and the outcome.
fn finish<Spec: EthExecutorSpec>(
    spec: Spec,
    ctx: EthBlockExecutionCtx<'static>,
    block: BlockEnv,
    host: Host,
) -> (Vec<String>, Outcome) {
    let mut executor = EthBlockExecutor::new("evm", ctx, spec, Builder);
    let report = executor.report_transaction((), ());
    executor.commit_transaction(&(), 100, report, 90);
    let mut calls = Vec::new();
    let mut progress = executor.finish::<u32, &'static str>(&block, dao());
    let (mut post_execution, mut deposits) = (Some(host.post_execution), Some(host.deposits));
    loop {
        let (mut block, action) = match progress {
            FinishProgress::Pending { block, action } => (block, action),
            FinishProgress::Done { evm, result } => return (calls, Ok((evm, result))),
            FinishProgress::Failed(error) => return (calls, Err(error)),
        };
        assert_eq!(*block.executor().receipts(), vec![90]);
        let reported_as = action.state_change_source();
        let (call, reply) = match action {
            FinishAction::ParseDeposits => {
                ("deposits".to_string(), FinishReply::Deposits(deposits.take().unwrap()))
            }
            FinishAction::ApplyPostExecutionChanges => (
                "post-execution".to_string(),
                FinishReply::PostExecutionRequests(post_execution.take().unwrap()),
            ),
            FinishAction::TransactSystemCall { purpose, call } => {
                assert_eq!(call.caller.bytes, SYSTEM_ADDRESS);
                let word =
                    format!("{:?} {:02x} {}", purpose, call.contract.bytes[0], call.data.len());
                let reply = match purpose {
                    StateChangePostBlockSource::BridgeExecution => host.bridge.clone(),
                    StateChangePostBlockSource::StakingDistribution => host.staking.clone(),
                    StateChangePostBlockSource::BalanceIncrements => panic!("not a call"),
                };
                (word, FinishReply::SystemCall(reply))
            }
            FinishAction::CommitState { source, state } => {
                *block.evm_mut() = "committed";
                assert_eq!(reported_as, Some(StateChangeSource::PostBlock(source)));
                (format!("commit {source:?} {state}"), FinishReply::StateCommitted)
            }
            FinishAction::CollectBalanceIncrements => {
                assert_eq!(reported_as, None);
                let increments = BalanceIncrements::new().increased(MINER, 3);
                ("collect".to_string(), FinishReply::BalanceIncrements(increments))
            }
            FinishAction::DrainBalances(accounts) => {
                (format!("drain {}", accounts.len()), FinishReply::Drained(host.drained.clone()))
            }
            FinishAction::IncrementBalances(increments) => (
                format!("increment{}", show(&increments)),
                FinishReply::BalancesIncremented(host.applied),
            ),
            FinishAction::ReportBalanceIncrements(increments) => {
                let source = StateChangePostBlockSource::BalanceIncrements;
                assert_eq!(reported_as, Some(StateChangeSource::PostBlock(source)));
                (format!("report{}", show(&increments)), FinishReply::Reported(host.reported))
            }
        };
        calls.push(call);
        progress = block.resume(reply);
    }
}

fn requests_of(outcome: Outcome) -> Vec<Vec<u8>> {
    match outcome {
        Ok((_, result)) => result.requests.iter().map(|request| request.to_vec()).collect(),
        Err(error) => panic!("{error:?}"),
    }
}

#[test]
fn a_plain_block_only_gets_its_increments() {
    let (calls, outcome) = finish(chain(), ctx(), env(5, 999), host());
    assert_eq!(calls, vec!["collect", "increment 11:3", "report 11:3"]);
    let (evm, result) = outcome.unwrap();
    assert_eq!(evm, "evm");
    assert_eq!((result.receipts, result.gas_used), (vec![90], 90));
    assert!(result.requests.is_empty());
}

#[test]
fn every_call_has_its_place() {
    let mut ctx = ctx();
    ctx.bridge_request = Some(vec![9, 9, 9]);
    ctx.bridge_request_raw = Some(vec![0xee, 0xff]);
    ctx.withdrawals = withdrawals(u64::MAX);
    let (calls, outcome) = finish(chain(), ctx, env(64, 1_000), host());
    assert_eq!(
        calls,
        vec![
            "deposits",
            "post-execution",
            "BridgeExecution b0 3",
            "commit BridgeExecution 500",
            "collect",
            "drain 2",
            "increment 11:3 bf:42",
            "StakingDistribution 11 32",
            "commit StakingDistribution 600",
            "report 11:3 bf:42",
        ]
    );
    assert_eq!(
        requests_of(outcome),
        vec![
            vec![0, 0xd1, 0xd2],
            vec![1, 0xaa],
            vec![2, 0xbb],
            vec![BRIDGE_REQUEST_TYPE, 0xee, 0xff],
        ]
    );
}

#[test]
fn the_bridge_entry_has_its_own_type() {
    assert_eq!(BRIDGE_REQUEST_TYPE, 0xf0);
    assert_eq!(alloy_eips::eip6110::DEPOSIT_REQUEST_TYPE, 0);
}

#[test]
fn before_prague_there_are_no_requests() {
    let mut ctx = ctx();
    ctx.bridge_request = Some(vec![9]);
    ctx.bridge_request_raw = Some(vec![0xee]);
    let (calls, outcome) = finish(chain(), ctx, env(5, 999), host());
    assert_eq!(calls[0], "BridgeExecution b0 1");
    assert!(requests_of(outcome).is_empty());
}

#[test]
fn the_bridge_entry_does_not_need_the_bridge_call() {
    let mut ctx = ctx();
    ctx.bridge_request = Some(vec![9]);
    ctx.bridge_request_raw = Some(vec![0xee]);
    let mut chain = chain();
    chain.bridge_active = false;
    let (calls, outcome) = finish(chain, ctx, env(5, 1_000), host());
    assert_eq!(calls[2], "collect");
    assert_eq!(requests_of(outcome).last().unwrap(), &vec![0xf0, 0xee]);
}

#[test]
fn empty_requests_are_left_out() {
    let mut ctx = ctx();
    ctx.bridge_request_raw = Some(vec![]);
    let mut host = host();
    host.deposits = Ok(vec![]);
    let (_, outcome) = finish(chain(), ctx, env(5, 1_000), host);
    assert_eq!(requests_of(outcome), vec![vec![1, 0xaa], vec![2, 0xbb]]);
}

#[test]
fn a_replayed_block_has_no_bridge_entry() {
    let (_, outcome) = finish(chain(), ctx(), env(5, 1_000), host());
    assert_eq!(
        requests_of(outcome),
        vec![vec![0, 0xd1, 0xd2], vec![1, 0xaa], vec![2, 0xbb]]
    );
}

#[test]
fn late_timestamps_saturate() {
    let mut block = env(5, 0);
    block.timestamp = U256 { limbs: [0, 0, 1, 0] };
    let (calls, _) = finish(chain(), ctx(), block, host());
    assert_eq!(calls[0], "deposits");
}

#[test]
fn the_committed_state_reaches_the_evm() {
    let mut ctx = ctx();
    ctx.bridge_request = Some(vec![9]);
    let (_, outcome) = finish(chain(), ctx, env(5, 1_000), host());
    assert_eq!(outcome.unwrap().0, "committed");
}

#[test]
fn failed_deposits_end_the_block() {
    let mut host = host();
    host.deposits = Err("bad log");
    let (calls, outcome) = finish(chain(), ctx(), env(5, 1_000), host);
    assert_eq!(calls, vec!["deposits"]);
    assert!(matches!(outcome, Err(BlockExecutionError::Call("bad log"))));
}

#[test]
fn failed_post_execution_changes_end_the_block() {
    let mut host = host();
    host.post_execution = Err("no contract");
    let (calls, outcome) = finish(chain(), ctx(), env(5, 1_000), host);
    assert_eq!(calls, vec!["deposits", "post-execution"]);
    assert!(matches!(outcome, Err(BlockExecutionError::Call("no contract"))));
}

#[test]
fn a_failed_bridge_call_ends_the_block() {
    let mut ctx = ctx();
    ctx.bridge_request = Some(vec![9]);
    let mut host = host();
    host.bridge = Err("database is gone".to_string());
    let (calls, outcome) = finish(chain(), ctx, env(5, 999), host);
    assert_eq!(calls, vec!["BridgeExecution b0 1"]);
    match outcome {
        Err(BlockExecutionError::Message(message)) => {
            assert_eq!(message, "0G bridge system call execution failed: database is gone")
        }
        _ => panic!("the failure is put in words"),
    }
}

#[test]
fn a_failed_drain_ends_the_block() {
    let mut host = host();
    host.drained = None;
    let (calls, outcome) = finish(chain(), ctx(), env(64, 999), host);
    assert_eq!(calls, vec!["collect", "drain 2"]);
    assert!(matches!(
        outcome,
        Err(BlockExecutionError::Validation(BlockValidationError::IncrementBalanceFailed))
    ));
}

#[test]
fn failed_increments_end_the_block() {
    let mut host = host();
    host.applied = false;
    let (calls, outcome) = finish(chain(), ctx(), env(5, 999), host);
    assert_eq!(calls, vec!["collect", "increment 11:3"]);
    assert!(matches!(
        outcome,
        Err(BlockExecutionError::Validation(BlockValidationError::IncrementBalanceFailed))
    ));
}

#[test]
fn a_failed_report_ends_the_block() {
    let mut host = host();
    host.reported = Err("no account");
    let (calls, outcome) = finish(chain(), ctx(), env(5, 999), host);
    assert_eq!(calls.len(), 3);
    assert!(matches!(outcome, Err(BlockExecutionError::Call("no account"))));
}

#[test]
fn a_failed_staking_call_is_passed_over() {
    let mut ctx = ctx();
    ctx.withdrawals = withdrawals(u64::MAX);
    let mut host = host();
    host.staking = Err("reverted".to_string());
    let (calls, outcome) = finish(chain(), ctx, env(5, 999), host);
    assert_eq!(
        calls,
        vec!["collect", "increment 11:3", "StakingDistribution 11 32", "report 11:3"]
    );
    assert_eq!(outcome.unwrap().0, "evm");
}

#[test]
fn the_dao_fork_happens_on_one_block() {
    for number in [63, 65, u64::MAX] {
        let (calls, _) = finish(chain(), ctx(), env(number, 999), host());
        assert_eq!(calls, vec!["collect", "increment 11:3", "report 11:3"]);
    }
    let (calls, _) = finish(EthSpec::mainnet(), ctx(), env(1_920_000, 999), host());
    assert_eq!(calls, vec!["collect", "drain 2", "increment 11:3 bf:42", "report 11:3 bf:42"]);
    let (calls, _) = finish(EthSpec::mainnet(), ctx(), env(1_920_001, 999), host());
    assert_eq!(calls, vec!["collect", "increment 11:3", "report 11:3"]);
}

#[test]
fn staking_pays_to_the_contract_of_the_time() {
    let list = withdrawals(u64::MAX);
    let amount: Vec<u8> = {
        let mut bytes = vec![0; 27];
        bytes.extend([0x01, 0x2a, 0x05, 0xf2, 0x00]);
        bytes
    };
    let mut chain = chain();
    let call = staking_distribution_call(&chain, 77, &list).unwrap();
    assert_eq!((call.caller.bytes, call.contract), (SYSTEM_ADDRESS, MINER));
    assert_eq!(call.data, amount);
    chain.staking_active = true;
    let call = staking_distribution_call(&chain, 77, &list).unwrap();
    assert_eq!(call.contract.bytes, DEFAULT_STAKING_CONTRACT);
    assert_eq!(call.data, amount);
    let call = staking_distribution_call(&chain, 76, &list).unwrap();
    assert_eq!(call.contract, MINER);
    chain.staking_contract = Some(STAKING);
    let call = staking_distribution_call(&chain, 77, &list).unwrap();
    assert_eq!(call.contract, STAKING);
}

#[test]
fn the_default_staking_contract_has_its_address() {
    let address: alloy_primitives::Address =
        "0xea224dBB52F57752044c0C86aD50930091F561B9".parse().unwrap();
    assert_eq!(DEFAULT_STAKING_CONTRACT, address.into_array());
}

#[test]
fn staking_needs_the_marker_and_a_second_withdrawal() {
    assert!(staking_gates(true, Some(STAKING), &None).is_none());
    assert!(staking_gates(true, Some(STAKING), &Some(vec![])).is_none());
    let only = withdrawals(u64::MAX).map(|list| vec![list[0]]);
    assert!(staking_gates(true, Some(STAKING), &only).is_none());
    assert!(staking_gates(true, Some(STAKING), &withdrawals(u64::MAX - 1)).is_none());
    assert!(staking_gates(true, Some(STAKING), &withdrawals(u64::MAX)).is_some());
    assert!(staking_gates(false, Some(STAKING), &withdrawals(u64::MAX)).is_some());
}

#[test]
fn the_largest_staking_amount_is_paid_in_full() {
    let mut list = withdrawals(u64::MAX);
    list.as_mut().unwrap()[0].amount = u64::MAX;
    let call = staking_gates(false, None, &list).unwrap();
    let wei = alloy_primitives::U256::from(u64::MAX as u128 * 1_000_000_000);
    assert_eq!(call.data, wei.to_be_bytes::<32>().to_vec());
    assert_eq!(call.data.len(), 32);
}

#[test]
fn only_the_awaited_reply_is_accepted() {
    let executor = EthBlockExecutor::new("evm", ctx(), chain(), Builder);
    let progress = executor.finish::<u32, &'static str>(&env(64, 999), dao());
    let block = match progress {
        FinishProgress::Pending { block, action: FinishAction::CollectBalanceIncrements } => block,
        _ => panic!("increments come first"),
    };
    assert!(!block.accepts::<u32, ()>(&FinishReply::StateCommitted));
    assert!(!block.accepts::<u32, ()>(&FinishReply::Drained(None)));
    let increments = BalanceIncrements::new().increased(BENEFICIARY, 10);
    let reply: FinishReply<u32, &'static str> = FinishReply::BalanceIncrements(increments);
    assert!(block.accepts(&reply));
    let block = match block.resume(reply) {
        FinishProgress::Pending { block, action: FinishAction::DrainBalances(_) } => block,
        _ => panic!("the DAO fork follows"),
    };
    let drained = |amounts| FinishReply::<u32, ()>::Drained(Some(amounts));
    assert!(block.accepts(&drained(vec![u128::MAX - 10])));
    assert!(!block.accepts(&drained(vec![u128::MAX - 9])));
    assert!(!block.accepts(&drained(vec![u128::MAX, 1])));
    assert!(block.accepts(&FinishReply::<u32, ()>::Drained(None)));
}
