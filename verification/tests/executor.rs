use eth_block_executor::balances::{total, BalanceIncrements};
use eth_block_executor::block::{
    after_pre_execution_change, executed_transaction, BlockEnv, EthBlockExecutionCtx,
    EthBlockExecutor, PreExecutionChange, ReceiptBuilder, ReceiptBuilderCtx, StateChangeSource,
};
use eth_block_executor::error::{BlockExecutionError, BlockValidationError};
use eth_block_executor::factory::EthBlockExecutorFactory;
use eth_block_executor::primitives::{Address, B256, U256};
use eth_block_executor::spec::{EthExecutorSpec, EthSpec};

/// Receipts that show what they were built from.
#[derive(Debug, Clone, PartialEq)]
struct Receipt {
    tx: u32,
    evm: &'static str,
    result: char,
    state: u8,
    cumulative_gas_used: u64,
}

#[derive(Debug, Clone, Copy, PartialEq)]
struct Builder;

impl ReceiptBuilder for Builder {
    type Transaction = u32;
    type Evm = &'static str;
    type ExecutionResult = char;
    type State = u8;
    type Receipt = Receipt;

    fn build_receipt(
        &self,
        ctx: ReceiptBuilderCtx<'_, u32, &'static str, char, u8>,
    ) -> Receipt {
        Receipt {
            tx: *ctx.tx,
            evm: *ctx.evm,
            result: ctx.result,
            state: *ctx.state,
            cumulative_gas_used: ctx.cumulative_gas_used,
        }
    }
}

fn word(value: u64) -> U256 {
    U256 { limbs: [value, 0, 0, 0] }
}

fn env(number: U256, gas_limit: u64) -> BlockEnv {
    BlockEnv { number, timestamp: word(0), gas_limit }
}

fn ctx() -> EthBlockExecutionCtx<'static> {
    EthBlockExecutionCtx {
        parent_hash: B256 { bytes: [3; 32] },
        parent_beacon_block_root: Some(B256 { bytes: [4; 32] }),
        ommers: &[],
        withdrawals: None,
        timestamp: 0,
        bridge_request: None,
        bridge_request_raw: None,
    }
}

fn executor() -> EthBlockExecutor<'static, &'static str, EthSpec, Builder> {
    EthBlockExecutor::new("evm", ctx(), EthSpec::mainnet(), Builder)
}

/// Commits a transaction. Returns the gas that it is charged.
fn commit<Spec, R>(
    executor: &mut EthBlockExecutor<'_, &'static str, Spec, R>,
    tx: u32,
    tx_gas_limit: u64,
    result: char,
    raw_gas_used: u64,
    state: u8,
) -> u64
where
    Spec: EthExecutorSpec,
    R: ReceiptBuilder<
        Transaction = u32,
        Evm = &'static str,
        ExecutionResult = char,
        State = u8,
    >,
{
    let report = executor.report_transaction(result, state);
    let commit = executor.commit_transaction(&tx, tx_gas_limit, report, raw_gas_used);
    assert_eq!(commit.state, state);
    commit.gas_used
}

#[test]
fn a_new_executor_has_executed_nothing() {
    let executor = executor();
    assert_eq!(*executor.evm(), "evm");
    assert!(executor.receipts().is_empty());
    assert_eq!(executor.gas_used(), 0);
    assert_eq!(executor.next_transaction_source(), StateChangeSource::Transaction(0));
    assert_eq!(executor.ctx().parent_hash.bytes, [3; 32]);
    assert_eq!(
        executor.spec().deposit_contract_address(),
        EthSpec::mainnet().deposit_contract_address()
    );
    let (evm, receipts, gas_used) = executor.into_parts();
    assert_eq!((evm, receipts.len(), gas_used), ("evm", 0, 0));
}

#[test]
fn the_evm_can_be_changed() {
    let mut executor = executor();
    *executor.evm_mut() = "another";
    assert_eq!(*executor.evm(), "another");
}

#[test]
fn the_inputs_can_be_changed() {
    let mut executor = executor();
    executor.ctx_mut().bridge_request_raw = Some(vec![7, 8]);
    assert_eq!(executor.ctx().bridge_request_raw, Some(vec![7, 8]));
    assert_eq!(executor.ctx().timestamp, ctx().timestamp);
}

fn state_clear_flag(number: U256) -> bool {
    let changes = executor().apply_pre_execution_changes(&env(number, 0));
    assert_eq!(changes.len(), 3);
    match changes[1] {
        PreExecutionChange::BlockhashesContractCall(hash) => assert_eq!(hash.bytes, [3; 32]),
        _ => panic!("block hashes come second"),
    }
    match changes[2] {
        PreExecutionChange::BeaconRootContractCall(root) => {
            assert_eq!(root.map(|root| root.bytes), Some([4; 32]))
        }
        _ => panic!("the beacon root comes third"),
    }
    match changes[0] {
        PreExecutionChange::SetStateClearFlag(flag) => flag,
        _ => panic!("the flag comes first"),
    }
}

#[test]
fn state_is_cleared_from_spurious_dragon_on() {
    assert!(!state_clear_flag(word(0)));
    assert!(!state_clear_flag(word(2_674_999)));
    assert!(state_clear_flag(word(2_675_000)));
}

#[test]
fn large_block_numbers_saturate() {
    for limbs in [[0, 1, 0, 0], [0, 0, 1, 0], [0, 0, 0, 1], [5, 5, 5, 5]] {
        assert!(state_clear_flag(U256 { limbs }));
    }
    assert!(state_clear_flag(word(u64::MAX)));
}

/// Makes the changes that precede the first transaction, the contract calls with the given results.
/// Returns how many changes were made and what they came to.
fn make_changes(
    blockhashes: Result<(), &'static str>,
    beacon_root: Result<(), &'static str>,
) -> (usize, Result<(), &'static str>) {
    let changes = executor().apply_pre_execution_changes(&env(word(1), 0));
    let mut made = 0;
    loop {
        let result = match changes[made] {
            PreExecutionChange::SetStateClearFlag(_) => Ok(()),
            PreExecutionChange::BlockhashesContractCall(_) => blockhashes,
            PreExecutionChange::BeaconRootContractCall(_) => beacon_root,
        };
        let next = after_pre_execution_change(&changes, made, result);
        made += 1;
        match next {
            Ok(Some(PreExecutionChange::BlockhashesContractCall(hash))) => {
                assert_eq!((made, hash.bytes), (1, [3; 32]))
            }
            Ok(Some(PreExecutionChange::BeaconRootContractCall(_))) => assert_eq!(made, 2),
            Ok(Some(PreExecutionChange::SetStateClearFlag(_))) => panic!("the flag is set once"),
            Ok(None) => return (made, Ok(())),
            Err(error) => return (made, Err(error)),
        }
    }
}

#[test]
fn pre_execution_changes_end_at_the_first_error() {
    assert_eq!(make_changes(Ok(()), Ok(())), (3, Ok(())));
    assert_eq!(make_changes(Err("hashes"), Ok(())), (2, Err("hashes")));
    assert_eq!(make_changes(Err("hashes"), Err("root")), (2, Err("hashes")));
    assert_eq!(make_changes(Ok(()), Err("root")), (3, Err("root")));
}

#[test]
fn transactions_are_reported_before_they_have_a_receipt() {
    let mut executor = executor();
    for (index, state) in [(0, 5), (1, 6)] {
        let report = executor.report_transaction('a', state);
        assert_eq!(report.source, StateChangeSource::Transaction(index));
        assert_eq!((report.state, report.result), (state, 'a'));
        assert_eq!((executor.receipts().len(), executor.gas_used()), (index, 10 * index as u64));
        let commit = executor.commit_transaction(&1, 10, report, 10);
        assert_eq!((commit.state, commit.gas_used), (state, 10));
        assert_eq!(executor.receipts()[index].state, state);
    }
}

#[test]
fn transactions_must_fit_into_the_block() {
    let mut executor = executor();
    let block = env(word(1), 100);
    assert_eq!(executor.check_transaction_gas_limit(&block, 100), Ok(()));
    assert_eq!(
        executor.check_transaction_gas_limit(&block, 101),
        Err(BlockValidationError::TransactionGasLimitMoreThanAvailableBlockGas {
            transaction_gas_limit: 101,
            block_available_gas: 100,
        })
    );
    commit(&mut executor, 1, 50, 'a', 45, 0);
    assert_eq!(executor.check_transaction_gas_limit(&block, 55), Ok(()));
    assert_eq!(
        executor.check_transaction_gas_limit(&block, 56),
        Err(BlockValidationError::TransactionGasLimitMoreThanAvailableBlockGas {
            transaction_gas_limit: 56,
            block_available_gas: 55,
        })
    );
}

#[test]
fn transactions_are_charged_at_least_most_of_their_limit() {
    let cases = [
        (100_000, 21_000, 80_000),
        (100_000, 79_999, 80_000),
        (100_000, 80_000, 80_000),
        (100_000, 80_001, 80_001),
        (100_000, 100_000, 100_000),
        (21_001, 0, 16_800),
        (1, 0, 0),
        (0, 0, 0),
        (u64::MAX / 4, 0, 3_689_348_814_741_910_322),
    ];
    for (limit, raw, charged) in cases {
        assert_eq!(commit(&mut executor(), 1, limit, 'a', raw, 0), charged);
    }
}

#[test]
fn receipts_carry_the_gas_of_the_block_so_far() {
    let mut executor = executor();
    assert_eq!(commit(&mut executor, 7, 100_000, 'a', 21_000, 1), 80_000);
    *executor.evm_mut() = "later";
    assert_eq!(executor.next_transaction_source(), StateChangeSource::Transaction(1));
    assert_eq!(commit(&mut executor, 8, 100_000, 'b', 90_000, 2), 90_000);
    let first = Receipt { tx: 7, evm: "evm", result: 'a', state: 1, cumulative_gas_used: 80_000 };
    let second =
        Receipt { tx: 8, evm: "later", result: 'b', state: 2, cumulative_gas_used: 170_000 };
    assert_eq!(*executor.receipts(), vec![first, second]);
    let (_, _, gas_used) = executor.into_parts();
    assert_eq!(gas_used, 170_000);
}

#[test]
fn admitted_transactions_stay_within_the_block() {
    let mut executor = executor();
    let block = env(word(1), 1_000);
    let mut used = 0;
    for (limit, raw) in [(400, 10), (400, 400), (281, 0), (280, 1), (56, 56), (1, 0)] {
        if executor.check_transaction_gas_limit(&block, limit).is_ok() {
            used += commit(&mut executor, 1, limit, 'a', raw, 0);
        }
        assert!(used <= 1_000);
    }
    // 320, 400, refused (281 of 280 left), 224, 56 and 0
    assert_eq!(used, 1_000);
}

#[test]
fn failed_executions_name_the_transaction() {
    let hash = B256 { bytes: [9; 32] };
    match executed_transaction::<u8, &str>(Err("halt"), hash) {
        Err(BlockExecutionError::Transaction { hash, error }) => {
            assert_eq!((hash.bytes, error), ([9; 32], "halt"))
        }
        _ => panic!("the error names the transaction"),
    }
    assert!(matches!(executed_transaction::<u8, &str>(Ok(5), hash), Ok(5)));
}

#[test]
fn factories_hand_out_executors() {
    let factory = EthBlockExecutorFactory::new(Builder, EthSpec::sepolia(), "factory");
    assert_eq!(*factory.receipt_builder(), Builder);
    assert_eq!(*factory.evm_factory(), "factory");
    let deposit = EthSpec::sepolia().deposit_contract_address();
    assert_eq!(factory.spec().deposit_contract_address(), deposit);
    let mut executor = factory.create_executor("evm", ctx());
    assert_eq!(executor.spec().deposit_contract_address(), deposit);
    assert_eq!(commit(&mut executor, 7, 10, 'a', 9, 1), 9);
    assert_eq!(executor.receipts()[0].cumulative_gas_used, 9);
}

#[test]
fn increments_add_up_by_address() {
    let a = Address { bytes: [1; 20] };
    let b = Address { bytes: [2; 20] };
    let increments = BalanceIncrements::new().increased(a, 5).increased(b, 7).increased(a, 6);
    assert_eq!(*increments.entries(), vec![(a, 11), (b, 7)]);
    assert_eq!(increments.amount(a), 11);
    assert_eq!(increments.amount(b), 7);
    assert_eq!(increments.amount(Address { bytes: [3; 20] }), 0);
    assert_eq!(increments.clone().entries(), increments.entries());
    let all = BalanceIncrements::new().increased(a, u128::MAX).increased(a, 0);
    assert_eq!(all.amount(a), u128::MAX);
}

#[test]
fn amounts_are_added_up() {
    assert_eq!(total(&vec![]), Some(0));
    assert_eq!(total(&vec![1, 2, 3]), Some(6));
    assert_eq!(total(&vec![u128::MAX, 0]), Some(u128::MAX));
    assert_eq!(total(&vec![u128::MAX, 1]), None);
    assert_eq!(total(&vec![u128::MAX, 1, u128::MAX]), None);
}
