use alloy_hardforks::{
    EthereumChainHardforks, EthereumHardfork as AlloyFork, EthereumHardforks as AlloyForks,
    ForkCondition as AlloyCondition,
};
use eth_block_executor::hardforks::{EthereumHardfork, EthereumHardforks, ForkCondition};
use eth_block_executor::primitives::{Address, U256};
use eth_block_executor::spec::{EthExecutorSpec, EthSpec};
use std::sync::Arc;

const FORKS: [(EthereumHardfork, AlloyFork); 19] = [
    (EthereumHardfork::Frontier, AlloyFork::Frontier),
    (EthereumHardfork::Homestead, AlloyFork::Homestead),
    (EthereumHardfork::Dao, AlloyFork::Dao),
    (EthereumHardfork::Tangerine, AlloyFork::Tangerine),
    (EthereumHardfork::SpuriousDragon, AlloyFork::SpuriousDragon),
    (EthereumHardfork::Byzantium, AlloyFork::Byzantium),
    (EthereumHardfork::Constantinople, AlloyFork::Constantinople),
    (EthereumHardfork::Petersburg, AlloyFork::Petersburg),
    (EthereumHardfork::Istanbul, AlloyFork::Istanbul),
    (EthereumHardfork::MuirGlacier, AlloyFork::MuirGlacier),
    (EthereumHardfork::Berlin, AlloyFork::Berlin),
    (EthereumHardfork::London, AlloyFork::London),
    (EthereumHardfork::ArrowGlacier, AlloyFork::ArrowGlacier),
    (EthereumHardfork::GrayGlacier, AlloyFork::GrayGlacier),
    (EthereumHardfork::Paris, AlloyFork::Paris),
    (EthereumHardfork::Shanghai, AlloyFork::Shanghai),
    (EthereumHardfork::Cancun, AlloyFork::Cancun),
    (EthereumHardfork::Prague, AlloyFork::Prague),
    (EthereumHardfork::Osaka, AlloyFork::Osaka),
];

fn block(number: u64) -> ForkCondition {
    ForkCondition::Block(number)
}

fn time(timestamp: u64) -> ForkCondition {
    ForkCondition::Timestamp(timestamp)
}

fn merge(block: u64, fork_block: Option<u64>, limbs: [u64; 4]) -> ForkCondition {
    ForkCondition::TTD {
        activation_block_number: block,
        fork_block,
        total_difficulty: U256 { limbs },
    }
}

fn to_alloy(condition: ForkCondition) -> AlloyCondition {
    match condition {
        ForkCondition::Block(block) => AlloyCondition::Block(block),
        ForkCondition::TTD { activation_block_number, fork_block, total_difficulty } => {
            AlloyCondition::TTD {
                activation_block_number,
                fork_block,
                total_difficulty: alloy_primitives::U256::from_limbs(total_difficulty.limbs),
            }
        }
        ForkCondition::Timestamp(time) => AlloyCondition::Timestamp(time),
        ForkCondition::Never => AlloyCondition::Never,
    }
}

fn check(chain: &EthSpec, table: &EthereumChainHardforks, expected: [ForkCondition; 19]) {
    for (i, (fork, alloy)) in FORKS.iter().enumerate() {
        let condition = chain.ethereum_fork_activation(*fork);
        assert_eq!(condition, expected[i], "{fork:?}");
        assert_eq!(to_alloy(condition), table.ethereum_fork_activation(*alloy), "{fork:?}");
    }
}

#[test]
fn mainnet_forks() {
    check(
        &EthSpec::mainnet(),
        &EthereumChainHardforks::mainnet(),
        [
            block(0),
            block(1_150_000),
            block(1_920_000),
            block(2_463_000),
            block(2_675_000),
            block(4_370_000),
            block(7_280_000),
            block(7_280_000),
            block(9_069_000),
            block(9_200_000),
            block(12_244_000),
            block(12_965_000),
            block(13_773_000),
            block(15_050_000),
            merge(15_537_394, None, [0xd808_a128_d738_0000, 0xc70, 0, 0]),
            time(1_681_338_455),
            time(1_710_338_135),
            time(1_746_612_311),
            ForkCondition::Never,
        ],
    );
}

#[test]
fn sepolia_forks() {
    let zero = block(0);
    let never = ForkCondition::Never;
    check(
        &EthSpec::sepolia(),
        &EthereumChainHardforks::sepolia(),
        [
            zero,
            zero,
            zero,
            zero,
            zero,
            zero,
            zero,
            zero,
            zero,
            zero,
            zero,
            zero,
            never,
            never,
            merge(1_450_409, Some(1_735_371), [17_000_000_000_000_000, 0, 0, 0]),
            time(1_677_557_088),
            time(1_706_655_072),
            time(1_741_159_776),
            never,
        ],
    );
}

#[test]
fn holesky_forks() {
    let zero = block(0);
    let never = ForkCondition::Never;
    check(
        &EthSpec::holesky(),
        &EthereumChainHardforks::holesky(),
        [
            zero,
            zero,
            zero,
            zero,
            zero,
            zero,
            zero,
            zero,
            zero,
            zero,
            zero,
            zero,
            never,
            never,
            merge(0, Some(0), [0, 0, 0, 0]),
            time(1_696_000_704),
            time(1_707_305_664),
            time(1_740_434_112),
            never,
        ],
    );
}

#[test]
fn copies_keep_the_forks() {
    let chain = EthSpec::sepolia();
    let copy = chain.clone();
    for (fork, _) in FORKS {
        assert_eq!(copy.ethereum_fork_activation(fork), chain.ethereum_fork_activation(fork));
        let shared = Arc::new(copy.clone());
        assert_eq!(shared.ethereum_fork_activation(fork), chain.ethereum_fork_activation(fork));
        assert_eq!((&&copy).ethereum_fork_activation(fork), chain.ethereum_fork_activation(fork));
    }
    assert_eq!(copy.deposit_contract_address(), chain.deposit_contract_address());
}

#[test]
fn deposit_contracts() {
    let mainnet = EthSpec::mainnet().deposit_contract_address();
    assert_eq!(
        mainnet.map(|address| address.bytes),
        Some(alloy_eips::eip6110::MAINNET_DEPOSIT_CONTRACT_ADDRESS.into_array())
    );
    let sepolia: alloy_primitives::Address =
        "0x7f02c3e3c98b133055b8b348b2ac625669ed295d".parse().unwrap();
    assert_eq!(
        EthSpec::sepolia().deposit_contract_address(),
        Some(Address { bytes: sepolia.into_array() })
    );
    let holesky: alloy_primitives::Address =
        "0x4242424242424242424242424242424242424242".parse().unwrap();
    assert_eq!(
        EthSpec::holesky().deposit_contract_address(),
        Some(Address { bytes: holesky.into_array() })
    );
}

#[test]
fn public_networks_have_no_staking() {
    for chain in [EthSpec::mainnet(), EthSpec::sepolia(), EthSpec::holesky()] {
        assert_eq!(chain.staking_contract_address(), None);
        assert!(!chain.is_staking_activate_at_timestamp(0));
        assert!(!chain.is_staking_activate_at_timestamp(u64::MAX));
    }
}

#[test]
fn conditions_hold_as_in_alloy() {
    let points = [0, 1, 9, 10, 11, u64::MAX - 1, u64::MAX];
    let mut conditions = vec![ForkCondition::Never];
    for point in points {
        conditions.push(block(point));
        conditions.push(time(point));
        conditions.push(merge(point, Some(3), [5, 0, 0, 0]));
        conditions.push(merge(point, None, [0, 0, 0, 1]));
    }
    for condition in conditions {
        let alloy = to_alloy(condition);
        for point in points {
            assert_eq!(condition.active_at_block(point), alloy.active_at_block(point));
            assert_eq!(condition.transitions_at_block(point), alloy.transitions_at_block(point));
            assert_eq!(condition.active_at_timestamp(point), alloy.active_at_timestamp(point));
        }
    }
}

#[test]
fn forks_activate_on_their_first_block() {
    let chain = EthSpec::mainnet();
    assert!(!chain.is_prague_active_at_timestamp(1_746_612_310));
    assert!(chain.is_prague_active_at_timestamp(1_746_612_311));
    assert!(!chain.is_spurious_dragon_active_at_block(2_674_999));
    assert!(chain.is_spurious_dragon_active_at_block(2_675_000));
}

#[test]
fn addresses_are_compared_by_all_bytes() {
    let mut bytes = [7u8; 20];
    let a = Address { bytes };
    assert_eq!(a, Address { bytes });
    for i in 0..20 {
        bytes[i] = 8;
        assert_ne!(a, Address { bytes });
        bytes[i] = 7;
    }
}
