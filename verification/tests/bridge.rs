use alloy_eips::eip7002::SYSTEM_ADDRESS as EIP7002_SYSTEM_ADDRESS;
use eth_block_executor::hardforks::{EthereumHardfork, EthereumHardforks, ForkCondition};
use eth_block_executor::primitives::{Address, SYSTEM_ADDRESS};
use eth_block_executor::spec::{EthExecutorSpec, EthSpec};
use eth_block_executor::system_calls::{
    bridge_contract_call, bridge_failure_message, bridge_gates,
};
use std::sync::Arc;

/// Lightweight settings that drive the gates.
#[derive(Debug, Clone, Default)]
struct MockSpec {
    bridge_address: Option<Address>,
    bridge_active: bool,
}

impl EthereumHardforks for MockSpec {
    fn ethereum_fork_activation(&self, _fork: EthereumHardfork) -> ForkCondition {
        ForkCondition::Never
    }
}

impl EthExecutorSpec for MockSpec {
    fn deposit_contract_address(&self) -> Option<Address> {
        None
    }
    fn staking_contract_address(&self) -> Option<Address> {
        None
    }
    fn is_staking_activate_at_timestamp(&self, _t: u64) -> bool {
        false
    }
    fn bridge_contract_address(&self) -> Option<Address> {
        self.bridge_address
    }
    fn is_bridge_active_at_timestamp(&self, _t: u64) -> bool {
        self.bridge_active
    }
}

/// Hands the bridge call to `sink`. Returns whether there is one.
fn run<F>(spec: &MockSpec, timestamp: u64, calldata: Option<Vec<u8>>, mut sink: F) -> bool
where
    F: FnMut(Address, Address, Vec<u8>),
{
    match bridge_contract_call(spec, timestamp, &calldata) {
        Some(call) => {
            sink(call.caller, call.contract, call.data);
            true
        }
        None => false,
    }
}

const BRIDGE_ADDR: Address =
    Address { bytes: [0, 0, 0, 0, 0, 0, 0, 0, 0, 0, 0, 0, 0, 0, 0, 0, 0, 0, 0, 0xB0] };

#[test]
fn no_op_when_fork_inactive() {
    let spec = MockSpec { bridge_address: Some(BRIDGE_ADDR), bridge_active: false };
    let cd = vec![1, 2, 3, 4];
    let invoked = run(&spec, 100, Some(cd), |_, _, _| panic!("should not invoke when inactive"));
    assert!(!invoked);
}

#[test]
fn no_op_when_address_missing() {
    let spec = MockSpec { bridge_address: None, bridge_active: true };
    let cd = vec![1, 2, 3, 4];
    let invoked = run(&spec, 100, Some(cd), |_, _, _| panic!("should not invoke"));
    assert!(!invoked);
}

#[test]
fn no_op_when_calldata_empty() {
    let spec = MockSpec { bridge_address: Some(BRIDGE_ADDR), bridge_active: true };
    let invoked = run(&spec, 100, None, |_, _, _| panic!("should not invoke for None"));
    assert!(!invoked);
    let empty = Vec::new();
    let invoked2 = run(&spec, 100, Some(empty), |_, _, _| panic!("should not invoke for empty"));
    assert!(!invoked2);
}

#[test]
fn happy_path_uses_system_address_and_target() {
    let spec = MockSpec { bridge_address: Some(BRIDGE_ADDR), bridge_active: true };
    let cd = vec![0xde, 0xad, 0xbe, 0xef];
    let mut captured: Option<(Address, Address, Vec<u8>)> = None;
    let invoked = run(&spec, 100, Some(cd), |caller, target, data| {
        captured = Some((caller, target, data));
    });
    assert!(invoked);
    let (caller, target, data) = captured.expect("happy path captured");
    assert_eq!(caller.bytes, SYSTEM_ADDRESS);
    assert_eq!(
        caller.bytes,
        EIP7002_SYSTEM_ADDRESS.into_array(),
        "bridge reuses EIP-7002 SYSTEM_ADDRESS"
    );
    assert_eq!(target, BRIDGE_ADDR);
    assert_eq!(data, vec![0xde, 0xad, 0xbe, 0xef]);
}

#[test]
fn gates_open_only_together() {
    let data = Some(vec![7u8]);
    for active in [false, true] {
        for target in [None, Some(BRIDGE_ADDR)] {
            for calldata in [None, Some(Vec::new()), data.clone()] {
                let open = active && target.is_some() && calldata == data;
                let call = bridge_gates(active, target, &calldata);
                assert_eq!(call.is_some(), open);
            }
        }
    }
}

#[test]
fn public_networks_have_no_bridge() {
    let calldata = Some(vec![1u8]);
    for chain in [EthSpec::mainnet(), EthSpec::sepolia(), EthSpec::holesky()] {
        assert_eq!(chain.bridge_contract_address(), None);
        assert!(!chain.is_bridge_active_at_timestamp(u64::MAX));
        assert!(bridge_contract_call(&chain, u64::MAX, &calldata).is_none());
    }
}

#[test]
fn references_answer_as_the_chain_does() {
    let chain = MockSpec { bridge_address: Some(BRIDGE_ADDR), bridge_active: true };
    let shared = Arc::new(chain.clone());
    let calldata = Some(vec![1u8]);
    assert_eq!((&&chain).bridge_contract_address(), Some(BRIDGE_ADDR));
    assert!(bridge_contract_call(&&chain, 5, &calldata).is_some());
    assert!(bridge_contract_call(&shared, 5, &calldata).is_some());
    let sepolia = Arc::new(EthSpec::sepolia());
    assert_eq!(sepolia.deposit_contract_address(), EthSpec::sepolia().deposit_contract_address());
    assert!(!EthExecutorSpec::is_bridge_active_at_timestamp(&sepolia, 5));
}

#[test]
fn bridge_failure_is_put_in_words() {
    let message = bridge_failure_message(&"out of gas".to_string());
    assert_eq!(message, "0G bridge system call execution failed: out of gas");
}
