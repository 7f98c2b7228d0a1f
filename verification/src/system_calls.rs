//! System calls that a block makes after its last transaction.

use crate::primitives;
use crate::primitives::Address;
use crate::spec::EthExecutorSpec;
use crate::withdrawals::Withdrawal;
use vstd::prelude::*;

verus! {

/// A call into a contract on behalf of the protocol.
#[derive(Debug)]
pub struct SystemCall {
    /// Who calls.
    pub caller: Address,
    /// The contract that is called.
    pub contract: Address,
    /// The calldata.
    pub data: Vec<u8>,
}

/// The value of a [`SystemCall`].
pub struct SystemCallView {
    /// Who calls.
    pub caller: Address,
    /// The contract that is called.
    pub contract: Address,
    /// The calldata.
    pub data: Seq<u8>,
}

impl View for SystemCall {
    type V = SystemCallView;

    open spec fn view(&self) -> SystemCallView {
        SystemCallView { caller: self.caller, contract: self.contract, data: self.data@ }
    }
}

impl Clone for SystemCall {
    fn clone(&self) -> (copy: SystemCall)
        ensures
            copy@ == self@,
    {
        SystemCall { caller: self.caller, contract: self.contract, data: copy_bytes(&self.data) }
    }
}

/// Copies a byte string.
pub(crate) fn copy_bytes(bytes: &Vec<u8>) -> (copy: Vec<u8>)
    ensures
        copy@ == bytes@,
{
    let copy = bytes.clone();
    assert(copy@ =~= bytes@);
    copy
}

/// The call of `contract` with `data` from the system address.
pub open spec fn system_call(contract: Address, data: Seq<u8>) -> SystemCallView {
    SystemCallView { caller: Address { bytes: primitives::SYSTEM_ADDRESS }, contract, data }
}

/// The bridge call that is due where the fork is `active`, the bridge contract is at `target` and
/// the block comes with `calldata`: one with that calldata where it is not empty, none where any
/// of the three is missing.
pub open spec fn gated_bridge_call(
    active: bool,
    target: Option<Address>,
    calldata: Option<Seq<u8>>,
) -> Option<SystemCallView> {
    if active && target is Some && calldata is Some && calldata->0.len() > 0 {
        Some(system_call(target->0, calldata->0))
    } else {
        None
    }
}

/// Whether `call` is the bridge call that is due at `timestamp` on a chain that answers as
/// `chain` does. The contract is asked for only where the fork is active.
pub open spec fn bridge_call_due<Spec: EthExecutorSpec>(
    chain: &Spec,
    timestamp: u64,
    calldata: Option<Seq<u8>>,
    call: Option<SystemCallView>,
) -> bool {
    exists|active: bool| #[trigger]
        call_ensures(Spec::is_bridge_active_at_timestamp, (chain, timestamp), active) && if active {
            exists|target: Option<Address>| #[trigger]
                call_ensures(Spec::bridge_contract_address, (chain,), target) && call
                    == gated_bridge_call(true, target, calldata)
        } else {
            call is None
        }
}

/// The contents of an optional byte string.
pub open spec fn bytes_view(bytes: Option<Vec<u8>>) -> Option<Seq<u8>> {
    match bytes {
        Some(bytes) => Some(bytes@),
        None => None,
    }
}

/// The value of an optional call.
pub open spec fn call_view(call: Option<SystemCall>) -> Option<SystemCallView> {
    match call {
        Some(call) => Some(call@),
        None => None,
    }
}

/// Decides on the bridge call, given what the chain says of the bridge.
pub fn bridge_gates(active: bool, target: Option<Address>, calldata: &Option<Vec<u8>>) -> (call:
    Option<SystemCall>)
    ensures
        call_view(call) == gated_bridge_call(active, target, bytes_view(*calldata)),
{
    if !active {
        return None;
    }
    match (target, calldata) {
        (Some(contract), Some(data)) => {
            if data.is_empty() {
                None
            } else {
                let caller = primitives::system_address();
                Some(SystemCall { caller, contract, data: copy_bytes(data) })
            }
        },
        _ => None,
    }
}

/// Returns the call of the bridge contract that executes the inbound messages of a block; `None`
/// where the bridge fork is not active at `timestamp`, the chain has no bridge contract, or no
/// calldata came with the block or it is empty.
pub fn bridge_contract_call<Spec: EthExecutorSpec>(
    chain: &Spec,
    timestamp: u64,
    calldata: &Option<Vec<u8>>,
) -> (call: Option<SystemCall>)
    ensures
        bridge_call_due(chain, timestamp, bytes_view(*calldata), call_view(call)),
{
    let active = chain.is_bridge_active_at_timestamp(timestamp);
    if !active {
        return None;
    }
    let target = chain.bridge_contract_address();
    bridge_gates(active, target, calldata)
}

/// The bytes of the address of the staking contract of a chain that names none.
pub const DEFAULT_STAKING_CONTRACT: [u8; 20] = [
    0xea, 0x22, 0x4d, 0xbb, 0x52, 0xf5, 0x77, 0x52, 0x04, 0x4c,
    0x0c, 0x86, 0xad, 0x50, 0x93, 0x00, 0x91, 0xf5, 0x61, 0xb9,
];

/// The staking distribution call that the withdrawals of a block ask for.
///
/// They ask for one where there are at least two of them and the first has the largest possible
/// validator index. The calldata is then the amount of that withdrawal in wei, in 32 bytes. The
/// contract is the address of that withdrawal or, once the staking fork is active, the staking
/// contract.
pub open spec fn staking_call(
    staking_active: bool,
    staking_contract: Option<Address>,
    withdrawals: Option<Seq<Withdrawal>>,
) -> Option<SystemCallView> {
    if asks_for_staking(withdrawals) {
        let first = withdrawals->0[0];
        let contract = if !staking_active {
            first.address
        } else if staking_contract is Some {
            staking_contract->0
        } else {
            Address { bytes: DEFAULT_STAKING_CONTRACT }
        };
        Some(
            system_call(
                contract,
                primitives::big_endian_bytes((first.amount * 1_000_000_000) as nat, 32),
            ),
        )
    } else {
        None
    }
}

/// The withdrawals of an optional list.
pub open spec fn withdrawals_view(list: Option<Vec<Withdrawal>>) -> Option<Seq<Withdrawal>> {
    match list {
        Some(list) => Some(list@),
        None => None,
    }
}

/// Whether the withdrawals of a block ask for a staking distribution.
pub open spec fn asks_for_staking(withdrawals: Option<Seq<Withdrawal>>) -> bool {
    withdrawals is Some && withdrawals->0.len() > 1 && withdrawals->0[0].validator_index
        == u64::MAX
}

/// Whether `call` is the staking distribution call that is due at `timestamp` on a chain that
/// answers as `chain` does. The chain is asked for the staking fork only where the withdrawals ask
/// for a distribution, and for the staking contract only where that fork is active.
pub open spec fn staking_call_due<Spec: EthExecutorSpec>(
    chain: &Spec,
    timestamp: u64,
    withdrawals: Option<Seq<Withdrawal>>,
    call: Option<SystemCallView>,
) -> bool {
    if asks_for_staking(withdrawals) {
        exists|active: bool| #[trigger]
            call_ensures(Spec::is_staking_activate_at_timestamp, (chain, timestamp), active)
                && if active {
                exists|contract: Option<Address>| #[trigger]
                    call_ensures(Spec::staking_contract_address, (chain,), contract) && call
                        == staking_call(true, contract, withdrawals)
            } else {
                call == staking_call(false, None, withdrawals)
            }
    } else {
        call is None
    }
}

/// Decides on the staking distribution call, given what the chain says of staking.
pub fn staking_gates(
    staking_active: bool,
    staking_contract: Option<Address>,
    withdrawals: &Option<Vec<Withdrawal>>,
) -> (call: Option<SystemCall>)
    ensures
        call_view(call) == staking_call(
            staking_active,
            staking_contract,
            withdrawals_view(*withdrawals),
        ),
{
    match withdrawals {
        Some(list) => {
            if list.len() > 1 && list[0].validator_index == u64::MAX {
                let amount = list[0].amount_wei().to_be_bytes();
                let contract = if staking_active {
                    match staking_contract {
                        Some(address) => address,
                        None => Address { bytes: DEFAULT_STAKING_CONTRACT },
                    }
                } else {
                    list[0].address
                };
                let mut data: Vec<u8> = Vec::new();
                data.extend_from_slice(&amount);
                assert(data@ =~= amount@);
                Some(SystemCall { caller: primitives::system_address(), contract, data })
            } else {
                None
            }
        },
        None => None,
    }
}

/// Returns the call that distributes the staking rewards of a block, where there is one.
pub fn staking_distribution_call<Spec: EthExecutorSpec>(
    chain: &Spec,
    timestamp: u64,
    withdrawals: &Option<Vec<Withdrawal>>,
) -> (call: Option<SystemCall>)
    ensures
        staking_call_due(chain, timestamp, withdrawals_view(*withdrawals), call_view(call)),
{
    let asked = match withdrawals {
        Some(list) => list.len() > 1 && list[0].validator_index == u64::MAX,
        None => false,
    };
    if !asked {
        return None;
    }
    if chain.is_staking_activate_at_timestamp(timestamp) {
        staking_gates(true, chain.staking_contract_address(), withdrawals)
    } else {
        staking_gates(false, None, withdrawals)
    }
}

/// The words of the error that a failed bridge call ends the block with.
pub open spec fn bridge_failure(reason: Seq<char>) -> Seq<char> {
    "0G bridge system call execution failed: "@ + reason
}

/// Returns the words of the error that a bridge call that failed for `reason` ends the block with.
pub fn bridge_failure_message(reason: &String) -> (message: String)
    ensures
        message@ == bridge_failure(reason@),
{
    "0G bridge system call execution failed: ".to_owned().concat(reason.as_str())
}

} // verus!
