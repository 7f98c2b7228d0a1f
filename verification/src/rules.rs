//! What each operation comes to, in terms of what it is given and what it returns.
//!
//! A law that names a function by `call_ensures` holds of every result that the function returns.

use crate::balances;
use crate::balances::BalanceIncrements;
use crate::block;
use crate::block::{
    BlockEnv, EthBlockExecutionCtx, EthBlockExecutor, EthBlockExecutorView, PreExecutionChange,
    ReceiptBuilder, ReceiptBuilderCtx, StateChangeSource, TransactionCommit, TransactionReport,
};
use crate::error::{BlockExecutionError, BlockValidationError};
use crate::factory::EthBlockExecutorFactory;
use crate::hardforks::{EthereumHardfork, EthereumHardforks, ForkCondition};
use crate::primitives;
use crate::primitives::{Address, B256, U256};
use crate::requests;
use crate::spec::{EthExecutorSpec, EthSpec};
use crate::system_calls;
use crate::system_calls::{SystemCall, SystemCallView};
use crate::withdrawals::Withdrawal;
use std::sync::Arc;
use vstd::prelude::*;

verus! {

/// A 256-bit number is what its limbs say, the first the least significant.
pub proof fn law_number_of_limbs(n: U256)
    ensures
        n.value() == n.limbs@[0] + 0x1_0000_0000_0000_0000 * (n.limbs@[1] + 0x1_0000_0000_0000_0000
            * (n.limbs@[2] + 0x1_0000_0000_0000_0000 * n.limbs@[3])),
{
}

/// A number saturates exactly where one of its upper limbs is not zero.
pub proof fn law_saturated(n: U256)
    ensures
        n.limbs@[1] == 0 && n.limbs@[2] == 0 && n.limbs@[3] == 0 ==> n.saturated() == n.limbs@[0],
        n.limbs@[1] > 0 || n.limbs@[2] > 0 || n.limbs@[3] > 0 ==> n.saturated() == u64::MAX,
{
}

/// The byte at index `i` of a big-endian number of `len` bytes is its digit of weight
/// 256 to the power `len - 1 - i`.
pub proof fn law_big_endian_bytes(value: nat, len: nat)
    ensures
        primitives::big_endian_bytes(value, len).len() == len,
        forall|i: int|
            0 <= i < len ==> #[trigger] primitives::big_endian_bytes(value, len)[i] == (value as int
                / vstd::arithmetic::power::pow(256, (len - 1 - i) as nat)) % 256,
    decreases len,
{
    if len > 0 {
        let shorter = (len - 1) as nat;
        law_big_endian_bytes(value / 256, shorter);
        assert forall|i: int| 0 <= i < len implies #[trigger] primitives::big_endian_bytes(
            value,
            len,
        )[i] == (value as int / vstd::arithmetic::power::pow(256, (len - 1 - i) as nat)) % 256 by {
            if i < shorter {
                let k = (shorter - 1 - i) as nat;
                assert(primitives::big_endian_bytes(value, len)[i] == primitives::big_endian_bytes(
                    value / 256,
                    shorter,
                )[i]);
                vstd::arithmetic::power::lemma_pow_positive(256, k);
                vstd::arithmetic::div_mod::lemma_div_denominator(value as int, 256, vstd::arithmetic::power::pow(256, k));
                assert(vstd::arithmetic::power::pow(256, (len - 1 - i) as nat) == 256 * vstd::arithmetic::power::pow(256, k)) by {
                    reveal(vstd::arithmetic::power::pow);
                }
            } else {
                assert(vstd::arithmetic::power::pow(256, 0) == 1) by {
                    reveal(vstd::arithmetic::power::pow);
                }
                assert((value % 256) as u8 == value as int % 256);
            }
        }
    }
}

/// Two addresses are equal exactly where all their bytes are.
pub proof fn law_address_equality(a: Address, b: Address, equal: bool)
    requires
        call_ensures(<Address as PartialEq>::eq, (&a, &b), equal),
    ensures
        equal <==> forall|i: int| 0 <= i < 20 ==> a.bytes@[i] == b.bytes@[i],
{
    if forall|i: int| 0 <= i < 20 ==> a.bytes@[i] == b.bytes@[i] {
        assert(a.bytes =~= b.bytes);
    }
}

/// The system address is twenty bytes of ones but for the last bit.
pub proof fn law_system_address()
    ensures
        forall|i: int| 0 <= i < 19 ==> primitives::SYSTEM_ADDRESS@[i] == 0xff,
        primitives::SYSTEM_ADDRESS@[19] == 0xfe,
{
}

/// A fork that is bound to a block is active from that block on, and that block is its first. One
/// that is bound to a total difficulty is active from its activation block on, one that is bound to
/// a time from that time on. No condition holds otherwise.
pub proof fn law_fork_conditions(
    condition: ForkCondition,
    n: u64,
    at_block: bool,
    first: bool,
    at_time: bool,
)
    requires
        call_ensures(ForkCondition::active_at_block, (&condition, n), at_block),
        call_ensures(ForkCondition::transitions_at_block, (&condition, n), first),
        call_ensures(ForkCondition::active_at_timestamp, (&condition, n), at_time),
    ensures
        match condition {
            ForkCondition::Block(block) => at_block == (n >= block) && first == (n == block)
                && !at_time,
            ForkCondition::TTD { activation_block_number, .. } => at_block == (n
                >= activation_block_number) && !first && !at_time,
            ForkCondition::Timestamp(time) => !at_block && !first && at_time == (n >= time),
            ForkCondition::Never => !at_block && !first && !at_time,
        },
{
}

/// Prague is active at a time exactly where a chain says that it is bound to a time that has been
/// reached.
pub proof fn law_prague<T: EthereumHardforks>(chain: &T, timestamp: u64, active: bool)
    requires
        call_ensures(T::is_prague_active_at_timestamp, (chain, timestamp), active),
    ensures
        exists|condition: ForkCondition| #[trigger]
            call_ensures(
                T::ethereum_fork_activation,
                (chain, EthereumHardfork::Prague),
                condition,
            ) && (active <==> (condition matches ForkCondition::Timestamp(time)
                && timestamp >= time)),
{
}

/// Spurious Dragon is active at a block exactly where a chain says that it is bound to a block or a
/// total difficulty and the block has been reached.
pub proof fn law_spurious_dragon<T: EthereumHardforks>(chain: &T, number: u64, active: bool)
    requires
        call_ensures(T::is_spurious_dragon_active_at_block, (chain, number), active),
    ensures
        exists|condition: ForkCondition| #[trigger]
            call_ensures(
                T::ethereum_fork_activation,
                (chain, EthereumHardfork::SpuriousDragon),
                condition,
            ) && (active <==> match condition {
                ForkCondition::Block(block) => number >= block,
                ForkCondition::TTD { activation_block_number, .. } => number
                    >= activation_block_number,
                _ => false,
            }),
{
}

/// The forks of mainnet, fork by fork.
pub proof fn law_mainnet(chain: EthSpec, fork: EthereumHardfork, condition: ForkCondition)
    requires
        call_ensures(EthSpec::mainnet, (), chain),
        call_ensures(
            <EthSpec as EthereumHardforks>::ethereum_fork_activation,
            (&chain, fork),
            condition,
        ),
    ensures
        match fork {
            EthereumHardfork::Frontier => condition == ForkCondition::Block(0),
            EthereumHardfork::Homestead => condition == ForkCondition::Block(1_150_000),
            EthereumHardfork::Dao => condition == ForkCondition::Block(1_920_000),
            EthereumHardfork::Tangerine => condition == ForkCondition::Block(2_463_000),
            EthereumHardfork::SpuriousDragon => condition == ForkCondition::Block(2_675_000),
            EthereumHardfork::Byzantium => condition == ForkCondition::Block(4_370_000),
            EthereumHardfork::Constantinople => condition == ForkCondition::Block(7_280_000),
            EthereumHardfork::Petersburg => condition == ForkCondition::Block(7_280_000),
            EthereumHardfork::Istanbul => condition == ForkCondition::Block(9_069_000),
            EthereumHardfork::MuirGlacier => condition == ForkCondition::Block(9_200_000),
            EthereumHardfork::Berlin => condition == ForkCondition::Block(12_244_000),
            EthereumHardfork::London => condition == ForkCondition::Block(12_965_000),
            EthereumHardfork::ArrowGlacier => condition == ForkCondition::Block(13_773_000),
            EthereumHardfork::GrayGlacier => condition == ForkCondition::Block(15_050_000),
            EthereumHardfork::Paris => condition matches ForkCondition::TTD {
                activation_block_number,
                fork_block,
                total_difficulty,
            } && activation_block_number == 15_537_394 && fork_block is None
                && total_difficulty.value() == 58_750_000_000_000_000_000_000,
            EthereumHardfork::Shanghai => condition == ForkCondition::Timestamp(1_681_338_455),
            EthereumHardfork::Cancun => condition == ForkCondition::Timestamp(1_710_338_135),
            EthereumHardfork::Prague => condition == ForkCondition::Timestamp(1_746_612_311),
            EthereumHardfork::Osaka => condition is Never,
        },
{
}

/// The forks of Sepolia: all up to London from the first block on, Arrow Glacier, Gray Glacier and
/// Osaka never, the others as listed.
pub proof fn law_sepolia(chain: EthSpec, fork: EthereumHardfork, condition: ForkCondition)
    requires
        call_ensures(EthSpec::sepolia, (), chain),
        call_ensures(
            <EthSpec as EthereumHardforks>::ethereum_fork_activation,
            (&chain, fork),
            condition,
        ),
    ensures
        match fork {
            EthereumHardfork::ArrowGlacier
            | EthereumHardfork::GrayGlacier
            | EthereumHardfork::Osaka => condition is Never,
            EthereumHardfork::Paris => condition matches ForkCondition::TTD {
                activation_block_number,
                fork_block,
                total_difficulty,
            } && activation_block_number == 1_450_409 && fork_block == Some(1_735_371u64)
                && total_difficulty.value() == 17_000_000_000_000_000,
            EthereumHardfork::Shanghai => condition == ForkCondition::Timestamp(1_677_557_088),
            EthereumHardfork::Cancun => condition == ForkCondition::Timestamp(1_706_655_072),
            EthereumHardfork::Prague => condition == ForkCondition::Timestamp(1_741_159_776),
            _ => condition == ForkCondition::Block(0),
        },
{
}

/// The forks of Holesky: all up to London from the first block on, Arrow Glacier, Gray Glacier and
/// Osaka never, the others as listed.
pub proof fn law_holesky(chain: EthSpec, fork: EthereumHardfork, condition: ForkCondition)
    requires
        call_ensures(EthSpec::holesky, (), chain),
        call_ensures(
            <EthSpec as EthereumHardforks>::ethereum_fork_activation,
            (&chain, fork),
            condition,
        ),
    ensures
        match fork {
            EthereumHardfork::ArrowGlacier
            | EthereumHardfork::GrayGlacier
            | EthereumHardfork::Osaka => condition is Never,
            EthereumHardfork::Paris => condition matches ForkCondition::TTD {
                activation_block_number,
                fork_block,
                total_difficulty,
            } && activation_block_number == 0 && fork_block == Some(0u64)
                && total_difficulty.value() == 0,
            EthereumHardfork::Shanghai => condition == ForkCondition::Timestamp(1_696_000_704),
            EthereumHardfork::Cancun => condition == ForkCondition::Timestamp(1_707_305_664),
            EthereumHardfork::Prague => condition == ForkCondition::Timestamp(1_740_434_112),
            _ => condition == ForkCondition::Block(0),
        },
{
}

/// The public networks differ in their deposit contract. None has a staking or bridge contract, and
/// neither fork is ever active on them.
pub proof fn law_public_settings(
    chain: EthSpec,
    timestamp: u64,
    deposit: Option<Address>,
    staking: Option<Address>,
    staking_active: bool,
    bridge: Option<Address>,
    bridge_active: bool,
)
    requires
        call_ensures(<EthSpec as EthExecutorSpec>::deposit_contract_address, (&chain,), deposit),
        call_ensures(<EthSpec as EthExecutorSpec>::staking_contract_address, (&chain,), staking),
        call_ensures(
            <EthSpec as EthExecutorSpec>::is_staking_activate_at_timestamp,
            (&chain, timestamp),
            staking_active,
        ),
        call_ensures(<EthSpec as EthExecutorSpec>::bridge_contract_address, (&chain,), bridge),
        call_ensures(
            <EthSpec as EthExecutorSpec>::is_bridge_active_at_timestamp,
            (&chain, timestamp),
            bridge_active,
        ),
    ensures
        staking is None && !staking_active,
        bridge is None && !bridge_active,
        call_ensures(EthSpec::mainnet, (), chain) ==> deposit is Some && deposit->0.bytes@
            == seq![
            0x00u8, 0x00, 0x00, 0x00, 0x21, 0x9a, 0xb5, 0x40, 0x35, 0x6c,
            0xbb, 0x83, 0x9c, 0xbe, 0x05, 0x30, 0x3d, 0x77, 0x05, 0xfa,
        ],
        call_ensures(EthSpec::sepolia, (), chain) ==> deposit is Some && deposit->0.bytes@
            == seq![
            0x7fu8, 0x02, 0xc3, 0xe3, 0xc9, 0x8b, 0x13, 0x30, 0x55, 0xb8,
            0xb3, 0x48, 0xb2, 0xac, 0x62, 0x56, 0x69, 0xed, 0x29, 0x5d,
        ],
        call_ensures(EthSpec::holesky, (), chain) ==> deposit is Some && deposit->0.bytes@
            == seq![
            0x42u8, 0x42, 0x42, 0x42, 0x42, 0x42, 0x42, 0x42, 0x42, 0x42,
            0x42, 0x42, 0x42, 0x42, 0x42, 0x42, 0x42, 0x42, 0x42, 0x42,
        ],
{
}

/// A copy of a chain has its forks and its deposit contract.
pub proof fn law_copied_chain(
    chain: EthSpec,
    copy: EthSpec,
    fork: EthereumHardfork,
    condition: ForkCondition,
    copied: ForkCondition,
    deposit: Option<Address>,
    copied_deposit: Option<Address>,
)
    requires
        call_ensures(<EthSpec as Clone>::clone, (&chain,), copy),
        call_ensures(
            <EthSpec as EthereumHardforks>::ethereum_fork_activation,
            (&chain, fork),
            condition,
        ),
        call_ensures(
            <EthSpec as EthereumHardforks>::ethereum_fork_activation,
            (&copy, fork),
            copied,
        ),
        call_ensures(<EthSpec as EthExecutorSpec>::deposit_contract_address, (&chain,), deposit),
        call_ensures(
            <EthSpec as EthExecutorSpec>::deposit_contract_address,
            (&copy,),
            copied_deposit,
        ),
    ensures
        copied == condition,
        copied_deposit == deposit,
{
}

/// A reference to a chain answers as the chain does.
pub proof fn law_reference_to_chain<T: EthExecutorSpec>(
    chain: &T,
    fork: EthereumHardfork,
    timestamp: u64,
    condition: ForkCondition,
    address: Option<Address>,
    active: bool,
)
    ensures
        call_ensures(<&T as EthereumHardforks>::ethereum_fork_activation, (&chain, fork), condition)
            ==> call_ensures(T::ethereum_fork_activation, (chain, fork), condition),
        call_ensures(<&T as EthExecutorSpec>::deposit_contract_address, (&chain,), address)
            ==> call_ensures(T::deposit_contract_address, (chain,), address),
        call_ensures(<&T as EthExecutorSpec>::staking_contract_address, (&chain,), address)
            ==> call_ensures(T::staking_contract_address, (chain,), address),
        call_ensures(<&T as EthExecutorSpec>::bridge_contract_address, (&chain,), address)
            ==> call_ensures(T::bridge_contract_address, (chain,), address),
        call_ensures(
            <&T as EthExecutorSpec>::is_staking_activate_at_timestamp,
            (&chain, timestamp),
            active,
        ) ==> call_ensures(T::is_staking_activate_at_timestamp, (chain, timestamp), active),
        call_ensures(
            <&T as EthExecutorSpec>::is_bridge_active_at_timestamp,
            (&chain, timestamp),
            active,
        ) ==> call_ensures(T::is_bridge_active_at_timestamp, (chain, timestamp), active),
{
}

/// A shared chain answers as the chain does.
pub proof fn law_shared_chain<T: EthExecutorSpec>(
    chain: Arc<T>,
    fork: EthereumHardfork,
    timestamp: u64,
    condition: ForkCondition,
    address: Option<Address>,
    active: bool,
)
    ensures
        call_ensures(
            <Arc<T> as EthereumHardforks>::ethereum_fork_activation,
            (&chain, fork),
            condition,
        ) ==> call_ensures(T::ethereum_fork_activation, (&*chain, fork), condition),
        call_ensures(<Arc<T> as EthExecutorSpec>::deposit_contract_address, (&chain,), address)
            ==> call_ensures(T::deposit_contract_address, (&*chain,), address),
        call_ensures(<Arc<T> as EthExecutorSpec>::staking_contract_address, (&chain,), address)
            ==> call_ensures(T::staking_contract_address, (&*chain,), address),
        call_ensures(<Arc<T> as EthExecutorSpec>::bridge_contract_address, (&chain,), address)
            ==> call_ensures(T::bridge_contract_address, (&*chain,), address),
        call_ensures(
            <Arc<T> as EthExecutorSpec>::is_staking_activate_at_timestamp,
            (&chain, timestamp),
            active,
        ) ==> call_ensures(T::is_staking_activate_at_timestamp, (&*chain, timestamp), active),
        call_ensures(
            <Arc<T> as EthExecutorSpec>::is_bridge_active_at_timestamp,
            (&chain, timestamp),
            active,
        ) ==> call_ensures(T::is_bridge_active_at_timestamp, (&*chain, timestamp), active),
{
}

/// A request is one entry, its type byte with the whole data behind it. Without data there is none.
pub proof fn law_typed_request(request_type: u8, data: Seq<u8>)
    ensures
        data.len() == 0 ==> requests::typed_request(request_type, data).len() == 0,
        data.len() > 0 ==> {
            let list = requests::typed_request(request_type, data);
            &&& list.len() == 1
            &&& list[0].len() == data.len() + 1
            &&& list[0][0] == request_type
            &&& list[0].drop_first() == data
        },
{
    if data.len() > 0 {
        assert(requests::typed_request(request_type, data)[0].drop_first() =~= data);
    }
}

/// A sum starts at zero and grows by each amount.
pub proof fn law_sum(amounts: Seq<u128>, amount: u128)
    ensures
        balances::sum(seq![]) == 0,
        balances::sum(amounts.push(amount)) == balances::sum(amounts) + amount,
{
    assert(amounts.push(amount).drop_last() =~= amounts);
}

/// Amounts are added up to their sum, or to nothing where it does not fit.
pub proof fn law_total(amounts: Vec<u128>, total: Option<u128>)
    requires
        call_ensures(balances::total, (&amounts,), total),
    ensures
        total is Some <==> balances::sum(amounts@) <= 0xffff_ffff_ffff_ffff_ffff_ffff_ffff_ffff,
        total is Some ==> total->0 == balances::sum(amounts@),
{
}

/// Increments list each account with an amount once, and no other account.
pub proof fn law_listed_increments(
    increments: BalanceIncrements,
    entries: Vec<(Address, u128)>,
    address: Address,
    amount: u128,
)
    requires
        call_ensures(BalanceIncrements::entries, (&increments,), &entries),
        call_ensures(BalanceIncrements::amount, (&increments, address), amount),
    ensures
        forall|i: int, j: int|
            #![trigger entries@[i], entries@[j]]
            0 <= i < j < entries@.len() ==> entries@[i].0 != entries@[j].0,
        forall|i: int|
            #![trigger entries@[i]]
            0 <= i < entries@.len() ==> increments@.contains_key(entries@[i].0)
                && increments@[entries@[i].0] == entries@[i].1,
        increments@.contains_key(address) ==> amount == increments@[address] && exists|i: int|
            0 <= i < entries@.len() && #[trigger] entries@[i] == (address, amount),
        !increments@.contains_key(address) ==> amount == 0,
{
    balances::lemma_amounts(entries@);
    assert forall|i: int| #![trigger entries@[i]] 0 <= i < entries@.len() implies
        increments@.contains_key(entries@[i].0) && increments@[entries@[i].0]
        == entries@[i].1 by {
        let key = entries@[i].0;
        assert(balances::amounts_of(entries@).contains_key(key));
    }
    if increments@.contains_key(address) {
        assert(balances::amounts_of(entries@).contains_key(address));
        let i = choose|i: int| 0 <= i < entries@.len() && #[trigger] entries@[i].0 == address;
        assert(entries@[i] == (address, amount));
    }
}

/// New increments list nobody, and a copy lists what is copied.
pub proof fn law_new_and_copied_increments(
    new: BalanceIncrements,
    increments: BalanceIncrements,
    copy: BalanceIncrements,
    address: Address,
)
    requires
        call_ensures(BalanceIncrements::new, (), new),
        call_ensures(<BalanceIncrements as Clone>::clone, (&increments,), copy),
    ensures
        !new@.contains_key(address),
        copy@.contains_key(address) <==> increments@.contains_key(address),
        increments@.contains_key(address) ==> copy@[address] == increments@[address],
{
}

/// An increase adds to one account, which is then listed, and leaves every other as it was.
pub proof fn law_increased(
    before: BalanceIncrements,
    receiver: Address,
    amount: u128,
    after: BalanceIncrements,
    address: Address,
)
    requires
        call_ensures(BalanceIncrements::increased, (before, receiver, amount), after),
        before@.contains_key(receiver) ==> before@[receiver] + amount <= u128::MAX,
    ensures
        after@.contains_key(receiver),
        before@.contains_key(receiver) ==> after@[receiver] == before@[receiver] + amount,
        !before@.contains_key(receiver) ==> after@[receiver] == amount,
        address != receiver ==> (after@.contains_key(address) <==> before@.contains_key(address)),
        address != receiver && before@.contains_key(address) ==> after@[address] == before@[address],
{
}

/// A bridge call that is due goes from the system address to the contract that the chain names, with
/// the whole calldata of the block, on a chain that says that the fork is active. Where none is due,
/// there is no calldata, or the chain says that the fork is not active or names no contract.
pub proof fn law_bridge_call_due<Spec: EthExecutorSpec>(
    chain: &Spec,
    timestamp: u64,
    calldata: Option<Seq<u8>>,
    call: Option<SystemCallView>,
)
    requires
        system_calls::bridge_call_due(chain, timestamp, calldata, call),
    ensures
        match call {
            Some(call) => {
                &&& call.caller.bytes == primitives::SYSTEM_ADDRESS
                &&& calldata == Some(call.data)
                &&& call.data.len() > 0
                &&& call_ensures(Spec::is_bridge_active_at_timestamp, (chain, timestamp), true)
                &&& call_ensures(Spec::bridge_contract_address, (chain,), Some(call.contract))
            },
            None => {
                ||| calldata is None
                ||| calldata->0.len() == 0
                ||| call_ensures(Spec::is_bridge_active_at_timestamp, (chain, timestamp), false)
                ||| call_ensures(Spec::bridge_contract_address, (chain,), None)
            },
        },
{
}

/// Where all answers of a chain are that the bridge fork is active and that the contract is at
/// `target`, calldata of any length but zero is what that contract is called with.
pub proof fn law_bridge_is_called<Spec: EthExecutorSpec>(
    chain: &Spec,
    timestamp: u64,
    calldata: Seq<u8>,
    call: Option<SystemCallView>,
    target: Address,
)
    requires
        system_calls::bridge_call_due(chain, timestamp, Some(calldata), call),
        forall|active: bool| #[trigger]
            call_ensures(Spec::is_bridge_active_at_timestamp, (chain, timestamp), active) ==> active,
        forall|answer: Option<Address>| #[trigger]
            call_ensures(Spec::bridge_contract_address, (chain,), answer) ==> answer == Some(target),
        calldata.len() > 0,
    ensures
        call is Some,
        call->0.caller.bytes == primitives::SYSTEM_ADDRESS,
        call->0.contract == target,
        call->0.data == calldata,
{
    law_bridge_call_due(chain, timestamp, Some(calldata), call);
}

/// What a chain and a block come to as to the bridge: [`law_bridge_call_due`], of the call that is
/// returned.
pub proof fn law_bridge_contract_call<Spec: EthExecutorSpec>(
    chain: &Spec,
    timestamp: u64,
    calldata: Option<Vec<u8>>,
    call: Option<SystemCall>,
)
    requires
        call_ensures(
            system_calls::bridge_contract_call::<Spec>,
            (chain, timestamp, &calldata),
            call,
        ),
    ensures
        match call {
            Some(call) => {
                &&& call.caller.bytes == primitives::SYSTEM_ADDRESS
                &&& calldata is Some && calldata->0@ == call.data@
                &&& call.data@.len() > 0
                &&& call_ensures(Spec::is_bridge_active_at_timestamp, (chain, timestamp), true)
                &&& call_ensures(Spec::bridge_contract_address, (chain,), Some(call.contract))
            },
            None => {
                ||| calldata is None
                ||| calldata->0@.len() == 0
                ||| call_ensures(Spec::is_bridge_active_at_timestamp, (chain, timestamp), false)
                ||| call_ensures(Spec::bridge_contract_address, (chain,), None)
            },
        },
{
    law_bridge_call_due(
        chain,
        timestamp,
        system_calls::bytes_view(calldata),
        system_calls::call_view(call),
    );
}

/// Given what the chain says, the bridge is called exactly where the fork is active, there is a
/// contract and there is calldata: from the system address, that contract, with that calldata.
pub proof fn law_bridge_decision(
    active: bool,
    target: Option<Address>,
    calldata: Option<Vec<u8>>,
    call: Option<SystemCall>,
)
    requires
        call_ensures(system_calls::bridge_gates, (active, target, &calldata), call),
    ensures
        call is Some <==> active && target is Some && calldata is Some && calldata->0@.len() > 0,
        call is Some ==> {
            &&& call->0.caller.bytes == primitives::SYSTEM_ADDRESS
            &&& call->0.contract == target->0
            &&& call->0.data@ == calldata->0@
        },
{
}

/// A staking call is due exactly where there are two or more withdrawals and the first has the
/// largest validator index. It goes from the system address, with the amount of that withdrawal in
/// wei as 32 bytes, the most significant first. Before the staking fork it goes to the address of
/// that withdrawal, after that to the contract that the chain names or, where it names none, the
/// default one.
pub proof fn law_staking_call_due<Spec: EthExecutorSpec>(
    chain: &Spec,
    timestamp: u64,
    withdrawals: Option<Seq<Withdrawal>>,
    call: Option<SystemCallView>,
)
    requires
        system_calls::staking_call_due(chain, timestamp, withdrawals, call),
    ensures
        call is Some <==> withdrawals is Some && withdrawals->0.len() >= 2
            && withdrawals->0[0].validator_index == 0xffff_ffff_ffff_ffff,
        call is Some ==> {
            let call = call->0;
            let first = withdrawals->0[0];
            &&& call.caller.bytes == primitives::SYSTEM_ADDRESS
            &&& call.data.len() == 32
            &&& forall|i: int|
                0 <= i < 32 ==> #[trigger] call.data[i] == (first.amount * 1_000_000_000
                    / vstd::arithmetic::power::pow(256, (31 - i) as nat)) % 256
            &&& {
                ||| call.contract == first.address && call_ensures(
                    Spec::is_staking_activate_at_timestamp,
                    (chain, timestamp),
                    false,
                )
                ||| call_ensures(Spec::is_staking_activate_at_timestamp, (chain, timestamp), true)
                    && {
                    ||| call_ensures(Spec::staking_contract_address, (chain,), Some(call.contract))
                    ||| call_ensures(Spec::staking_contract_address, (chain,), None)
                        && call.contract.bytes == system_calls::DEFAULT_STAKING_CONTRACT
                }
            }
        },
{
    if call is Some {
        law_big_endian_bytes((withdrawals->0[0].amount * 1_000_000_000) as nat, 32);
    }
}

/// Where all answers of a chain are that the staking fork is, or is not, active and what the staking
/// contract is, they decide on the contract that a due staking call goes to.
pub proof fn law_staking_contract<Spec: EthExecutorSpec>(
    chain: &Spec,
    timestamp: u64,
    withdrawals: Seq<Withdrawal>,
    call: Option<SystemCallView>,
    staking_active: bool,
    contract: Option<Address>,
)
    requires
        system_calls::staking_call_due(chain, timestamp, Some(withdrawals), call),
        forall|active: bool| #[trigger]
            call_ensures(Spec::is_staking_activate_at_timestamp, (chain, timestamp), active)
                ==> active == staking_active,
        forall|answer: Option<Address>| #[trigger]
            call_ensures(Spec::staking_contract_address, (chain,), answer) ==> answer == contract,
        withdrawals.len() >= 2,
        withdrawals[0].validator_index == 0xffff_ffff_ffff_ffff,
    ensures
        call is Some,
        !staking_active ==> call->0.contract == withdrawals[0].address,
        staking_active && contract is Some ==> call->0.contract == contract->0,
        staking_active && contract is None ==> call->0.contract.bytes
            == system_calls::DEFAULT_STAKING_CONTRACT,
{
    law_staking_call_due(chain, timestamp, Some(withdrawals), call);
}

/// [`law_staking_call_due`], of the call that is returned.
pub proof fn law_staking_distribution_call<Spec: EthExecutorSpec>(
    chain: &Spec,
    timestamp: u64,
    withdrawals: Option<Vec<Withdrawal>>,
    call: Option<SystemCall>,
)
    requires
        call_ensures(
            system_calls::staking_distribution_call::<Spec>,
            (chain, timestamp, &withdrawals),
            call,
        ),
    ensures
        call is Some <==> withdrawals is Some && withdrawals->0@.len() >= 2
            && withdrawals->0@[0].validator_index == 0xffff_ffff_ffff_ffff,
        call is Some ==> {
            let call = call->0;
            let first = withdrawals->0@[0];
            &&& call.caller.bytes == primitives::SYSTEM_ADDRESS
            &&& call.data@.len() == 32
            &&& forall|i: int|
                0 <= i < 32 ==> #[trigger] call.data@[i] == (first.amount * 1_000_000_000
                    / vstd::arithmetic::power::pow(256, (31 - i) as nat)) % 256
            &&& {
                ||| call.contract == first.address && call_ensures(
                    Spec::is_staking_activate_at_timestamp,
                    (chain, timestamp),
                    false,
                )
                ||| call_ensures(Spec::is_staking_activate_at_timestamp, (chain, timestamp), true)
                    && {
                    ||| call_ensures(Spec::staking_contract_address, (chain,), Some(call.contract))
                    ||| call_ensures(Spec::staking_contract_address, (chain,), None)
                        && call.contract.bytes == system_calls::DEFAULT_STAKING_CONTRACT
                }
            }
        },
{
    law_staking_call_due(
        chain,
        timestamp,
        system_calls::withdrawals_view(withdrawals),
        system_calls::call_view(call),
    );
}

/// Given what the chain says, the staking contract is called exactly where there are two or more
/// withdrawals and the first has the largest validator index.
pub proof fn law_staking_decision(
    active: bool,
    contract: Option<Address>,
    withdrawals: Option<Vec<Withdrawal>>,
    call: Option<SystemCall>,
)
    requires
        call_ensures(system_calls::staking_gates, (active, contract, &withdrawals), call),
    ensures
        call is Some <==> withdrawals is Some && withdrawals->0@.len() >= 2
            && withdrawals->0@[0].validator_index == 0xffff_ffff_ffff_ffff,
        call is Some ==> {
            let call = call->0;
            let first = withdrawals->0@[0];
            &&& call.caller.bytes == primitives::SYSTEM_ADDRESS
            &&& call.data@.len() == 32
            &&& forall|i: int|
                0 <= i < 32 ==> #[trigger] call.data@[i] == (first.amount * 1_000_000_000
                    / vstd::arithmetic::power::pow(256, (31 - i) as nat)) % 256
            &&& !active ==> call.contract == first.address
            &&& active && contract is Some ==> call.contract == contract->0
            &&& active && contract is None ==> call.contract.bytes
                == system_calls::DEFAULT_STAKING_CONTRACT
        },
{
    if call is Some {
        law_big_endian_bytes((withdrawals->0@[0].amount * 1_000_000_000) as nat, 32);
    }
}

/// The staking contract of a chain that names none, byte by byte.
pub proof fn law_default_staking_contract()
    ensures
        system_calls::DEFAULT_STAKING_CONTRACT@ == seq![
            0xeau8, 0x22, 0x4d, 0xbb, 0x52, 0xf5, 0x77, 0x52, 0x04, 0x4c,
            0x0c, 0x86, 0xad, 0x50, 0x93, 0x00, 0x91, 0xf5, 0x61, 0xb9,
        ],
{
}

/// A failed bridge call is put in words: what failed, then why.
pub proof fn law_bridge_failure_message(reason: String, message: String)
    requires
        call_ensures(system_calls::bridge_failure_message, (&reason,), message),
    ensures
        message@ == "0G bridge system call execution failed: "@ + reason@,
{
}

/// A copied system call is the same call.
pub proof fn law_copied_call(call: SystemCall, copy: SystemCall)
    requires
        call_ensures(<SystemCall as Clone>::clone, (&call,), copy),
    ensures
        copy.caller == call.caller,
        copy.contract == call.contract,
        copy.data@ == call.data@,
{
    assert(copy@ == call@);
}

/// An execution that the EVM refused ends with its error and the hash of the transaction; any other
/// ends with what the EVM returned.
pub proof fn law_executed_transaction<Output, E>(
    returned: Result<Output, E>,
    hash: B256,
    executed: Result<Output, BlockExecutionError<E>>,
)
    requires
        call_ensures(block::executed_transaction::<Output, E>, (returned, hash), executed),
    ensures
        executed is Ok <==> returned is Ok,
        returned is Ok ==> executed->Ok_0 == returned->Ok_0,
        returned is Err ==> executed->Err_0 is Transaction,
        returned is Err ==> executed->Err_0->Transaction_hash == hash,
        returned is Err ==> executed->Err_0->Transaction_error == returned->Err_0,
{
}

/// A transaction is charged the larger of what it used and four fifths of its gas limit, rounded
/// down.
pub proof fn law_charged(raw_gas_used: u64, tx_gas_limit: u64, gas_used: u64)
    requires
        call_ensures(block::charge, (raw_gas_used, tx_gas_limit), gas_used),
    ensures
        gas_used >= raw_gas_used,
        5 * gas_used >= 4 * tx_gas_limit - 4,
        gas_used == raw_gas_used || 5 * gas_used <= 4 * tx_gas_limit,
{
}

/// A new executor has no receipts and has used no gas. It keeps what it was given.
pub proof fn law_new_executor<'a, Evm, Spec, R: ReceiptBuilder>(
    evm: Evm,
    ctx: EthBlockExecutionCtx<'a>,
    chain: Spec,
    receipt_builder: R,
    executor: EthBlockExecutor<'a, Evm, Spec, R>,
)
    requires
        call_ensures(
            EthBlockExecutor::<'a, Evm, Spec, R>::new,
            (evm, ctx, chain, receipt_builder),
            executor,
        ),
    ensures
        executor@.receipts.len() == 0,
        executor@.gas_used == 0,
        executor@.evm == evm,
        executor@.ctx == ctx,
        executor@.chain == chain,
        executor@.receipt_builder == receipt_builder,
{
}

/// What an executor tells of itself is what it holds.
pub proof fn law_executor_tells<'a, Evm, Spec, R: ReceiptBuilder>(
    executor: EthBlockExecutor<'a, Evm, Spec, R>,
    chain: Spec,
    ctx: EthBlockExecutionCtx<'a>,
    receipts: Vec<R::Receipt>,
    gas_used: u64,
    evm: Evm,
    source: StateChangeSource,
    parts: (Evm, Vec<R::Receipt>, u64),
)
    requires
        call_ensures(EthBlockExecutor::<'a, Evm, Spec, R>::spec, (&executor,), &chain),
        call_ensures(EthBlockExecutor::<'a, Evm, Spec, R>::ctx, (&executor,), &ctx),
        call_ensures(EthBlockExecutor::<'a, Evm, Spec, R>::receipts, (&executor,), &receipts),
        call_ensures(EthBlockExecutor::<'a, Evm, Spec, R>::gas_used, (&executor,), gas_used),
        call_ensures(EthBlockExecutor::<'a, Evm, Spec, R>::evm, (&executor,), &evm),
        call_ensures(
            EthBlockExecutor::<'a, Evm, Spec, R>::next_transaction_source,
            (&executor,),
            source,
        ),
        call_ensures(EthBlockExecutor::<'a, Evm, Spec, R>::into_parts, (executor,), parts),
    ensures
        executor@ == (EthBlockExecutorView::<'a, Evm, Spec, R> {
            chain,
            ctx,
            evm,
            receipt_builder: executor@.receipt_builder,
            receipts: receipts@,
            gas_used,
        }),
        source == StateChangeSource::Transaction(receipts@.len() as usize),
        parts.0 == evm,
        parts.1@ == receipts@,
        parts.2 == gas_used,
{
}

/// What is done to the EVM or the inputs of an executor is done to them alone.
pub proof fn law_executor_access<'a, Evm, Spec, R: ReceiptBuilder>(
    executor: &mut EthBlockExecutor<'a, Evm, Spec, R>,
    evm: &mut Evm,
    ctx: &mut EthBlockExecutionCtx<'a>,
)
    ensures
        call_ensures(EthBlockExecutor::<'a, Evm, Spec, R>::evm_mut, (executor,), evm) ==> {
            &&& *old(evm) == old(executor)@.evm
            &&& final(executor)@.evm == *final(evm)
            &&& final(executor)@.chain == old(executor)@.chain
            &&& final(executor)@.ctx == old(executor)@.ctx
            &&& final(executor)@.receipt_builder == old(executor)@.receipt_builder
            &&& final(executor)@.receipts == old(executor)@.receipts
            &&& final(executor)@.gas_used == old(executor)@.gas_used
        },
        call_ensures(EthBlockExecutor::<'a, Evm, Spec, R>::ctx_mut, (executor,), ctx) ==> {
            &&& *old(ctx) == old(executor)@.ctx
            &&& final(executor)@.ctx == *final(ctx)
            &&& final(executor)@.chain == old(executor)@.chain
            &&& final(executor)@.evm == old(executor)@.evm
            &&& final(executor)@.receipt_builder == old(executor)@.receipt_builder
            &&& final(executor)@.receipts == old(executor)@.receipts
            &&& final(executor)@.gas_used == old(executor)@.gas_used
        },
{
}

/// The changes that precede the first transaction, for every block: the state clear flag, set where
/// Spurious Dragon has been reached; the call with the parent hash; the call with the parent beacon
/// root.
pub proof fn law_changes_before_transactions<
    'a,
    Evm,
    Spec: EthExecutorSpec,
    R: ReceiptBuilder<Evm = Evm>,
>(executor: EthBlockExecutor<'a, Evm, Spec, R>, block: BlockEnv, changes: Vec<PreExecutionChange>)
    requires
        call_ensures(
            EthBlockExecutor::<'a, Evm, Spec, R>::apply_pre_execution_changes,
            (&executor, &block),
            changes,
        ),
    ensures
        changes@.len() == 3,
        exists|condition: ForkCondition| #[trigger]
            call_ensures(
                Spec::ethereum_fork_activation,
                (&executor@.chain, EthereumHardfork::SpuriousDragon),
                condition,
            ) && changes@[0] == PreExecutionChange::SetStateClearFlag(
                match condition {
                    ForkCondition::Block(number) => block.number.value() >= number,
                    ForkCondition::TTD { activation_block_number, .. } => block.number.value()
                        >= activation_block_number,
                    _ => false,
                },
            ),
        changes@[1] == PreExecutionChange::BlockhashesContractCall(executor@.ctx.parent_hash),
        changes@[2] == PreExecutionChange::BeaconRootContractCall(
            executor@.ctx.parent_beacon_block_root,
        ),
{
}

/// After a change that succeeded comes the one behind it in the list, and nothing after the last. A
/// change that failed ends the list with its error.
pub proof fn law_after_change<E>(
    changes: Vec<PreExecutionChange>,
    made: usize,
    result: Result<(), E>,
    next: Result<Option<PreExecutionChange>, E>,
)
    requires
        call_ensures(block::after_pre_execution_change::<E>, (&changes, made, result), next),
        made < changes@.len(),
    ensures
        next is Ok <==> result is Ok,
        result is Err ==> next->Err_0 == result->Err_0,
        result is Ok && made < changes@.len() - 1 ==> next->Ok_0 == Some(changes@[made + 1]),
        result is Ok && made == changes@.len() - 1 ==> next->Ok_0 is None,
{
}

/// A transaction fits into a block exactly where the gas that the block has used and the gas limit
/// of the transaction are together no more than the gas limit of the block.
pub proof fn law_gas_limit_check<'a, Evm, Spec: EthExecutorSpec, R: ReceiptBuilder<Evm = Evm>>(
    executor: EthBlockExecutor<'a, Evm, Spec, R>,
    block: BlockEnv,
    tx_gas_limit: u64,
    result: Result<(), BlockValidationError>,
)
    requires
        call_ensures(
            EthBlockExecutor::<'a, Evm, Spec, R>::check_transaction_gas_limit,
            (&executor, &block, tx_gas_limit),
            result,
        ),
        executor@.gas_used <= block.gas_limit,
    ensures
        result is Ok <==> executor@.gas_used + tx_gas_limit <= block.gas_limit,
        result matches Err(error) ==> error matches
            BlockValidationError::TransactionGasLimitMoreThanAvailableBlockGas {
            transaction_gas_limit,
            block_available_gas,
        } && transaction_gas_limit == tx_gas_limit && executor@.gas_used + block_available_gas
            == block.gas_limit,
{
}

/// An executed transaction is reported with its own state changes under the index of the receipt
/// that it is about to get, and its result is kept.
pub proof fn law_reported_transaction<
    'a,
    Evm,
    Spec: EthExecutorSpec,
    R: ReceiptBuilder<Evm = Evm>,
>(
    executor: EthBlockExecutor<'a, Evm, Spec, R>,
    result: R::ExecutionResult,
    state: R::State,
    report: TransactionReport<R::ExecutionResult, R::State>,
)
    requires
        call_ensures(
            EthBlockExecutor::<'a, Evm, Spec, R>::report_transaction,
            (&executor, result, state),
            report,
        ),
    ensures
        report.source == StateChangeSource::Transaction(executor@.receipts.len() as usize),
        report.state == state,
        report.result == result,
{
}

/// A committed transaction adds its gas to that of the block, whatever came before it, and one
/// receipt, behind the others. The receipt is built from the transaction, its result, its state
/// changes, the EVM as it is, and the gas that the block has used with it. Nothing else changes.
pub proof fn law_committed<'a, Evm, Spec, R: ReceiptBuilder<Evm = Evm>>(
    before: EthBlockExecutorView<'a, Evm, Spec, R>,
    tx: R::Transaction,
    report: TransactionReport<R::ExecutionResult, R::State>,
    commit: TransactionCommit<R::State>,
    after: EthBlockExecutorView<'a, Evm, Spec, R>,
)
    requires
        block::committed(before, tx, report, commit, after),
    ensures
        after.gas_used == before.gas_used + commit.gas_used,
        after.receipts.len() == before.receipts.len() + 1,
        forall|i: int|
            0 <= i < before.receipts.len() ==> #[trigger] after.receipts[i] == before.receipts[i],
        call_ensures(
            R::build_receipt,
            (
                &before.receipt_builder,
                ReceiptBuilderCtx {
                    tx: &tx,
                    evm: &before.evm,
                    result: report.result,
                    state: &report.state,
                    cumulative_gas_used: (before.gas_used + commit.gas_used) as u64,
                },
            ),
            after.receipts.last(),
        ),
        after.chain == before.chain,
        after.ctx == before.ctx,
        after.evm == before.evm,
        after.receipt_builder == before.receipt_builder,
{
}

/// [`law_committed`], of the executor that commits: the gas is what the transaction is charged, and
/// the state changes to commit are those that were reported.
pub proof fn law_commit_transaction<'a, Evm, Spec: EthExecutorSpec, R: ReceiptBuilder<Evm = Evm>>(
    executor: &mut EthBlockExecutor<'a, Evm, Spec, R>,
    tx: R::Transaction,
    tx_gas_limit: u64,
    report: TransactionReport<R::ExecutionResult, R::State>,
    raw_gas_used: u64,
    commit: TransactionCommit<R::State>,
)
    requires
        call_ensures(
            EthBlockExecutor::<'a, Evm, Spec, R>::commit_transaction,
            (executor, &tx, tx_gas_limit, report, raw_gas_used),
            commit,
        ),
    ensures
        commit.gas_used >= raw_gas_used,
        5 * commit.gas_used >= 4 * tx_gas_limit - 4,
        commit.gas_used == raw_gas_used || 5 * commit.gas_used <= 4 * tx_gas_limit,
        commit.state == report.state,
        final(executor)@.gas_used == old(executor)@.gas_used + commit.gas_used,
        final(executor)@.receipts.len() == old(executor)@.receipts.len() + 1,
        forall|i: int|
            0 <= i < old(executor)@.receipts.len() ==> #[trigger] final(executor)@.receipts[i]
                == old(executor)@.receipts[i],
        call_ensures(
            R::build_receipt,
            (
                &old(executor)@.receipt_builder,
                ReceiptBuilderCtx {
                    tx: &tx,
                    evm: &old(executor)@.evm,
                    result: report.result,
                    state: &report.state,
                    cumulative_gas_used: (old(executor)@.gas_used + commit.gas_used) as u64,
                },
            ),
            final(executor)@.receipts.last(),
        ),
        final(executor)@.chain == old(executor)@.chain,
        final(executor)@.ctx == old(executor)@.ctx,
        final(executor)@.evm == old(executor)@.evm,
        final(executor)@.receipt_builder == old(executor)@.receipt_builder,
{
    law_committed(old(executor)@, tx, report, commit, final(executor)@);
}

/// A factory hands out executors that have executed nothing, over its own receipt builder and
/// chain, and tells what it was made with.
pub proof fn law_factory<'a, Evm, R: ReceiptBuilder, Spec, EvmFactory>(
    receipt_builder: R,
    chain: Spec,
    evm_factory: EvmFactory,
    factory: EthBlockExecutorFactory<R, Spec, EvmFactory>,
    told_builder: R,
    told_chain: Spec,
    told_factory: EvmFactory,
    evm: Evm,
    ctx: EthBlockExecutionCtx<'a>,
    executor: EthBlockExecutor<'a, Evm, &'a Spec, &'a R>,
)
    requires
        call_ensures(
            EthBlockExecutorFactory::<R, Spec, EvmFactory>::new,
            (receipt_builder, chain, evm_factory),
            factory,
        ),
        call_ensures(
            EthBlockExecutorFactory::<R, Spec, EvmFactory>::receipt_builder,
            (&factory,),
            &told_builder,
        ),
        call_ensures(
            EthBlockExecutorFactory::<R, Spec, EvmFactory>::spec,
            (&factory,),
            &told_chain,
        ),
        call_ensures(
            EthBlockExecutorFactory::<R, Spec, EvmFactory>::evm_factory,
            (&factory,),
            &told_factory,
        ),
        call_ensures(
            EthBlockExecutorFactory::<R, Spec, EvmFactory>::create_executor::<Evm>,
            (&factory, evm, ctx),
            executor,
        ),
    ensures
        told_builder == receipt_builder,
        told_chain == chain,
        told_factory == evm_factory,
        *executor@.receipt_builder == receipt_builder,
        *executor@.chain == chain,
        executor@.evm == evm,
        executor@.ctx == ctx,
        executor@.receipts.len() == 0,
        executor@.gas_used == 0,
{
}

/// A reference to a receipt builder builds the receipts of the builder.
pub proof fn law_reference_to_builder<T: ReceiptBuilder>(
    builder: &T,
    ctx: ReceiptBuilderCtx<'_, T::Transaction, T::Evm, T::ExecutionResult, T::State>,
    receipt: T::Receipt,
)
    requires
        call_ensures(<&T as ReceiptBuilder>::build_receipt, (&builder, ctx), receipt),
    ensures
        call_ensures(T::build_receipt, (builder, ctx), receipt),
{
}

/// What may be asked of an executor: what precedes the transactions and a report always; the check
/// of a gas limit where the block has not used more than its own; a charge where four times the gas
/// limit fits into 64 bits; a commit where in addition the transaction is the one that was reported
/// last and the gas of the block fits into 64 bits.
pub proof fn law_executor_may_be_asked<
    'a,
    Evm,
    Spec: EthExecutorSpec,
    R: ReceiptBuilder<Evm = Evm>,
>(
    executor: &mut EthBlockExecutor<'a, Evm, Spec, R>,
    block: BlockEnv,
    tx: R::Transaction,
    tx_gas_limit: u64,
    raw_gas_used: u64,
    gas_used: u64,
    report: TransactionReport<R::ExecutionResult, R::State>,
)
    requires
        call_ensures(block::charge, (raw_gas_used, tx_gas_limit), gas_used),
    ensures
        call_requires(
            EthBlockExecutor::<'a, Evm, Spec, R>::apply_pre_execution_changes,
            (&*old(executor), &block),
        ),
        call_requires(
            EthBlockExecutor::<'a, Evm, Spec, R>::report_transaction,
            (&*old(executor), report.result, report.state),
        ),
        old(executor)@.gas_used <= block.gas_limit ==> call_requires(
            EthBlockExecutor::<'a, Evm, Spec, R>::check_transaction_gas_limit,
            (&*old(executor), &block, tx_gas_limit),
        ),
        4 * tx_gas_limit <= u64::MAX ==> call_requires(block::charge, (raw_gas_used, tx_gas_limit)),
        4 * tx_gas_limit <= u64::MAX && old(executor)@.gas_used + gas_used <= u64::MAX
            && report.source == StateChangeSource::Transaction(
            old(executor)@.receipts.len() as usize,
        ) ==> call_requires(
            EthBlockExecutor::<'a, Evm, Spec, R>::commit_transaction,
            (executor, &tx, tx_gas_limit, report, raw_gas_used),
        ),
{
}

/// Decisions on system calls may be asked for with any input, and an increase where the amount of
/// the account then fits into 128 bits.
pub proof fn law_decisions_may_be_asked<Spec: EthExecutorSpec>(
    chain: &Spec,
    timestamp: u64,
    active: bool,
    contract: Option<Address>,
    calldata: Option<Vec<u8>>,
    withdrawals: Option<Vec<Withdrawal>>,
    increments: BalanceIncrements,
    amount: u128,
    receiver: Address,
)
    ensures
        call_requires(
            system_calls::bridge_contract_call::<Spec>,
            (chain, timestamp, &calldata),
        ),
        call_requires(system_calls::bridge_gates, (active, contract, &calldata)),
        call_requires(
            system_calls::staking_distribution_call::<Spec>,
            (chain, timestamp, &withdrawals),
        ),
        call_requires(system_calls::staking_gates, (active, contract, &withdrawals)),
        !increments@.contains_key(receiver) || increments@[receiver] + amount <= u128::MAX
            ==> call_requires(BalanceIncrements::increased, (increments, receiver, amount)),
{
}

} // verus!
