//! Hard forks and the conditions on which they become active.

use crate::primitives::U256;
use alloy_hardforks::{EthereumChainHardforks, ForkCondition as ListedCondition};
use std::sync::Arc;
use vstd::prelude::*;

verus! {

/// The hard forks of Ethereum, oldest first.
#[derive(Debug, Clone, Copy, PartialEq, Eq, Hash, Structural)]
pub enum EthereumHardfork {
    /// The launch of the network.
    Frontier,
    /// Homestead.
    Homestead,
    /// The DAO fork.
    Dao,
    /// Tangerine Whistle.
    Tangerine,
    /// Spurious Dragon.
    SpuriousDragon,
    /// Byzantium.
    Byzantium,
    /// Constantinople.
    Constantinople,
    /// Petersburg.
    Petersburg,
    /// Istanbul.
    Istanbul,
    /// Muir Glacier.
    MuirGlacier,
    /// Berlin.
    Berlin,
    /// London.
    London,
    /// Arrow Glacier.
    ArrowGlacier,
    /// Gray Glacier.
    GrayGlacier,
    /// Paris, the merge.
    Paris,
    /// Shanghai.
    Shanghai,
    /// Cancun.
    Cancun,
    /// Prague.
    Prague,
    /// Osaka.
    Osaka,
}

/// The condition on which a fork becomes active.
#[derive(Debug, Clone, Copy, PartialEq, Eq, Hash)]
pub enum ForkCondition {
    /// Active from a block number on.
    Block(u64),
    /// Active once a total difficulty has been reached.
    TTD {
        /// The first block after the merge.
        activation_block_number: u64,
        /// The block that is advertised as the one that reached the difficulty.
        fork_block: Option<u64>,
        /// The total difficulty.
        total_difficulty: U256,
    },
    /// Active from a timestamp on.
    Timestamp(u64),
    /// Never active.
    Never,
}

impl ForkCondition {
    /// Whether the fork is active at block `number`: its activation block has been reached.
    pub open spec fn holds_at_block(self, number: u64) -> bool {
        match self {
            ForkCondition::Block(block) => number >= block,
            ForkCondition::TTD { activation_block_number, .. } => number >= activation_block_number,
            _ => false,
        }
    }

    /// Whether the fork is active at `timestamp`: its activation time has been reached.
    pub open spec fn holds_at_timestamp(self, timestamp: u64) -> bool {
        match self {
            ForkCondition::Timestamp(time) => timestamp >= time,
            _ => false,
        }
    }

    /// Whether block `number` is the one that the fork is bound to.
    pub open spec fn starts_at_block(self, number: u64) -> bool {
        self == ForkCondition::Block(number)
    }

    /// Checks whether the fork is active at block `number`.
    pub fn active_at_block(&self, number: u64) -> (active: bool)
        ensures
            active == self.holds_at_block(number),
    {
        match *self {
            ForkCondition::Block(block) => number >= block,
            ForkCondition::TTD { activation_block_number, .. } => number >= activation_block_number,
            _ => false,
        }
    }

    /// Checks whether block `number` is the first one at which a block-based fork is active.
    pub fn transitions_at_block(&self, number: u64) -> (first: bool)
        ensures
            first == self.starts_at_block(number),
    {
        match *self {
            ForkCondition::Block(block) => number == block,
            _ => false,
        }
    }

    /// Checks whether the fork is active at `timestamp`.
    pub fn active_at_timestamp(&self, timestamp: u64) -> (active: bool)
        ensures
            active == self.holds_at_timestamp(timestamp),
    {
        match *self {
            ForkCondition::Timestamp(time) => timestamp >= time,
            _ => false,
        }
    }
}

/// The activation of each fork on a chain.
pub trait EthereumHardforks {
    /// Returns the condition on which `fork` becomes active; `Never` for a fork that the chain
    /// does not have.
    fn ethereum_fork_activation(&self, fork: EthereumHardfork) -> ForkCondition;

    /// Checks whether Prague is active at `timestamp`.
    fn is_prague_active_at_timestamp(&self, timestamp: u64) -> (active: bool)
        ensures
            exists|condition: ForkCondition| #[trigger]
                call_ensures(
                    Self::ethereum_fork_activation,
                    (self, EthereumHardfork::Prague),
                    condition,
                ) && active == condition.holds_at_timestamp(timestamp),
    {
        self.ethereum_fork_activation(EthereumHardfork::Prague).active_at_timestamp(timestamp)
    }

    /// Checks whether Spurious Dragon is active at block `number`.
    fn is_spurious_dragon_active_at_block(&self, number: u64) -> (active: bool)
        ensures
            exists|condition: ForkCondition| #[trigger]
                call_ensures(
                    Self::ethereum_fork_activation,
                    (self, EthereumHardfork::SpuriousDragon),
                    condition,
                ) && active == condition.holds_at_block(number),
    {
        self.ethereum_fork_activation(EthereumHardfork::SpuriousDragon).active_at_block(number)
    }
}

impl<T: EthereumHardforks> EthereumHardforks for &T {
    fn ethereum_fork_activation(&self, fork: EthereumHardfork) -> (condition: ForkCondition)
        ensures
            call_ensures(T::ethereum_fork_activation, (*self, fork), condition),
    {
        (**self).ethereum_fork_activation(fork)
    }
}

impl<T: EthereumHardforks> EthereumHardforks for Arc<T> {
    fn ethereum_fork_activation(&self, fork: EthereumHardfork) -> (condition: ForkCondition)
        ensures
            call_ensures(T::ethereum_fork_activation, (&**self, fork), condition),
    {
        (**self).ethereum_fork_activation(fork)
    }
}

/// The fork table of a chain, as `alloy-hardforks` keeps it.
#[verifier::external_type_specification]
#[verifier::external_body]
pub struct ExEthereumChainHardforks(EthereumChainHardforks);

/// The forks that a table lists, each with its condition.
pub uninterp spec fn listed_forks(table: EthereumChainHardforks) -> Map<
    EthereumHardfork,
    ForkCondition,
>;

/// The condition that `forks` gives for `fork`; `Never` where it gives none.
pub open spec fn activation_in(
    forks: Map<EthereumHardfork, ForkCondition>,
    fork: EthereumHardfork,
) -> ForkCondition {
    if forks.contains_key(fork) {
        forks[fork]
    } else {
        ForkCondition::Never
    }
}

/// Looks `fork` up in `table`.
///
/// Calls `EthereumChainHardforks::ethereum_fork_activation`, which is claimed to return the
/// condition that the table lists for the fork, and `Never` for a fork that it does not list. Both
/// enumerations name the same forks in the same order, so a fork is handed over by its position.
#[verifier::external_body]
pub(crate) fn lookup_fork(table: &EthereumChainHardforks, fork: EthereumHardfork) -> (condition:
    ForkCondition)
    ensures
        condition == activation_in(listed_forks(*table), fork),
{
    let fork = alloy_hardforks::EthereumHardfork::VARIANTS[fork as usize];
    match alloy_hardforks::EthereumHardforks::ethereum_fork_activation(table, fork) {
        ListedCondition::Block(block) => ForkCondition::Block(block),
        ListedCondition::TTD { activation_block_number, fork_block, total_difficulty } => {
            let total_difficulty = U256 { limbs: total_difficulty.into_limbs() };
            ForkCondition::TTD { activation_block_number, fork_block, total_difficulty }
        },
        ListedCondition::Timestamp(time) => ForkCondition::Timestamp(time),
        ListedCondition::Never => ForkCondition::Never,
    }
}

/// The forks of Ethereum mainnet.
pub open spec fn mainnet_forks() -> Map<EthereumHardfork, ForkCondition> {
    map![
        EthereumHardfork::Frontier => ForkCondition::Block(0),
        EthereumHardfork::Homestead => ForkCondition::Block(1_150_000),
        EthereumHardfork::Dao => ForkCondition::Block(1_920_000),
        EthereumHardfork::Tangerine => ForkCondition::Block(2_463_000),
        EthereumHardfork::SpuriousDragon => ForkCondition::Block(2_675_000),
        EthereumHardfork::Byzantium => ForkCondition::Block(4_370_000),
        EthereumHardfork::Constantinople => ForkCondition::Block(7_280_000),
        EthereumHardfork::Petersburg => ForkCondition::Block(7_280_000),
        EthereumHardfork::Istanbul => ForkCondition::Block(9_069_000),
        EthereumHardfork::MuirGlacier => ForkCondition::Block(9_200_000),
        EthereumHardfork::Berlin => ForkCondition::Block(12_244_000),
        EthereumHardfork::London => ForkCondition::Block(12_965_000),
        EthereumHardfork::ArrowGlacier => ForkCondition::Block(13_773_000),
        EthereumHardfork::GrayGlacier => ForkCondition::Block(15_050_000),
        EthereumHardfork::Paris => ForkCondition::TTD {
            activation_block_number: 15_537_394,
            fork_block: None,
            // 58_750_000_000_000_000_000_000
            total_difficulty: U256 { limbs: [0xd808_a128_d738_0000, 0xc70, 0, 0] },
        },
        EthereumHardfork::Shanghai => ForkCondition::Timestamp(1_681_338_455),
        EthereumHardfork::Cancun => ForkCondition::Timestamp(1_710_338_135),
        EthereumHardfork::Prague => ForkCondition::Timestamp(1_746_612_311),
    ]
}

/// The forks that the test networks have from their first block on.
pub open spec fn genesis_forks() -> Map<EthereumHardfork, ForkCondition> {
    map![
        EthereumHardfork::Frontier => ForkCondition::Block(0),
        EthereumHardfork::Homestead => ForkCondition::Block(0),
        EthereumHardfork::Dao => ForkCondition::Block(0),
        EthereumHardfork::Tangerine => ForkCondition::Block(0),
        EthereumHardfork::SpuriousDragon => ForkCondition::Block(0),
        EthereumHardfork::Byzantium => ForkCondition::Block(0),
        EthereumHardfork::Constantinople => ForkCondition::Block(0),
        EthereumHardfork::Petersburg => ForkCondition::Block(0),
        EthereumHardfork::Istanbul => ForkCondition::Block(0),
        EthereumHardfork::MuirGlacier => ForkCondition::Block(0),
        EthereumHardfork::Berlin => ForkCondition::Block(0),
        EthereumHardfork::London => ForkCondition::Block(0),
    ]
}

/// The forks of the Sepolia test network.
pub open spec fn sepolia_forks() -> Map<EthereumHardfork, ForkCondition> {
    genesis_forks().union_prefer_right(
        map![
            EthereumHardfork::Paris => ForkCondition::TTD {
                activation_block_number: 1_450_409,
                fork_block: Some(1_735_371),
                total_difficulty: U256 { limbs: [17_000_000_000_000_000, 0, 0, 0] },
            },
            EthereumHardfork::Shanghai => ForkCondition::Timestamp(1_677_557_088),
            EthereumHardfork::Cancun => ForkCondition::Timestamp(1_706_655_072),
            EthereumHardfork::Prague => ForkCondition::Timestamp(1_741_159_776),
        ],
    )
}

/// The forks of the Holesky test network.
pub open spec fn holesky_forks() -> Map<EthereumHardfork, ForkCondition> {
    genesis_forks().union_prefer_right(
        map![
            EthereumHardfork::Paris => ForkCondition::TTD {
                activation_block_number: 0,
                fork_block: Some(0),
                total_difficulty: U256 { limbs: [0, 0, 0, 0] },
            },
            EthereumHardfork::Shanghai => ForkCondition::Timestamp(1_696_000_704),
            EthereumHardfork::Cancun => ForkCondition::Timestamp(1_707_305_664),
            EthereumHardfork::Prague => ForkCondition::Timestamp(1_740_434_112),
        ],
    )
}

/// Copying a table (`EthereumChainHardforks::clone`) is claimed to keep what it lists.
pub assume_specification[ <EthereumChainHardforks as Clone>::clone ](
    table: &EthereumChainHardforks,
) -> (copy: EthereumChainHardforks)
    ensures
        listed_forks(copy) == listed_forks(*table),
;

/// The fork table of Ethereum mainnet.
///
/// Calls `EthereumChainHardforks::mainnet`, which is claimed to list the forks of
/// [`mainnet_forks`].
#[verifier::external_body]
pub(crate) fn mainnet_table() -> (table: EthereumChainHardforks)
    ensures
        listed_forks(table) == mainnet_forks(),
{
    EthereumChainHardforks::mainnet()
}

/// The fork table of the Sepolia test network.
///
/// Calls `EthereumChainHardforks::sepolia`, which is claimed to list the forks of
/// [`sepolia_forks`].
#[verifier::external_body]
pub(crate) fn sepolia_table() -> (table: EthereumChainHardforks)
    ensures
        listed_forks(table) == sepolia_forks(),
{
    EthereumChainHardforks::sepolia()
}

/// The fork table of the Holesky test network.
///
/// Calls `EthereumChainHardforks::holesky`, which is claimed to list the forks of
/// [`holesky_forks`].
#[verifier::external_body]
pub(crate) fn holesky_table() -> (table: EthereumChainHardforks)
    ensures
        listed_forks(table) == holesky_forks(),
{
    EthereumChainHardforks::holesky()
}

} // verus!
