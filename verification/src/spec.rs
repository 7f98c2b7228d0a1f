//! What a chain tells the block executor about itself.

use crate::hardforks;
use crate::hardforks::{EthereumHardfork, EthereumHardforks, ForkCondition};
use crate::primitives::Address;
use alloy_hardforks::EthereumChainHardforks;
use std::sync::Arc;
use vstd::prelude::*;

verus! {

/// The settings of a chain that block execution depends on.
pub trait EthExecutorSpec: EthereumHardforks {
    /// Address of the deposit contract that emits deposit events.
    fn deposit_contract_address(&self) -> Option<Address>;

    /// Address of the staking contract.
    fn staking_contract_address(&self) -> Option<Address>;

    /// Checks whether the staking contract is active at `timestamp`.
    fn is_staking_activate_at_timestamp(&self, timestamp: u64) -> bool;

    /// Address of the bridge contract that inbound cross-chain messages are executed by.
    ///
    /// `None`, which a chain that does not say otherwise returns, disables the bridge system call
    /// whatever [`Self::is_bridge_active_at_timestamp`] returns.
    fn bridge_contract_address(&self) -> (address: Option<Address>)
        default_ensures
            address is None,
    {
        None
    }

    /// Checks whether the bridge fork is active at `timestamp`.
    ///
    /// It never is on a chain that does not say otherwise.
    fn is_bridge_active_at_timestamp(&self, timestamp: u64) -> (active: bool)
        default_ensures
            !active,
    {
        false
    }
}

impl<T: EthExecutorSpec> EthExecutorSpec for &T {
    fn deposit_contract_address(&self) -> (address: Option<Address>)
        ensures
            call_ensures(T::deposit_contract_address, (*self,), address),
    {
        (**self).deposit_contract_address()
    }

    fn staking_contract_address(&self) -> (address: Option<Address>)
        ensures
            call_ensures(T::staking_contract_address, (*self,), address),
    {
        (**self).staking_contract_address()
    }

    fn is_staking_activate_at_timestamp(&self, timestamp: u64) -> (active: bool)
        ensures
            call_ensures(T::is_staking_activate_at_timestamp, (*self, timestamp), active),
    {
        (**self).is_staking_activate_at_timestamp(timestamp)
    }

    fn bridge_contract_address(&self) -> (address: Option<Address>)
        ensures
            call_ensures(T::bridge_contract_address, (*self,), address),
    {
        (**self).bridge_contract_address()
    }

    fn is_bridge_active_at_timestamp(&self, timestamp: u64) -> (active: bool)
        ensures
            call_ensures(T::is_bridge_active_at_timestamp, (*self, timestamp), active),
    {
        (**self).is_bridge_active_at_timestamp(timestamp)
    }
}

impl<T: EthExecutorSpec> EthExecutorSpec for Arc<T> {
    fn deposit_contract_address(&self) -> (address: Option<Address>)
        ensures
            call_ensures(T::deposit_contract_address, (&**self,), address),
    {
        (**self).deposit_contract_address()
    }

    fn staking_contract_address(&self) -> (address: Option<Address>)
        ensures
            call_ensures(T::staking_contract_address, (&**self,), address),
    {
        (**self).staking_contract_address()
    }

    fn is_staking_activate_at_timestamp(&self, timestamp: u64) -> (active: bool)
        ensures
            call_ensures(T::is_staking_activate_at_timestamp, (&**self, timestamp), active),
    {
        (**self).is_staking_activate_at_timestamp(timestamp)
    }

    fn bridge_contract_address(&self) -> (address: Option<Address>)
        ensures
            call_ensures(T::bridge_contract_address, (&**self,), address),
    {
        (**self).bridge_contract_address()
    }

    fn is_bridge_active_at_timestamp(&self, timestamp: u64) -> (active: bool)
        ensures
            call_ensures(T::is_bridge_active_at_timestamp, (&**self, timestamp), active),
    {
        (**self).is_bridge_active_at_timestamp(timestamp)
    }
}

/// The bytes of the address of the deposit contract of Ethereum mainnet.
pub const MAINNET_DEPOSIT_CONTRACT: [u8; 20] = [
    0x00, 0x00, 0x00, 0x00, 0x21, 0x9a, 0xb5, 0x40, 0x35, 0x6c,
    0xbb, 0x83, 0x9c, 0xbe, 0x05, 0x30, 0x3d, 0x77, 0x05, 0xfa,
];

/// The bytes of the address of the deposit contract of Sepolia.
pub const SEPOLIA_DEPOSIT_CONTRACT: [u8; 20] = [
    0x7f, 0x02, 0xc3, 0xe3, 0xc9, 0x8b, 0x13, 0x30, 0x55, 0xb8,
    0xb3, 0x48, 0xb2, 0xac, 0x62, 0x56, 0x69, 0xed, 0x29, 0x5d,
];

/// The bytes of the address of the deposit contract of Holesky.
pub const HOLESKY_DEPOSIT_CONTRACT: [u8; 20] = [
    0x42, 0x42, 0x42, 0x42, 0x42, 0x42, 0x42, 0x42, 0x42, 0x42,
    0x42, 0x42, 0x42, 0x42, 0x42, 0x42, 0x42, 0x42, 0x42, 0x42,
];

/// The deposit contract of Ethereum mainnet.
///
/// Reads `eip6110::MAINNET_DEPOSIT_CONTRACT_ADDRESS` of `alloy-eips`, whose bytes are claimed to
/// be those of [`MAINNET_DEPOSIT_CONTRACT`].
#[verifier::external_body]
fn mainnet_deposit_contract() -> (address: Address)
    ensures
        address.bytes == MAINNET_DEPOSIT_CONTRACT,
{
    Address { bytes: alloy_eips::eip6110::MAINNET_DEPOSIT_CONTRACT_ADDRESS.into_array() }
}

/// A chain with the settings of one of the public Ethereum networks.
#[derive(Debug)]
pub struct EthSpec {
    hardforks: EthereumChainHardforks,
    deposit_contract_address: Option<Address>,
}

impl EthSpec {
    /// The condition on which `fork` becomes active.
    pub closed spec fn fork_activation(&self, fork: EthereumHardfork) -> ForkCondition {
        hardforks::activation_in(hardforks::listed_forks(self.hardforks), fork)
    }

    /// The contract whose logs are deposits.
    pub closed spec fn deposit_contract(&self) -> Option<Address> {
        self.deposit_contract_address
    }

    /// Creates the settings of Ethereum mainnet.
    pub fn mainnet() -> (chain: EthSpec)
        ensures
            forall|fork: EthereumHardfork| #[trigger]
                chain.fork_activation(fork) == hardforks::activation_in(
                    hardforks::mainnet_forks(),
                    fork,
                ),
            chain.deposit_contract() == Some(Address { bytes: MAINNET_DEPOSIT_CONTRACT }),
    {
        EthSpec {
            hardforks: hardforks::mainnet_table(),
            deposit_contract_address: Some(mainnet_deposit_contract()),
        }
    }

    /// Creates the settings of the Sepolia test network.
    pub fn sepolia() -> (chain: EthSpec)
        ensures
            forall|fork: EthereumHardfork| #[trigger]
                chain.fork_activation(fork) == hardforks::activation_in(
                    hardforks::sepolia_forks(),
                    fork,
                ),
            chain.deposit_contract() == Some(Address { bytes: SEPOLIA_DEPOSIT_CONTRACT }),
    {
        EthSpec {
            hardforks: hardforks::sepolia_table(),
            deposit_contract_address: Some(Address { bytes: SEPOLIA_DEPOSIT_CONTRACT }),
        }
    }

    /// Creates the settings of the Holesky test network.
    pub fn holesky() -> (chain: EthSpec)
        ensures
            forall|fork: EthereumHardfork| #[trigger]
                chain.fork_activation(fork) == hardforks::activation_in(
                    hardforks::holesky_forks(),
                    fork,
                ),
            chain.deposit_contract() == Some(Address { bytes: HOLESKY_DEPOSIT_CONTRACT }),
    {
        EthSpec {
            hardforks: hardforks::holesky_table(),
            deposit_contract_address: Some(Address { bytes: HOLESKY_DEPOSIT_CONTRACT }),
        }
    }
}

impl Clone for EthSpec {
    fn clone(&self) -> (copy: EthSpec)
        ensures
            forall|fork: EthereumHardfork| #[trigger]
                copy.fork_activation(fork) == self.fork_activation(fork),
            copy.deposit_contract() == self.deposit_contract(),
    {
        EthSpec {
            hardforks: self.hardforks.clone(),
            deposit_contract_address: self.deposit_contract_address,
        }
    }
}

impl EthereumHardforks for EthSpec {
    fn ethereum_fork_activation(&self, fork: EthereumHardfork) -> (condition: ForkCondition)
        ensures
            condition == self.fork_activation(fork),
    {
        hardforks::lookup_fork(&self.hardforks, fork)
    }
}

impl EthExecutorSpec for EthSpec {
    fn deposit_contract_address(&self) -> (address: Option<Address>)
        ensures
            address == self.deposit_contract(),
    {
        self.deposit_contract_address
    }

    fn staking_contract_address(&self) -> (address: Option<Address>)
        ensures
            address is None,
    {
        None
    }

    fn is_staking_activate_at_timestamp(&self, timestamp: u64) -> (active: bool)
        ensures
            !active,
    {
        false
    }
}

} // verus!
