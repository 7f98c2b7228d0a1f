//! Validator withdrawals (EIP-4895).

use crate::primitives::{Address, U256};
use vstd::prelude::*;

verus! {

/// A withdrawal from the consensus layer.
#[derive(Debug, Clone, Copy, PartialEq, Eq, Hash, Default)]
pub struct Withdrawal {
    /// Identifier issued by the consensus layer.
    pub index: u64,
    /// Validator that the withdrawal belongs to.
    pub validator_index: u64,
    /// Account that receives the amount.
    pub address: Address,
    /// Amount in gwei.
    pub amount: u64,
}

impl Withdrawal {
    /// The amount in wei.
    ///
    /// Calls `Withdrawal::amount_wei` of `alloy-eips`, which is claimed to return the amount times
    /// one billion.
    #[verifier::external_body]
    pub(crate) fn amount_wei(&self) -> (wei: U256)
        ensures
            wei.value() == self.amount * 1_000_000_000,
    {
        let withdrawal = alloy_eips::eip4895::Withdrawal {
            index: self.index,
            validator_index: self.validator_index,
            address: alloy_primitives::Address::new(self.address.bytes),
            amount: self.amount,
        };
        U256 { limbs: withdrawal.amount_wei().into_limbs() }
    }
}

} // verus!
