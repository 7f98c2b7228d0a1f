//! What can go wrong while a block is executed.

use crate::primitives::B256;
use vstd::prelude::*;

verus! {

/// A block that breaks a rule.
#[derive(Debug, Clone, Copy, PartialEq, Eq, Structural)]
pub enum BlockValidationError {
    /// A transaction may use more gas than the block has left.
    TransactionGasLimitMoreThanAvailableBlockGas {
        /// The gas limit of the transaction.
        transaction_gas_limit: u64,
        /// The gas that the block has left.
        block_available_gas: u64,
    },
    /// Balances could not be drained or incremented.
    IncrementBalanceFailed,
}

/// An error that ends the execution of a block. `E` is the error type of the calls that are made
/// on behalf of the executor.
#[derive(Debug)]
pub enum BlockExecutionError<E> {
    /// The block breaks a rule.
    Validation(BlockValidationError),
    /// A transaction could not be executed.
    Transaction {
        /// The hash of the transaction.
        hash: B256,
        /// What the call returned.
        error: E,
    },
    /// A call that the block cannot do without failed.
    Call(E),
    /// Another failure, in words.
    Message(String),
}

/// The value of a [`BlockExecutionError`].
pub enum BlockExecutionErrorView<E> {
    /// The block breaks a rule.
    Validation(BlockValidationError),
    /// A transaction could not be executed.
    Transaction {
        /// The hash of the transaction.
        hash: B256,
        /// What the call returned.
        error: E,
    },
    /// A call that the block cannot do without failed.
    Call(E),
    /// Another failure, in words.
    Message(Seq<char>),
}

impl<E> View for BlockExecutionError<E> {
    type V = BlockExecutionErrorView<E>;

    open spec fn view(&self) -> BlockExecutionErrorView<E> {
        match *self {
            BlockExecutionError::Validation(error) => BlockExecutionErrorView::Validation(error),
            BlockExecutionError::Transaction { hash, error } => {
                BlockExecutionErrorView::Transaction { hash, error }
            },
            BlockExecutionError::Call(error) => BlockExecutionErrorView::Call(error),
            BlockExecutionError::Message(text) => BlockExecutionErrorView::Message(text@),
        }
    }
}

} // verus!
