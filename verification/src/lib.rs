//! The rules of Ethereum block execution, verified.
//!
//! A block executor runs the transactions of a block in an EVM, charges them, and finishes the
//! block with system calls, execution layer requests and balance increments. The EVM and its state
//! belong to the caller. This library holds the decisions: which changes precede the transactions
//! ([`block`]), whether a transaction fits into the block and what it is charged ([`block`]), and
//! which calls finish the block, with which arguments, in which order, and what becomes of their
//! results ([`finish`]).
//!
//! What the operations come to is stated apart from them: operation by operation ([`rules`],
//! [`finish_rules`]) and for whole blocks ([`laws`]).

pub mod balances;
pub mod block;
pub mod error;
pub mod factory;
pub mod finish;
pub mod finish_rules;
pub mod hardforks;
pub mod laws;
pub mod primitives;
pub mod requests;
pub mod rules;
pub mod spec;
pub mod system_calls;
pub mod withdrawals;
