//! The factory of block executors.

use crate::block::{
    EthBlockExecutionCtx, EthBlockExecutor, EthBlockExecutorView, ReceiptBuilder,
};
use vstd::prelude::*;

verus! {

/// Creates block executors that share a receipt builder and the settings of a chain.
#[derive(Debug, Clone, Default, Copy)]
pub struct EthBlockExecutorFactory<R, Spec, EvmFactory> {
    receipt_builder: R,
    spec: Spec,
    evm_factory: EvmFactory,
}

/// The value of an [`EthBlockExecutorFactory`].
pub struct EthBlockExecutorFactoryView<R, Spec, EvmFactory> {
    /// The receipt builder.
    pub receipt_builder: R,
    /// The settings of the chain.
    pub chain: Spec,
    /// The EVM factory.
    pub evm_factory: EvmFactory,
}

impl<R, Spec, EvmFactory> View for EthBlockExecutorFactory<R, Spec, EvmFactory> {
    type V = EthBlockExecutorFactoryView<R, Spec, EvmFactory>;

    closed spec fn view(&self) -> EthBlockExecutorFactoryView<R, Spec, EvmFactory> {
        EthBlockExecutorFactoryView {
            receipt_builder: self.receipt_builder,
            chain: self.spec,
            evm_factory: self.evm_factory,
        }
    }
}

impl<R, Spec, EvmFactory> EthBlockExecutorFactory<R, Spec, EvmFactory> {
    /// Creates a factory.
    pub fn new(receipt_builder: R, spec: Spec, evm_factory: EvmFactory) -> (factory: Self)
        ensures
            factory@ == (EthBlockExecutorFactoryView { receipt_builder, chain: spec, evm_factory }),
    {
        EthBlockExecutorFactory { receipt_builder, spec, evm_factory }
    }

    /// The receipt builder.
    pub fn receipt_builder(&self) -> (receipt_builder: &R)
        ensures
            *receipt_builder == self@.receipt_builder,
    {
        &self.receipt_builder
    }

    /// The settings of the chain.
    pub fn spec(&self) -> (chain: &Spec)
        ensures
            *chain == self@.chain,
    {
        &self.spec
    }

    /// The EVM factory.
    pub fn evm_factory(&self) -> (evm_factory: &EvmFactory)
        ensures
            *evm_factory == self@.evm_factory,
    {
        &self.evm_factory
    }
}

impl<R: ReceiptBuilder, Spec, EvmFactory> EthBlockExecutorFactory<R, Spec, EvmFactory> {
    /// Creates an executor for a block that borrows the receipt builder and the settings of the
    /// chain.
    pub fn create_executor<'a, Evm>(&'a self, evm: Evm, ctx: EthBlockExecutionCtx<'a>) -> (executor:
        EthBlockExecutor<'a, Evm, &'a Spec, &'a R>)
        ensures
            executor@ == (EthBlockExecutorView::<'a, Evm, &'a Spec, &'a R> {
                chain: &self@.chain,
                ctx,
                evm,
                receipt_builder: &self@.receipt_builder,
                receipts: Seq::empty(),
                gas_used: 0,
            }),
    {
        EthBlockExecutor::new(evm, ctx, &self.spec, &self.receipt_builder)
    }
}

} // verus!
