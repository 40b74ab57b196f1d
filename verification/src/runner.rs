//! The execution engine.

use crate::config::SystemConfig;
use crate::pallet::Pallet;
use crate::primitives::{H160, U256};
use crate::types::{CallInfo, CallRequest, Create2Request, CreateInfo, CreateRequest, EvmConfig};
use vstd::prelude::*;

verus! {

/// An engine that runs calls and creations. It may change the pallet's storage as it runs, and
/// what an execution may leave behind is anything unless the engine says more.
pub trait Runner<T: SystemConfig> {
    /// What a message call may leave behind.
    open spec fn may_call(
        before: Pallet<T>,
        request: CallRequest,
        config: EvmConfig,
        after: Pallet<T>,
        outcome: Result<CallInfo, T::HostError>,
    ) -> bool {
        true
    }

    /// What a contract creation may leave behind.
    open spec fn may_create(
        before: Pallet<T>,
        request: CreateRequest,
        config: EvmConfig,
        after: Pallet<T>,
        outcome: Result<CreateInfo, T::HostError>,
    ) -> bool {
        true
    }

    /// What a contract creation with a salt may leave behind.
    open spec fn may_create2(
        before: Pallet<T>,
        request: Create2Request,
        config: EvmConfig,
        after: Pallet<T>,
        outcome: Result<CreateInfo, T::HostError>,
    ) -> bool {
        true
    }

    /// What a payment out of nothing may leave behind.
    open spec fn may_mint(
        before: Pallet<T>,
        address: H160,
        value: U256,
        config: EvmConfig,
        after: Pallet<T>,
        outcome: Result<(), T::HostError>,
    ) -> bool {
        true
    }

    /// Runs a message call.
    fn call(
        pallet: &mut Pallet<T>,
        request: CallRequest,
        config: EvmConfig,
    ) -> (outcome: Result<CallInfo, T::HostError>)
        ensures
            Self::may_call(*old(pallet), request, config, *final(pallet), outcome),
    ;

    /// Creates a contract.
    fn create(
        pallet: &mut Pallet<T>,
        request: CreateRequest,
        config: EvmConfig,
    ) -> (outcome: Result<CreateInfo, T::HostError>)
        ensures
            Self::may_create(*old(pallet), request, config, *final(pallet), outcome),
    ;

    /// Creates a contract at an address that depends on the salt.
    fn create2(
        pallet: &mut Pallet<T>,
        request: Create2Request,
        config: EvmConfig,
    ) -> (outcome: Result<CreateInfo, T::HostError>)
        ensures
            Self::may_create2(*old(pallet), request, config, *final(pallet), outcome),
    ;

    /// Pays out of nothing.
    fn mint(
        pallet: &mut Pallet<T>,
        address: H160,
        value: U256,
        config: EvmConfig,
    ) -> (outcome: Result<(), T::HostError>)
        ensures
            Self::may_mint(*old(pallet), address, value, config, *final(pallet), outcome),
    ;
}

} // verus!
