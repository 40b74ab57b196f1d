//! The pallet's calls.

use crate::amount::least;
use crate::config::{configures, Config, SystemConfig};
use crate::gas::{GasWeightMapping, Weight};
use crate::mapping::AddressMapping;
use crate::order::Key;
use crate::origin::{ensure_signed, signer, without_origin, BadOrigin, EnsureAddressOrigin};
use crate::pallet::{Pallet, PalletView};
use crate::primitives::{H160, H256, U256};
use crate::runner::Runner;
use crate::types::{
    CallInfo, CallRequest, Create2Request, CreateInfo, CreateRequest, DispatchError, Error, Event,
    EvmConfig, ExecutionInfo, Pays, PostDispatchInfo,
};
use vstd::prelude::*;

verus! {

/// Whether an account may be emptied so far that the runtime removes it.
#[derive(Clone, Copy, Debug, PartialEq, Eq, Structural)]
pub enum ExistenceRequirement {
    KeepAlive,
    AllowDeath,
}

/// A transfer between two accounts that the runtime is to make.
#[derive(Debug, PartialEq, Eq)]
pub struct Transfer<AccountId, Balance> {
    pub source: AccountId,
    pub dest: AccountId,
    pub value: Balance,
    pub existence: ExistenceRequirement,
}

/// A call, by what its weight depends on.
#[derive(Clone, Copy, Debug, PartialEq, Eq)]
pub enum CallKind {
    SetEthAddr,
    Withdraw,
    Call { gas_limit: u64 },
    Create { gas_limit: u64 },
    Create2 { gas_limit: u64 },
}

/// The weight that a call announces: nothing for bookkeeping, and the weight of all the gas that
/// it may use for an execution.
pub open spec fn announced_weight<T: Config>(kind: CallKind) -> Weight {
    match kind {
        CallKind::SetEthAddr => 0,
        CallKind::Withdraw => 0,
        CallKind::Call { gas_limit } => T::GasWeightMapping::weight_of(gas_limit),
        CallKind::Create { gas_limit } => T::GasWeightMapping::weight_of(gas_limit),
        CallKind::Create2 { gas_limit } => T::GasWeightMapping::weight_of(gas_limit),
    }
}

/// The transfer that a withdrawal makes, given what came of the origin check: all of `value`, from
/// the account of the address to the account that the check yields.
pub open spec fn withdrawal<T: SystemConfig>(
    check: Result<T::AccountId, BadOrigin>,
    address: H160,
    value: T::Balance,
) -> Result<Transfer<T::AccountId, T::Balance>, DispatchError<T::HostError>> {
    match check {
        Ok(dest) => Ok(
            Transfer {
                source: T::AddressMapping::account_of(address),
                dest,
                value,
                existence: ExistenceRequirement::AllowDeath,
            },
        ),
        Err(_) => Err(DispatchError::BadOrigin),
    }
}

/// Whether an execution may go ahead whose origin was or was not accepted. A pallet that was not
/// built for debugging lets none go ahead.
pub open spec fn permission<T: Config>(accepted: bool) -> Result<(), DispatchError<T::HostError>> {
    if !accepted {
        Err(DispatchError::BadOrigin)
    } else if !T::is_debug_build() {
        Err(DispatchError::Module(Error::Forbidden))
    } else {
        Ok(())
    }
}

/// What an execution's caller is told once the engine is done: the weight of the gas used, and
/// that the caller pays no fee, or the engine's error.
pub open spec fn execution_result<T: Config, R>(
    outcome: Result<ExecutionInfo<R>, T::HostError>,
) -> Result<PostDispatchInfo, DispatchError<T::HostError>> {
    match outcome {
        Ok(info) => Ok(
            PostDispatchInfo {
                actual_weight: Some(
                    T::GasWeightMapping::weight_of(
                        least(info.used_gas@, u64::MAX as nat) as u64,
                    ),
                ),
                pays_fee: Pays::No,
            },
        ),
        Err(e) => Err(DispatchError::Runtime(e)),
    }
}

/// What the pallet holds once the outcome of a message call is reported.
pub open spec fn after_call<AccountId, E>(
    before: PalletView<AccountId>,
    target: H160,
    outcome: Result<CallInfo, E>,
) -> PalletView<AccountId> {
    match outcome {
        Ok(info) => if info.exit_reason.succeeded() {
            before.with_event(Event::Executed(target))
        } else {
            before.with_event(Event::ExecutedFailed(target))
        },
        Err(_) => before,
    }
}

/// What the pallet holds once the outcome of a contract creation is reported.
pub open spec fn after_create<AccountId, E>(
    before: PalletView<AccountId>,
    outcome: Result<CreateInfo, E>,
) -> PalletView<AccountId> {
    match outcome {
        Ok(info) => if info.exit_reason.succeeded() {
            before.with_event(Event::Created(info.value))
        } else {
            before.with_event(Event::CreatedFailed(info.value))
        },
        Err(_) => before,
    }
}

/// How a message call may go whose origin was or was not accepted. Where the call is permitted,
/// what comes of it is what came of handing `request` to the engine. Where it is not, the pallet
/// stays as it is.
pub open spec fn may_call<T: Config>(
    accepted: bool,
    before: Pallet<T>,
    request: CallRequest,
    after: Pallet<T>,
    result: Result<PostDispatchInfo, DispatchError<T::HostError>>,
) -> bool {
    match permission::<T>(accepted) {
        Err(e) => after == before && result == Err::<PostDispatchInfo, _>(e),
        Ok(_) => exists|config: EvmConfig, ran: Pallet<T>, outcome: Result<CallInfo, T::HostError>|
            {
                &&& configures::<T>(config)
                &&& #[trigger] T::Runner::may_call(before, request, config, ran, outcome)
                &&& after@ == after_call(ran@, request.target, outcome)
                &&& result == execution_result::<T, Vec<u8>>(outcome)
            },
    }
}

/// How a contract creation may go whose origin was or was not accepted. Where the
/// creation is permitted, what comes of it is what came of handing `request` to the engine. Where
/// it is not, the pallet stays as it is.
pub open spec fn may_create<T: Config>(
    accepted: bool,
    before: Pallet<T>,
    request: CreateRequest,
    after: Pallet<T>,
    result: Result<PostDispatchInfo, DispatchError<T::HostError>>,
) -> bool {
    match permission::<T>(accepted) {
        Err(e) => after == before && result == Err::<PostDispatchInfo, _>(e),
        Ok(_) => exists|config: EvmConfig, ran: Pallet<T>, outcome: Result<CreateInfo, T::HostError>|
            {
                &&& configures::<T>(config)
                &&& #[trigger] T::Runner::may_create(before, request, config, ran, outcome)
                &&& after@ == after_create(ran@, outcome)
                &&& result == execution_result::<T, H160>(outcome)
            },
    }
}

/// How a contract creation with a salt may go whose origin was or was not accepted. Where the
/// creation is permitted, what comes of it is what came of handing `request` to the engine. Where
/// it is not, the pallet stays as it is.
pub open spec fn may_create2<T: Config>(
    accepted: bool,
    before: Pallet<T>,
    request: Create2Request,
    after: Pallet<T>,
    result: Result<PostDispatchInfo, DispatchError<T::HostError>>,
) -> bool {
    match permission::<T>(accepted) {
        Err(e) => after == before && result == Err::<PostDispatchInfo, _>(e),
        Ok(_) => exists|config: EvmConfig, ran: Pallet<T>, outcome: Result<CreateInfo, T::HostError>|
            {
                &&& configures::<T>(config)
                &&& #[trigger] T::Runner::may_create2(before, request, config, ran, outcome)
                &&& after@ == after_create(ran@, outcome)
                &&& result == execution_result::<T, H160>(outcome)
            },
    }
}

impl<T: SystemConfig> Pallet<T> {
    /// Records the address to which the sender's block rewards go.
    pub fn set_eth_addr(&mut self, origin: T::Origin, eth_addr: H160) -> (r: Result<
        PostDispatchInfo,
        DispatchError<T::HostError>,
    >)
        ensures
            match signer::<T::Origin, T::AccountId>(origin) {
                Some(who) => {
                    &&& final(self)@ == old(self)@.with_event(
                        Event::EthAddrSet((who, eth_addr)),
                    ).with_eth_addr(who, eth_addr)
                    &&& r == Ok::<PostDispatchInfo, DispatchError<T::HostError>>(
                        PostDispatchInfo { actual_weight: None, pays_fee: Pays::Yes },
                    )
                },
                None => {
                    &&& *final(self) == *old(self)
                    &&& r == Err::<PostDispatchInfo, _>(DispatchError::<T::HostError>::BadOrigin)
                },
            },
    {
        let sender = match ensure_signed::<T::Origin, T::AccountId>(origin) {
            Ok(sender) => sender,
            Err(_) => {
                return Err(DispatchError::BadOrigin);
            },
        };
        self.deposit_event(Event::EthAddrSet((sender.duplicate(), eth_addr)));
        self.put_eth_addr(sender, eth_addr);
        Ok(PostDispatchInfo { actual_weight: None, pays_fee: Pays::Yes })
    }
}

impl<T: Config> Pallet<T> {
    /// The weight that a call announces.
    pub fn dispatch_weight(kind: CallKind) -> (weight: Weight)
        ensures
            weight == announced_weight::<T>(kind),
    {
        match kind {
            CallKind::SetEthAddr => 0,
            CallKind::Withdraw => 0,
            CallKind::Call { gas_limit } => T::GasWeightMapping::gas_to_weight(gas_limit),
            CallKind::Create { gas_limit } => T::GasWeightMapping::gas_to_weight(gas_limit),
            CallKind::Create2 { gas_limit } => T::GasWeightMapping::gas_to_weight(gas_limit),
        }
    }

    /// Withdraws from the account of an address: gives the transfer to the account of the sender
    /// that the runtime is to make.
    pub fn withdraw(origin: T::Origin, address: H160, value: T::Balance) -> (r: Result<
        Transfer<T::AccountId, T::Balance>,
        DispatchError<T::HostError>,
    >)
        ensures
            exists|answer: Result<T::AccountId, T::Origin>| #[trigger]
                T::WithdrawOrigin::may_answer(address, origin, answer) && r == withdrawal::<T>(
                    without_origin(answer),
                    address,
                    value,
                ),
    {
        Self::withdraw_checked(
            T::WithdrawOrigin::ensure_address_origin(&address, origin),
            address,
            value,
        )
    }

    /// The transfer that a withdrawal makes, given what came of the origin check.
    pub fn withdraw_checked(
        check: Result<T::AccountId, BadOrigin>,
        address: H160,
        value: T::Balance,
    ) -> (r: Result<Transfer<T::AccountId, T::Balance>, DispatchError<T::HostError>>)
        ensures
            r == withdrawal::<T>(check, address, value),
    {
        let dest = match check {
            Ok(dest) => dest,
            Err(_) => {
                return Err(DispatchError::BadOrigin);
            },
        };
        let source = T::AddressMapping::into_account_id(address);
        Ok(Transfer { source, dest, value, existence: ExistenceRequirement::AllowDeath })
    }

    /// What a withdrawal comes to, given what became of its transfer.
    pub fn withdraw_settled(reply: Result<(), T::HostError>) -> (r: Result<
        (),
        DispatchError<T::HostError>,
    >)
        ensures
            r == (match reply {
                Ok(_) => Ok(()),
                Err(e) => Err(DispatchError::Runtime(e)),
            }),
    {
        match reply {
            Ok(_) => Ok(()),
            Err(e) => Err(DispatchError::Runtime(e)),
        }
    }

    /// Decides whether an execution goes ahead, given what came of the origin check.
    pub fn permit<S>(check: Result<S, BadOrigin>) -> (r: Result<(), DispatchError<T::HostError>>)
        ensures
            r == permission::<T>(check is Ok),
    {
        match check {
            Ok(_) => if T::debug_build() {
                Ok(())
            } else {
                Err(DispatchError::Module(Error::Forbidden))
            },
            Err(_) => Err(DispatchError::BadOrigin),
        }
    }

    /// The weight of the gas that an execution used.
    fn executed(used_gas: U256) -> (r: PostDispatchInfo)
        ensures
            r.actual_weight == Some(
                T::GasWeightMapping::weight_of(least(used_gas@, u64::MAX as nat) as u64),
            ),
            r.pays_fee == Pays::No,
    {
        let gas = used_gas.saturated_into_u64();
        PostDispatchInfo {
            actual_weight: Some(T::GasWeightMapping::gas_to_weight(gas)),
            pays_fee: Pays::No,
        }
    }

    /// Reports the outcome of a message call.
    pub fn call_executed(
        &mut self,
        target: H160,
        outcome: Result<CallInfo, T::HostError>,
    ) -> (r: Result<PostDispatchInfo, DispatchError<T::HostError>>)
        ensures
            final(self)@ == after_call(old(self)@, target, outcome),
            r == execution_result::<T, Vec<u8>>(outcome),
    {
        let info = match outcome {
            Ok(info) => info,
            Err(e) => {
                return Err(DispatchError::Runtime(e));
            },
        };
        if info.exit_reason.is_succeed() {
            self.deposit_event(Event::Executed(target));
        } else {
            self.deposit_event(Event::ExecutedFailed(target));
        }
        Ok(Self::executed(info.used_gas))
    }

    /// Reports the outcome of a contract creation.
    pub fn create_executed(&mut self, outcome: Result<CreateInfo, T::HostError>) -> (r: Result<
        PostDispatchInfo,
        DispatchError<T::HostError>,
    >)
        ensures
            final(self)@ == after_create(old(self)@, outcome),
            r == execution_result::<T, H160>(outcome),
    {
        let info = match outcome {
            Ok(info) => info,
            Err(e) => {
                return Err(DispatchError::Runtime(e));
            },
        };
        if info.exit_reason.is_succeed() {
            self.deposit_event(Event::Created(info.value));
        } else {
            self.deposit_event(Event::CreatedFailed(info.value));
        }
        Ok(Self::executed(info.used_gas))
    }

    /// Issues a message call, similar to a message call transaction in Ethereum.
    pub fn call(
        &mut self,
        origin: T::Origin,
        source: H160,
        target: H160,
        input: Vec<u8>,
        value: U256,
        gas_limit: u64,
        gas_price: U256,
        nonce: Option<U256>,
    ) -> (r: Result<PostDispatchInfo, DispatchError<T::HostError>>)
        ensures
            exists|answer: Result<<T::CallOrigin as EnsureAddressOrigin<T::Origin>>::Success, T::Origin>|
                {
                    &&& #[trigger] T::CallOrigin::may_answer(source, origin, answer)
                    &&& may_call::<T>(
                        answer is Ok,
                        *old(self),
                        CallRequest {
                            source,
                            target,
                            input,
                            value,
                            gas_limit,
                            gas_price: Some(gas_price),
                            nonce,
                        },
                        *final(self),
                        r,
                    )
                },
    {
        Self::permit(T::CallOrigin::ensure_address_origin(&source, origin))?;
        let request = CallRequest {
            source,
            target,
            input,
            value,
            gas_limit,
            gas_price: Some(gas_price),
            nonce,
        };
        let outcome = T::Runner::call(self, request, T::config());
        self.call_executed(target, outcome)
    }

    /// Issues a contract creation, similar to a contract creation transaction in Ethereum.
    pub fn create(
        &mut self,
        origin: T::Origin,
        source: H160,
        init: Vec<u8>,
        value: U256,
        gas_limit: u64,
        gas_price: U256,
        nonce: Option<U256>,
    ) -> (r: Result<PostDispatchInfo, DispatchError<T::HostError>>)
        ensures
            exists|answer: Result<<T::CallOrigin as EnsureAddressOrigin<T::Origin>>::Success, T::Origin>|
                {
                    &&& #[trigger] T::CallOrigin::may_answer(source, origin, answer)
                    &&& may_create::<T>(
                        answer is Ok,
                        *old(self),
                        CreateRequest {
                            source,
                            init,
                            value,
                            gas_limit,
                            gas_price: Some(gas_price),
                            nonce,
                        },
                        *final(self),
                        r,
                    )
                },
    {
        Self::permit(T::CallOrigin::ensure_address_origin(&source, origin))?;
        let request = CreateRequest {
            source,
            init,
            value,
            gas_limit,
            gas_price: Some(gas_price),
            nonce,
        };
        let outcome = T::Runner::create(self, request, T::config());
        self.create_executed(outcome)
    }

    /// Issues a contract creation at an address that depends on a salt.
    pub fn create2(
        &mut self,
        origin: T::Origin,
        source: H160,
        init: Vec<u8>,
        salt: H256,
        value: U256,
        gas_limit: u64,
        gas_price: U256,
        nonce: Option<U256>,
    ) -> (r: Result<PostDispatchInfo, DispatchError<T::HostError>>)
        ensures
            exists|answer: Result<<T::CallOrigin as EnsureAddressOrigin<T::Origin>>::Success, T::Origin>|
                {
                    &&& #[trigger] T::CallOrigin::may_answer(source, origin, answer)
                    &&& may_create2::<T>(
                        answer is Ok,
                        *old(self),
                        Create2Request {
                            source,
                            init,
                            salt,
                            value,
                            gas_limit,
                            gas_price: Some(gas_price),
                            nonce,
                        },
                        *final(self),
                        r,
                    )
                },
    {
        Self::permit(T::CallOrigin::ensure_address_origin(&source, origin))?;
        let request = Create2Request {
            source,
            init,
            salt,
            value,
            gas_limit,
            gas_price: Some(gas_price),
            nonce,
        };
        let outcome = T::Runner::create2(self, request, T::config());
        self.create_executed(outcome)
    }
}

} // verus!
