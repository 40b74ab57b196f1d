//! The pallet's calls and the block rewards.

use crate::config::{Config, SystemConfig};
use crate::dispatch::{CallKind, ExistenceRequirement, Transfer};
use crate::gas::{GasWeightMapping, Weight};
use crate::mapping::AddressMapping;
use crate::origin::{BadOrigin, EnsureAddressOrigin, OuterOrigin, RawOrigin};
use crate::pallet::{Pallet, PalletView};
use crate::primitives::{H160, H256, U256};
use crate::rewards::BLOCK_REWARD;
use crate::runner::Runner;
use crate::types::{
    CallInfo, CallRequest, Create2Request, CreateInfo, CreateRequest, DispatchError,
    EVMCStatusCode, Error, Event, EvmConfig, ExitReason, ExtendExitReason, Pays, PostDispatchInfo,
};
use vstd::prelude::*;

verus! {

/// `event` is all that was added to what was reported, and it comes last. Nothing else differs.
pub open spec fn adds_only<AccountId>(
    before: PalletView<AccountId>,
    after: PalletView<AccountId>,
    event: Event<AccountId>,
) -> bool {
    &&& after.events.len() == before.events.len() + 1
    &&& after.events.last() == event
    &&& forall|i: int| 0 <= i < before.events.len() ==> after.events[i] == before.events[i]
    &&& after.eth_addrs == before.eth_addrs
    &&& after.codes == before.codes
    &&& after.storages == before.storages
}

/// `post` gives the weight of all the gas that was used, as far as 64 bits hold it, and says that
/// no fee is paid.
pub open spec fn weighs<T: Config>(post: PostDispatchInfo, used_gas: U256) -> bool {
    &&& post.pays_fee == Pays::No
    &&& exists|gas: u64|
        {
            &&& used_gas@ <= 0xffff_ffff_ffff_ffff ==> gas == used_gas@
            &&& used_gas@ > 0xffff_ffff_ffff_ffff ==> gas == 0xffff_ffff_ffff_ffff
            &&& post.actual_weight == Some(#[trigger] T::GasWeightMapping::weight_of(gas))
        }
}

/// A message call that ended is reported as executed exactly where either engine says that it
/// succeeded. The caller is told the weight of the gas, or the engine's error.
pub open spec fn call_is_told<T: Config>(
    before: PalletView<T::AccountId>,
    target: H160,
    outcome: Result<CallInfo, T::HostError>,
    after: PalletView<T::AccountId>,
    result: Result<PostDispatchInfo, DispatchError<T::HostError>>,
) -> bool {
    match outcome {
        Err(e) => after == before && result == Err::<PostDispatchInfo, _>(
            DispatchError::Runtime(e),
        ),
        Ok(info) => {
            &&& result matches Ok(post) && weighs::<T>(post, info.used_gas)
            &&& match info.exit_reason {
                ExtendExitReason::ExitReason(ExitReason::Succeed(_)) => adds_only(
                    before,
                    after,
                    Event::Executed(target),
                ),
                ExtendExitReason::EVMCStatusCode(EVMCStatusCode::EvmcSuccess) => adds_only(
                    before,
                    after,
                    Event::Executed(target),
                ),
                ExtendExitReason::ExitReason(ExitReason::Error) => adds_only(
                    before,
                    after,
                    Event::ExecutedFailed(target),
                ),
                ExtendExitReason::ExitReason(ExitReason::Revert) => adds_only(
                    before,
                    after,
                    Event::ExecutedFailed(target),
                ),
                ExtendExitReason::ExitReason(ExitReason::Fatal) => adds_only(
                    before,
                    after,
                    Event::ExecutedFailed(target),
                ),
                ExtendExitReason::EVMCStatusCode(EVMCStatusCode::EvmcOther(_)) => adds_only(
                    before,
                    after,
                    Event::ExecutedFailed(target),
                ),
            }
        },
    }
}

/// A creation that ended is reported, with the address that the engine gives, as made exactly where
/// either engine says that it succeeded. The caller is told the weight of the gas, or the engine's
/// error.
pub open spec fn creation_is_told<T: Config>(
    before: PalletView<T::AccountId>,
    outcome: Result<CreateInfo, T::HostError>,
    after: PalletView<T::AccountId>,
    result: Result<PostDispatchInfo, DispatchError<T::HostError>>,
) -> bool {
    match outcome {
        Err(e) => after == before && result == Err::<PostDispatchInfo, _>(
            DispatchError::Runtime(e),
        ),
        Ok(info) => {
            &&& result matches Ok(post) && weighs::<T>(post, info.used_gas)
            &&& match info.exit_reason {
                ExtendExitReason::ExitReason(ExitReason::Succeed(_)) => adds_only(
                    before,
                    after,
                    Event::Created(info.value),
                ),
                ExtendExitReason::EVMCStatusCode(EVMCStatusCode::EvmcSuccess) => adds_only(
                    before,
                    after,
                    Event::Created(info.value),
                ),
                ExtendExitReason::ExitReason(ExitReason::Error) => adds_only(
                    before,
                    after,
                    Event::CreatedFailed(info.value),
                ),
                ExtendExitReason::ExitReason(ExitReason::Revert) => adds_only(
                    before,
                    after,
                    Event::CreatedFailed(info.value),
                ),
                ExtendExitReason::ExitReason(ExitReason::Fatal) => adds_only(
                    before,
                    after,
                    Event::CreatedFailed(info.value),
                ),
                ExtendExitReason::EVMCStatusCode(EVMCStatusCode::EvmcOther(_)) => adds_only(
                    before,
                    after,
                    Event::CreatedFailed(info.value),
                ),
            }
        },
    }
}

/// An account that signs may name an address for its rewards: that is reported, the address is read
/// back for the account, and for no other account does what is read change. Any other origin is
/// bad, and nothing changes.
pub proof fn law_naming_an_address<T: SystemConfig>(
    pallet: &mut Pallet<T>,
    origin: T::Origin,
    address: H160,
    result: Result<PostDispatchInfo, DispatchError<T::HostError>>,
    other: T::AccountId,
    before: Option<H160>,
    after: Option<H160>,
)
    requires
        call_ensures(Pallet::<T>::set_eth_addr, (pallet, origin, address), result),
        call_ensures(Pallet::<T>::eth_addr, (&*old(pallet), &other), before),
        call_ensures(Pallet::<T>::eth_addr, (&*final(pallet), &other), after),
    ensures
        match origin.as_raw() {
            Ok(RawOrigin::Signed(who)) => {
                &&& result matches Ok(post) && post.actual_weight is None && post.pays_fee
                    == Pays::Yes
                &&& other == who ==> after == Some(address)
                &&& other != who ==> after == before
                &&& final(pallet)@.events == old(pallet)@.events.push(
                    Event::EthAddrSet((who, address)),
                )
                &&& final(pallet)@.codes == old(pallet)@.codes
                &&& final(pallet)@.storages == old(pallet)@.storages
            },
            _ => {
                &&& result == Err::<PostDispatchInfo, _>(DispatchError::<T::HostError>::BadOrigin)
                &&& *final(pallet) == *old(pallet)
            },
        },
{
}

/// Bookkeeping announces no weight, and an execution the weight of all the gas it may use.
pub proof fn law_announced_weights<T: Config>(kind: CallKind, weight: Weight)
    requires
        call_ensures(Pallet::<T>::dispatch_weight, (kind,), weight),
    ensures
        match kind {
            CallKind::SetEthAddr => weight == 0,
            CallKind::Withdraw => weight == 0,
            CallKind::Call { gas_limit } => weight == T::GasWeightMapping::weight_of(gas_limit),
            CallKind::Create { gas_limit } => weight == T::GasWeightMapping::weight_of(gas_limit),
            CallKind::Create2 { gas_limit } => weight == T::GasWeightMapping::weight_of(gas_limit),
        },
{
}

/// A withdrawal moves exactly the value asked for from the account of the address to the account
/// that the origin rule yields, even if that empties the first. Where the rule refuses, nothing is
/// moved.
pub proof fn law_withdrawals<T: Config>(
    origin: T::Origin,
    address: H160,
    value: T::Balance,
    result: Result<Transfer<T::AccountId, T::Balance>, DispatchError<T::HostError>>,
)
    requires
        call_ensures(Pallet::<T>::withdraw, (origin, address, value), result),
    ensures
        exists|answer: Result<T::AccountId, T::Origin>| #[trigger]
            T::WithdrawOrigin::may_answer(address, origin, answer) && match answer {
                Ok(dest) => result matches Ok(transfer) && {
                    &&& transfer.value == value
                    &&& transfer.source == T::AddressMapping::account_of(address)
                    &&& transfer.dest == dest
                    &&& transfer.existence == ExistenceRequirement::AllowDeath
                },
                Err(_) => result == Err::<Transfer<T::AccountId, T::Balance>, _>(
                    DispatchError::<T::HostError>::BadOrigin,
                ),
            },
{
    let answer = choose|answer: Result<T::AccountId, T::Origin>| #[trigger]
        T::WithdrawOrigin::may_answer(address, origin, answer) && result
            == crate::dispatch::withdrawal::<T>(
            crate::origin::without_origin(answer),
            address,
            value,
        );
    assert(T::WithdrawOrigin::may_answer(address, origin, answer));
}

/// A withdrawal whose origin was accepted with an account moves exactly the value asked for from
/// the account of the address to that account, even if that empties the first. One whose origin was
/// not accepted moves nothing. What the runtime says of the transfer is passed on.
pub proof fn law_checked_withdrawals<T: Config>(
    check: Result<T::AccountId, BadOrigin>,
    address: H160,
    value: T::Balance,
    result: Result<Transfer<T::AccountId, T::Balance>, DispatchError<T::HostError>>,
    reply: Result<(), T::HostError>,
    settled: Result<(), DispatchError<T::HostError>>,
)
    requires
        call_ensures(Pallet::<T>::withdraw_checked, (check, address, value), result),
        call_ensures(Pallet::<T>::withdraw_settled, (reply,), settled),
    ensures
        match check {
            Ok(dest) => result matches Ok(transfer) && {
                &&& transfer.value == value
                &&& transfer.source == T::AddressMapping::account_of(address)
                &&& transfer.dest == dest
                &&& transfer.existence == ExistenceRequirement::AllowDeath
            },
            Err(_) => result == Err::<Transfer<T::AccountId, T::Balance>, _>(
                DispatchError::<T::HostError>::BadOrigin,
            ),
        },
        reply is Ok <==> settled is Ok,
        reply matches Err(e) ==> settled == Err::<(), _>(DispatchError::Runtime(e)),
{
}

/// An execution goes ahead exactly where its origin was accepted and the pallet was built for
/// debugging. One that was accepted without that is forbidden, and one that was not has a bad
/// origin.
pub proof fn law_permission<T: Config, S>(
    check: Result<S, BadOrigin>,
    result: Result<(), DispatchError<T::HostError>>,
)
    requires
        call_ensures(Pallet::<T>::permit::<S>, (check,), result),
    ensures
        check is Ok && T::is_debug_build() ==> result is Ok,
        check is Ok && !T::is_debug_build() ==> result == Err::<(), _>(
            DispatchError::<T::HostError>::Module(Error::Forbidden),
        ),
        check is Err ==> result == Err::<(), _>(DispatchError::<T::HostError>::BadOrigin),
{
}

/// A pallet knows whether it was built for debugging.
pub proof fn law_builds<T: Config>(debug: bool)
    requires
        call_ensures(T::debug_build, (), debug),
    ensures
        debug <==> T::is_debug_build(),
{
}

/// How the end of a message call is told.
pub proof fn law_call_is_told<T: Config>(
    pallet: &mut Pallet<T>,
    target: H160,
    outcome: Result<CallInfo, T::HostError>,
    result: Result<PostDispatchInfo, DispatchError<T::HostError>>,
)
    requires
        call_ensures(Pallet::<T>::call_executed, (pallet, target, outcome), result),
    ensures
        call_is_told::<T>(old(pallet)@, target, outcome, final(pallet)@, result),
{
}

/// How the end of a creation is told.
pub proof fn law_creation_is_told<T: Config>(
    pallet: &mut Pallet<T>,
    outcome: Result<CreateInfo, T::HostError>,
    result: Result<PostDispatchInfo, DispatchError<T::HostError>>,
)
    requires
        call_ensures(Pallet::<T>::create_executed, (pallet, outcome), result),
    ensures
        creation_is_told::<T>(old(pallet)@, outcome, final(pallet)@, result),
{
}

/// A message call whose origin the rule refuses, or that comes to a pallet not built for debugging,
/// changes nothing. Any other hands all that it was given to the engine, with the runtime's gas
/// schedule, and tells how that ended.
pub proof fn law_message_calls<T: Config>(
    pallet: &mut Pallet<T>,
    origin: T::Origin,
    source: H160,
    target: H160,
    input: Vec<u8>,
    value: U256,
    gas_limit: u64,
    gas_price: U256,
    nonce: Option<U256>,
    result: Result<PostDispatchInfo, DispatchError<T::HostError>>,
)
    requires
        call_ensures(
            Pallet::<T>::call,
            (pallet, origin, source, target, input, value, gas_limit, gas_price, nonce),
            result,
        ),
    ensures
        exists|answer: Result<<T::CallOrigin as EnsureAddressOrigin<T::Origin>>::Success, T::Origin>|
            #[trigger] T::CallOrigin::may_answer(source, origin, answer) && if answer is Err {
                *final(pallet) == *old(pallet) && result == Err::<PostDispatchInfo, _>(
                    DispatchError::<T::HostError>::BadOrigin,
                )
            } else if !T::is_debug_build() {
                *final(pallet) == *old(pallet) && result == Err::<PostDispatchInfo, _>(
                    DispatchError::<T::HostError>::Module(Error::Forbidden),
                )
            } else {
                exists|
                    config: EvmConfig,
                    request: CallRequest,
                    ran: Pallet<T>,
                    outcome: Result<CallInfo, T::HostError>,
                |
                    {
                        &&& call_ensures(T::config, (), config)
                        &&& request.source == source
                        &&& request.target == target
                        &&& request.input == input
                        &&& request.value == value
                        &&& request.gas_limit == gas_limit
                        &&& request.gas_price == Some(gas_price)
                        &&& request.nonce == nonce
                        &&& #[trigger] T::Runner::may_call(
                            *old(pallet),
                            request,
                            config,
                            ran,
                            outcome,
                        )
                        &&& call_is_told::<T>(ran@, target, outcome, final(pallet)@, result)
                    }
            },
{
    let request = CallRequest {
        source,
        target,
        input,
        value,
        gas_limit,
        gas_price: Some(gas_price),
        nonce,
    };
    let answer = choose|
        answer: Result<<T::CallOrigin as EnsureAddressOrigin<T::Origin>>::Success, T::Origin>,
    |
        {
            &&& #[trigger] T::CallOrigin::may_answer(source, origin, answer)
            &&& crate::dispatch::may_call::<T>(
                answer is Ok,
                *old(pallet),
                request,
                *final(pallet),
                result,
            )
        };
    assert(T::CallOrigin::may_answer(source, origin, answer));
}

/// A creation whose origin the rule refuses, or that comes to a pallet not built for debugging,
/// changes nothing. Any other hands all that it was given to the engine, with the runtime's gas
/// schedule, and tells how that ended.
pub proof fn law_creations<T: Config>(
    pallet: &mut Pallet<T>,
    origin: T::Origin,
    source: H160,
    init: Vec<u8>,
    value: U256,
    gas_limit: u64,
    gas_price: U256,
    nonce: Option<U256>,
    result: Result<PostDispatchInfo, DispatchError<T::HostError>>,
)
    requires
        call_ensures(
            Pallet::<T>::create,
            (pallet, origin, source, init, value, gas_limit, gas_price, nonce),
            result,
        ),
    ensures
        exists|answer: Result<<T::CallOrigin as EnsureAddressOrigin<T::Origin>>::Success, T::Origin>|
            #[trigger] T::CallOrigin::may_answer(source, origin, answer) && if answer is Err {
                *final(pallet) == *old(pallet) && result == Err::<PostDispatchInfo, _>(
                    DispatchError::<T::HostError>::BadOrigin,
                )
            } else if !T::is_debug_build() {
                *final(pallet) == *old(pallet) && result == Err::<PostDispatchInfo, _>(
                    DispatchError::<T::HostError>::Module(Error::Forbidden),
                )
            } else {
                exists|
                    config: EvmConfig,
                    request: CreateRequest,
                    ran: Pallet<T>,
                    outcome: Result<CreateInfo, T::HostError>,
                |
                    {
                        &&& call_ensures(T::config, (), config)
                        &&& request.source == source
                        &&& request.init == init
                        &&& request.value == value
                        &&& request.gas_limit == gas_limit
                        &&& request.gas_price == Some(gas_price)
                        &&& request.nonce == nonce
                        &&& #[trigger] T::Runner::may_create(
                            *old(pallet),
                            request,
                            config,
                            ran,
                            outcome,
                        )
                        &&& creation_is_told::<T>(ran@, outcome, final(pallet)@, result)
                    }
            },
{
    let request = CreateRequest {
        source,
        init,
        value,
        gas_limit,
        gas_price: Some(gas_price),
        nonce,
    };
    let answer = choose|
        answer: Result<<T::CallOrigin as EnsureAddressOrigin<T::Origin>>::Success, T::Origin>,
    |
        {
            &&& #[trigger] T::CallOrigin::may_answer(source, origin, answer)
            &&& crate::dispatch::may_create::<T>(
                answer is Ok,
                *old(pallet),
                request,
                *final(pallet),
                result,
            )
        };
    assert(T::CallOrigin::may_answer(source, origin, answer));
}

/// A creation with a salt whose origin the rule refuses, or that comes to a pallet not built for
/// debugging, changes nothing. Any other hands all that it was given to the engine, the salt
/// included, with the runtime's gas schedule, and tells how that ended.
pub proof fn law_salted_creations<T: Config>(
    pallet: &mut Pallet<T>,
    origin: T::Origin,
    source: H160,
    init: Vec<u8>,
    salt: H256,
    value: U256,
    gas_limit: u64,
    gas_price: U256,
    nonce: Option<U256>,
    result: Result<PostDispatchInfo, DispatchError<T::HostError>>,
)
    requires
        call_ensures(
            Pallet::<T>::create2,
            (pallet, origin, source, init, salt, value, gas_limit, gas_price, nonce),
            result,
        ),
    ensures
        exists|answer: Result<<T::CallOrigin as EnsureAddressOrigin<T::Origin>>::Success, T::Origin>|
            #[trigger] T::CallOrigin::may_answer(source, origin, answer) && if answer is Err {
                *final(pallet) == *old(pallet) && result == Err::<PostDispatchInfo, _>(
                    DispatchError::<T::HostError>::BadOrigin,
                )
            } else if !T::is_debug_build() {
                *final(pallet) == *old(pallet) && result == Err::<PostDispatchInfo, _>(
                    DispatchError::<T::HostError>::Module(Error::Forbidden),
                )
            } else {
                exists|
                    config: EvmConfig,
                    request: Create2Request,
                    ran: Pallet<T>,
                    outcome: Result<CreateInfo, T::HostError>,
                |
                    {
                        &&& call_ensures(T::config, (), config)
                        &&& request.source == source
                        &&& request.init == init
                        &&& request.salt == salt
                        &&& request.value == value
                        &&& request.gas_limit == gas_limit
                        &&& request.gas_price == Some(gas_price)
                        &&& request.nonce == nonce
                        &&& #[trigger] T::Runner::may_create2(
                            *old(pallet),
                            request,
                            config,
                            ran,
                            outcome,
                        )
                        &&& creation_is_told::<T>(ran@, outcome, final(pallet)@, result)
                    }
            },
{
    let request = Create2Request {
        source,
        init,
        salt,
        value,
        gas_limit,
        gas_price: Some(gas_price),
        nonce,
    };
    let answer = choose|
        answer: Result<<T::CallOrigin as EnsureAddressOrigin<T::Origin>>::Success, T::Origin>,
    |
        {
            &&& #[trigger] T::CallOrigin::may_answer(source, origin, answer)
            &&& crate::dispatch::may_create2::<T>(
                answer is Ok,
                *old(pallet),
                request,
                *final(pallet),
                result,
            )
        };
    assert(T::CallOrigin::may_answer(source, origin, answer));
}

/// A reward asks the engine to pay 10 to the power of 18 to the address, with the runtime's gas
/// schedule. That the payment failed is reported, and that it succeeded is not.
pub proof fn law_rewards<T: Config>(pallet: &mut Pallet<T>, address: H160)
    requires
        call_ensures(Pallet::<T>::reward, (pallet, address), ()),
    ensures
        BLOCK_REWARD == 1_000_000_000_000_000_000,
        exists|value: U256, config: EvmConfig, ran: Pallet<T>, outcome: Result<(), T::HostError>|
            {
                &&& value@ == 1_000_000_000_000_000_000
                &&& call_ensures(T::config, (), config)
                &&& #[trigger] T::Runner::may_mint(
                    *old(pallet),
                    address,
                    value,
                    config,
                    ran,
                    outcome,
                )
                &&& outcome is Ok ==> final(pallet)@ == ran@
                &&& outcome is Err ==> adds_only(
                    ran@,
                    final(pallet)@,
                    Event::EthRewardFailed(address),
                )
            },
{
    let (value, config, ran, outcome) = choose|
        value: U256,
        config: EvmConfig,
        ran: Pallet<T>,
        outcome: Result<(), T::HostError>,
    |
        {
            &&& value@ == BLOCK_REWARD
            &&& crate::config::configures::<T>(config)
            &&& #[trigger] T::Runner::may_mint(*old(pallet), address, value, config, ran, outcome)
            &&& final(pallet)@ == crate::rewards::after_reward(ran@, address, outcome)
        };
    assert(T::Runner::may_mint(*old(pallet), address, value, config, ran, outcome));
}

/// Noting the author of a block asks the engine to pay 10 to the power of 18 to the address that
/// the author named, with the runtime's gas schedule. That the payment failed is reported. For an
/// author who named none, and for the author of an uncle, nothing changes.
pub proof fn law_noted_authors<T: Config, BlockNumber>(
    pallet: &mut Pallet<T>,
    author: T::AccountId,
    named: Option<H160>,
    uncle: &mut Pallet<T>,
    age: BlockNumber,
)
    requires
        call_ensures(Pallet::<T>::note_author, (pallet, author), ()),
        call_ensures(Pallet::<T>::eth_addr, (&*old(pallet), &author), named),
        call_ensures(Pallet::<T>::note_uncle::<BlockNumber>, (uncle, author, age), ()),
    ensures
        named is None ==> *final(pallet) == *old(pallet),
        named matches Some(address) ==> exists|
            value: U256,
            config: EvmConfig,
            ran: Pallet<T>,
            outcome: Result<(), T::HostError>,
        |
            {
                &&& value@ == 1_000_000_000_000_000_000
                &&& call_ensures(T::config, (), config)
                &&& #[trigger] T::Runner::may_mint(
                    *old(pallet),
                    address,
                    value,
                    config,
                    ran,
                    outcome,
                )
                &&& outcome is Ok ==> final(pallet)@ == ran@
                &&& outcome is Err ==> adds_only(
                    ran@,
                    final(pallet)@,
                    Event::EthRewardFailed(address),
                )
            },
        *final(uncle) == *old(uncle),
{
    if let Some(address) = named {
        let (value, config, ran, outcome) = choose|
            value: U256,
            config: EvmConfig,
            ran: Pallet<T>,
            outcome: Result<(), T::HostError>,
        |
            {
                &&& value@ == BLOCK_REWARD
                &&& crate::config::configures::<T>(config)
                &&& #[trigger] T::Runner::may_mint(
                    *old(pallet),
                    address,
                    value,
                    config,
                    ran,
                    outcome,
                )
                &&& final(pallet)@ == crate::rewards::after_reward(ran@, address, outcome)
            };
        assert(T::Runner::may_mint(*old(pallet), address, value, config, ran, outcome));
    }
}

/// A reward that was paid is not reported, and one that was not is.
pub proof fn law_reward_is_told<T: Config>(
    pallet: &mut Pallet<T>,
    address: H160,
    outcome: Result<(), T::HostError>,
)
    requires
        call_ensures(Pallet::<T>::reward_executed, (pallet, address, outcome), ()),
    ensures
        outcome is Ok ==> final(pallet)@ == old(pallet)@,
        outcome is Err ==> adds_only(
            old(pallet)@,
            final(pallet)@,
            Event::EthRewardFailed(address),
        ),
{
}

} // verus!
