//! What holds of the pallet's operations taken together.

use crate::amount::{currency_sum, least, monus, Amount};
use crate::config::{configures, Config, SystemConfig};
use crate::dispatch::{
    announced_weight, execution_result, may_call, may_create, may_create2, CallKind,
};
use crate::fees::{
    fee_kept, fee_left, fee_refund, fee_withdrawal, EVMCurrencyAdapter, FeeCurrency, FeeRest,
    NegativeImbalance, OnChargeEVMTransaction, OnUnbalanced, PositiveImbalance, Refund,
};
use crate::gas::GasWeightMapping;
use crate::genesis::{
    account_actions, genesis_actions, genesis_step, nonce_increment, with_genesis,
    with_genesis_account, GenesisAccount, GenesisAction, GenesisBuild,
};
use crate::map::strictly_increasing;
use crate::mapping::AddressMapping;
use crate::order::Key;
use crate::origin::{
    begins_with_address, signer, EnsureAddressOrigin, EnsureAddressRoot, EnsureAddressSame,
    EnsureAddressTruncated, OuterOrigin, RawOrigin,
};
use crate::pallet::{
    after_creation, creation_change, removal_change, Pallet, PalletView, ReferenceChange,
    SystemAccounts,
};
use crate::primitives::{low_128, AccountId32, H160, H256, U256};
use crate::rewards::may_reward;
use crate::runner::Runner;
use crate::types::{
    Account, CallRequest, Create2Request, CreateInfo, CreateRequest, DispatchError, Error, Event,
    EvmConfig, ExecutionInfo, PostDispatchInfo,
};
use vstd::prelude::*;

verus! {

/// A pallet that was not built for debugging refuses every execution and stays as it is: as
/// forbidden where the origin is accepted, and for its origin where it is not.
pub proof fn law_executions_are_disabled<T: Config>(
    accepted: bool,
    before: Pallet<T>,
    call: CallRequest,
    create: CreateRequest,
    create2: Create2Request,
    after: Pallet<T>,
    result: Result<PostDispatchInfo, DispatchError<T::HostError>>,
)
    requires
        !T::is_debug_build(),
        may_call(accepted, before, call, after, result) || may_create(
            accepted,
            before,
            create,
            after,
            result,
        ) || may_create2(accepted, before, create2, after, result),
    ensures
        after == before,
        accepted ==> result == Err::<PostDispatchInfo, _>(
            DispatchError::<T::HostError>::Module(Error::Forbidden),
        ),
        !accepted ==> result == Err::<PostDispatchInfo, _>(
            DispatchError::<T::HostError>::BadOrigin,
        ),
{
}

/// An execution whose origin is refused leaves the pallet as it is, however the pallet was built.
pub proof fn law_refused_origin_changes_nothing<T: Config>(
    before: Pallet<T>,
    call: CallRequest,
    create: CreateRequest,
    create2: Create2Request,
    after: Pallet<T>,
    result: Result<PostDispatchInfo, DispatchError<T::HostError>>,
)
    requires
        may_call(false, before, call, after, result) || may_create(
            false,
            before,
            create,
            after,
            result,
        ) || may_create2(false, before, create2, after, result),
    ensures
        after == before,
        result == Err::<PostDispatchInfo, _>(DispatchError::<T::HostError>::BadOrigin),
{
}

/// A creation and a creation with a salt differ in nothing but what the salt does in the engine.
/// Given the same sender and the same creation, they return the same and leave the same behind,
/// whatever the salt, where the origin rule has one answer and the engine, if it may be asked at
/// all, does the same for both.
pub proof fn law_salt_matters_to_the_engine_alone<T: Config>(
    before: Pallet<T>,
    origin: T::Origin,
    create: CreateRequest,
    salt: H256,
    after: Pallet<T>,
    result: Result<PostDispatchInfo, DispatchError<T::HostError>>,
    after_salted: Pallet<T>,
    result_salted: Result<PostDispatchInfo, DispatchError<T::HostError>>,
)
    requires
        exists|answer: Result<<T::CallOrigin as EnsureAddressOrigin<T::Origin>>::Success, T::Origin>|
            #[trigger] T::CallOrigin::may_answer(create.source, origin, answer) && may_create::<T>(
                answer is Ok,
                before,
                create,
                after,
                result,
            ),
        exists|answer: Result<<T::CallOrigin as EnsureAddressOrigin<T::Origin>>::Success, T::Origin>|
            #[trigger] T::CallOrigin::may_answer(create.source, origin, answer) && may_create2::<T>(
                answer is Ok,
                before,
                with_salt(create, salt),
                after_salted,
                result_salted,
            ),
        forall|
            one: Result<<T::CallOrigin as EnsureAddressOrigin<T::Origin>>::Success, T::Origin>,
            other: Result<<T::CallOrigin as EnsureAddressOrigin<T::Origin>>::Success, T::Origin>,
        |
            #[trigger] T::CallOrigin::may_answer(create.source, origin, one)
                && #[trigger] T::CallOrigin::may_answer(create.source, origin, other) ==> (
            one is Ok) == (other is Ok),
        T::is_debug_build() ==> forall|
            config: EvmConfig,
            ran: Pallet<T>,
            outcome: Result<CreateInfo, T::HostError>,
            config_salted: EvmConfig,
            ran_salted: Pallet<T>,
            outcome_salted: Result<CreateInfo, T::HostError>,
        |
            configures::<T>(config) && configures::<T>(config_salted)
                && #[trigger] T::Runner::may_create(before, create, config, ran, outcome)
                && #[trigger] T::Runner::may_create2(
                before,
                with_salt(create, salt),
                config_salted,
                ran_salted,
                outcome_salted,
            ) ==> ran@ == ran_salted@ && outcome == outcome_salted,
    ensures
        result == result_salted,
        after@ == after_salted@,
{
}

/// The creation `create` with a salt.
pub open spec fn with_salt(create: CreateRequest, salt: H256) -> Create2Request {
    Create2Request {
        source: create.source,
        init: create.init,
        salt,
        value: create.value,
        gas_limit: create.gas_limit,
        gas_price: create.gas_price,
        nonce: create.nonce,
    }
}

/// Noting the author of a block leaves every account's address of rewards as it was, unless the
/// engine changes one as it pays.
pub proof fn law_rewards_keep_named_addresses<T: Config>(
    before: Pallet<T>,
    author: T::AccountId,
    after: Pallet<T>,
)
    requires
        before@.eth_addrs.contains_key(author) ==> may_reward(
            before,
            before@.eth_addrs[author],
            after,
        ),
        !before@.eth_addrs.contains_key(author) ==> after == before,
        forall|
            address: H160,
            value: U256,
            config: EvmConfig,
            ran: Pallet<T>,
            outcome: Result<(), T::HostError>,
        |
            #[trigger] T::Runner::may_mint(before, address, value, config, ran, outcome)
                ==> ran@.eth_addrs == before@.eth_addrs,
    ensures
        after@.eth_addrs == before@.eth_addrs,
{
}

/// The weight that an execution reports is no more than the weight it announced, where it used no
/// more gas than it was given and more gas never weighs less.
pub proof fn law_actual_weight_within_announced<T: Config, R>(
    gas_limit: u64,
    info: ExecutionInfo<R>,
)
    requires
        info.used_gas@ <= gas_limit,
        forall|g: u64, h: u64|
            g <= h ==> #[trigger] T::GasWeightMapping::weight_of(g)
                <= #[trigger] T::GasWeightMapping::weight_of(h),
    ensures
        execution_result::<T, R>(Ok(info)) matches Ok(post) && post.actual_weight matches Some(
            weight,
        ) && {
            &&& weight <= announced_weight::<T>(CallKind::Call { gas_limit })
            &&& weight <= announced_weight::<T>(CallKind::Create { gas_limit })
            &&& weight <= announced_weight::<T>(CallKind::Create2 { gas_limit })
        },
{
}

/// The address that an account named last is the address of its rewards, and nobody else's
/// address changes.
pub proof fn law_eth_addr_reads_back<AccountId>(
    before: PalletView<AccountId>,
    who: AccountId,
    address: H160,
    other: AccountId,
)
    ensures
        ({
            let after = before.with_event(Event::EthAddrSet((who, address))).with_eth_addr(
                who,
                address,
            );
            &&& after.eth_addrs.contains_key(who)
            &&& after.eth_addrs[who] == address
            &&& other != who ==> after.eth_addrs.contains_key(other)
                == before.eth_addrs.contains_key(other)
            &&& other != who && before.eth_addrs.contains_key(other) ==> after.eth_addrs[other]
                == before.eth_addrs[other]
            &&& after.codes == before.codes
            &&& after.storages == before.storages
        }),
{
}

/// Once an account has named an address, noting it as the author of a block pays that address.
pub proof fn law_reward_goes_to_the_named_address<T: Config>(
    before: PalletView<T::AccountId>,
    named: Pallet<T>,
    who: T::AccountId,
    address: H160,
    after: Pallet<T>,
)
    requires
        named@ == before.with_event(Event::EthAddrSet((who, address))).with_eth_addr(who, address),
        named@.eth_addrs.contains_key(who) ==> may_reward(named, named@.eth_addrs[who], after),
    ensures
        may_reward(named, address, after),
{
}

/// Code that was placed can be read where it was placed, unless it has no length.
pub proof fn law_created_code_reads_back<AccountId>(
    before: PalletView<AccountId>,
    address: H160,
    code: Seq<u8>,
)
    ensures
        ({
            let after = after_creation(before, address, code);
            &&& code.len() > 0 ==> after.codes.contains_key(address) && after.codes[address] == code
            &&& code.len() == 0 ==> after == before
        }),
{
}

/// Of two creations at one address, the second of some length, only the second counts: what stands
/// there, and what was asked of the runtime in all, is as if the first had not been.
pub proof fn law_last_creation_counts<T: SystemConfig>(
    before: PalletView<T::AccountId>,
    address: H160,
    first: Seq<u8>,
    second: Seq<u8>,
    who: T::AccountId,
)
    requires
        second.len() > 0,
    ensures
        ({
            let once = after_creation(before, address, first);
            &&& after_creation(once, address, second) == after_creation(before, address, second)
            &&& reference_delta(creation_change::<T>(before, address, first), who)
                + reference_delta(creation_change::<T>(once, address, second), who)
                == reference_delta(creation_change::<T>(before, address, second), who)
        }),
{
    let once = after_creation(before, address, first);
    assert(after_creation(once, address, second).codes =~= after_creation(
        before,
        address,
        second,
    ).codes);
}

/// Placing code and removing a contract concern one address: what stands at any other address,
/// the addresses of rewards and what was reported stay as they were.
pub proof fn law_accounts_are_independent<AccountId>(
    before: PalletView<AccountId>,
    address: H160,
    code: Seq<u8>,
    other: H160,
    index: H256,
)
    requires
        other != address,
    ensures
        ({
            let created = after_creation(before, address, code);
            let removed = before.without_contract(address);
            &&& created.codes.contains_key(other) == before.codes.contains_key(other)
            &&& removed.codes.contains_key(other) == before.codes.contains_key(other)
            &&& before.codes.contains_key(other) ==> created.codes[other] == before.codes[other]
                && removed.codes[other] == before.codes[other]
            &&& created.storages == before.storages
            &&& removed.storages.contains_key((other, index)) == before.storages.contains_key(
                (other, index),
            )
            &&& before.storages.contains_key((other, index)) ==> removed.storages[(other, index)]
                == before.storages[(other, index)]
            &&& created.eth_addrs == before.eth_addrs && removed.eth_addrs == before.eth_addrs
            &&& created.events == before.events && removed.events == before.events
        }),
{
}

/// Removing the contract that was just created where none stood brings the pallet back to what it
/// was, and gives back the reliance that the creation asked for.
pub proof fn law_removal_undoes_creation<T: SystemConfig>(
    before: PalletView<T::AccountId>,
    address: H160,
    code: Seq<u8>,
)
    requires
        !before.codes.contains_key(address),
        forall|index: H256| !#[trigger] before.storages.contains_key((address, index)),
        code.len() > 0,
    ensures
        ({
            let created = after_creation(before, address, code);
            let who = T::AddressMapping::account_of(address);
            &&& created.without_contract(address) == before
            &&& creation_change::<T>(before, address, code) == ReferenceChange::Increment(who)
            &&& removal_change::<T>(created, address) == ReferenceChange::Decrement(who)
        }),
{
    let undone = after_creation(before, address, code).without_contract(address);
    assert forall|slot: (H160, H256)| #[trigger]
        undone.storages.dom().contains(slot) == before.storages.dom().contains(slot) by {
        if slot.0 == address {
            assert(!before.storages.contains_key((address, slot.1)));
        }
    }
    assert(undone.storages =~= before.storages);
    assert(undone.codes =~= before.codes);
    assert(undone =~= before);
}

/// Removing a contract a second time changes nothing and asks for nothing.
pub proof fn law_removal_is_idempotent<T: SystemConfig>(
    before: PalletView<T::AccountId>,
    address: H160,
)
    ensures
        ({
            let removed = before.without_contract(address);
            &&& removed.without_contract(address) == removed
            &&& removal_change::<T>(removed, address) == ReferenceChange::<
                T::AccountId,
            >::Unchanged
        }),
{
    let removed = before.without_contract(address);
    assert(removed.without_contract(address) =~= removed);
}

/// Nothing of a contract is left once it is removed.
pub proof fn law_removal_leaves_nothing<AccountId>(
    before: PalletView<AccountId>,
    address: H160,
    index: H256,
)
    ensures
        !before.without_contract(address).codes.contains_key(address),
        before.without_contract(address).code_len(address) == 0,
        !before.without_contract(address).storages.contains_key((address, index)),
{
}

/// The nonce and the balance of an address are those of its account, where 128 bits hold every
/// nonce and every sum of the runtime's currency.
pub proof fn law_account_basic_loses_nothing<T: SystemConfig>(
    accounts: SystemAccounts<T>,
    address: H160,
    account: Account,
)
    requires
        T::Nonce::max_value() <= u128::MAX,
        T::Balance::max_value() <= u128::MAX,
        account.nonce@ == least(
            accounts.nonce_of(T::AddressMapping::account_of(address)),
            u128::MAX as nat,
        ),
        account.balance@ == least(
            accounts.free_balance_of(T::AddressMapping::account_of(address)),
            u128::MAX as nat,
        ),
    ensures
        account.nonce@ == accounts.nonce_of(T::AddressMapping::account_of(address)),
        account.balance@ == accounts.free_balance_of(T::AddressMapping::account_of(address)),
{
    let who = T::AddressMapping::account_of(address);
    if accounts@.contains_key(who) {
        accounts@[who].nonce.representation();
        accounts@[who].free_balance.representation();
    }
}

/// Removing an empty account leaves it empty, and an address at which code of some length stands
/// is never empty.
pub proof fn law_removal_keeps_emptiness<T: SystemConfig>(
    before: Pallet<T>,
    after: Pallet<T>,
    accounts: SystemAccounts<T>,
    address: H160,
    other: H160,
)
    requires
        after@ == before@.without_contract(address),
    ensures
        before.empty_at(&accounts, address) ==> after.empty_at(&accounts, address),
        other != address ==> after.empty_at(&accounts, other) == before.empty_at(&accounts, other),
        before@.code_len(address) > 0 ==> !before.empty_at(&accounts, address),
{
}

/// The addresses at which code stands and whose account is `who`.
pub open spec fn contracts_of<T: SystemConfig>(
    view: PalletView<T::AccountId>,
    who: T::AccountId,
) -> Set<H160> {
    view.codes.dom().filter(|address: H160| T::AddressMapping::account_of(address) == who)
}

/// By how much a change raises the number of those who rely on `who`.
pub open spec fn reference_delta<AccountId>(
    change: ReferenceChange<AccountId>,
    who: AccountId,
) -> int {
    match change {
        ReferenceChange::Unchanged => 0,
        ReferenceChange::Increment(account) => if account == who {
            1
        } else {
            0
        },
        ReferenceChange::Decrement(account) => if account == who {
            -1
        } else {
            0
        },
    }
}

/// Placing code and removing a contract ask the runtime to count, for every account, exactly as
/// many that rely on it more or fewer as there are more or fewer contracts at its addresses.
pub proof fn law_references_follow_contracts<T: SystemConfig>(
    pallet: Pallet<T>,
    address: H160,
    code: Seq<u8>,
    who: T::AccountId,
)
    ensures
        contracts_of::<T>(after_creation(pallet@, address, code), who).len() - contracts_of::<T>(
            pallet@,
            who,
        ).len() == reference_delta(creation_change::<T>(pallet@, address, code), who),
        contracts_of::<T>(pallet@.without_contract(address), who).len() - contracts_of::<T>(
            pallet@,
            who,
        ).len() == reference_delta(removal_change::<T>(pallet@, address), who),
{
    pallet.law_finitely_many_contracts();
    let held = contracts_of::<T>(pallet@, who);
    let created = contracts_of::<T>(after_creation(pallet@, address, code), who);
    let removed = contracts_of::<T>(pallet@.without_contract(address), who);
    if code.len() > 0 && T::AddressMapping::account_of(address) == who {
        assert(created =~= held.insert(address));
    } else {
        assert(created =~= held);
    }
    if T::AddressMapping::account_of(address) == who {
        assert(removed =~= held.remove(address));
    } else {
        assert(removed =~= held);
    }
}

/// A fee of fewer than 128 bits that the currency can hold is taken in full, as a fee, from the
/// account of the address.
pub proof fn law_fee_is_taken_in_full<T: SystemConfig, Balance: Amount>(who: H160, fee: U256)
    requires
        fee@ < 0x1_0000_0000_0000_0000_0000_0000_0000_0000nat,
        fee@ <= Balance::max_value(),
    ensures
        fee_withdrawal::<T, Balance>(who, fee).value.value() == fee@,
        fee_withdrawal::<T, Balance>(who, fee).who == T::AddressMapping::account_of(who),
{
    Balance::representable(fee@);
}

/// What is left of a fee and what was put back make up what was paid, and only putting back more
/// than was paid is an error.
pub proof fn law_fee_adds_up<Balance: Amount, E>(
    paid: NegativeImbalance<Balance>,
    reply: Result<PositiveImbalance<Balance>, E>,
)
    ensures
        match (fee_left(paid, reply), reply) {
            (Ok(rest), Ok(refunded)) => rest.amount.value() + refunded.amount.value()
                == paid.amount.value(),
            (Ok(rest), Err(_)) => rest == paid,
            (Err(e), Ok(refunded)) => e == Error::BalanceLow && refunded.amount.value()
                > paid.amount.value(),
            (Err(_), Err(_)) => false,
        },
{
    paid.amount.representation();
    if let Ok(refunded) = reply {
        if paid.amount.value() >= refunded.amount.value() {
            Balance::representable((paid.amount.value() - refunded.amount.value()) as nat);
        }
    }
}

/// Once a fee is corrected and its refund is granted in full, what is left of it is the corrected
/// fee, or what was paid where that is less. The refund is never more than what was paid.
pub proof fn law_corrected_fee_is_left<T: SystemConfig, Balance: Amount>(
    who: H160,
    corrected_fee: U256,
    paid: NegativeImbalance<Balance>,
)
    ensures
        fee_refund::<T, Balance>(who, corrected_fee, Some(paid)) matches Some(refund) && {
            &&& refund.who == T::AddressMapping::account_of(who)
            &&& refund.paid == paid
            &&& refund.amount.value() == monus(
                paid.amount.value(),
                currency_sum::<Balance>(corrected_fee),
            )
            &&& refund.amount.value() <= paid.amount.value()
            &&& fee_left(
                refund.paid,
                Ok::<PositiveImbalance<Balance>, T::HostError>(
                    PositiveImbalance { amount: refund.amount },
                ),
            ) matches Ok(left) && left.amount.value() == least(
                paid.amount.value(),
                currency_sum::<Balance>(corrected_fee),
            )
        },
{
    let cost = currency_sum::<Balance>(corrected_fee);
    paid.amount.representation();
    if paid.amount.value() >= cost {
        Balance::representable((paid.amount.value() - cost) as nat);
        Balance::representable(cost);
    } else {
        Balance::representable(0);
    }
}

/// A fee that is taken, corrected and refunded in full costs its payer the smaller of the fee and
/// the corrected fee.
pub proof fn law_fee_costs_the_smaller<T: SystemConfig, Balance: Amount>(
    who: H160,
    fee: U256,
    corrected_fee: U256,
)
    ensures
        ({
            let taken = fee_withdrawal::<T, Balance>(who, fee);
            fee_refund::<T, Balance>(
                who,
                corrected_fee,
                Some(NegativeImbalance { amount: taken.value }),
            ) matches Some(refund) && refund.who == taken.who && taken.value.value()
                - refund.amount.value() == least(
                currency_sum::<Balance>(fee),
                currency_sum::<Balance>(corrected_fee),
            )
        }),
{
    Balance::representable(currency_sum::<Balance>(fee));
    law_corrected_fee_is_left::<T, Balance>(
        who,
        corrected_fee,
        NegativeImbalance { amount: fee_withdrawal::<T, Balance>(who, fee).value },
    );
}

/// The unit rule drops what is left of a corrected fee and hands nothing on: the payer is to be put
/// back what was paid beyond the corrected fee, and where that is granted the rest of what was paid
/// goes nowhere.
pub proof fn law_unit_rule_drops_the_fee<T: SystemConfig>(
    who: H160,
    corrected_fee: U256,
    paid: NegativeImbalance<T::Balance>,
    refund: Option<Refund<T::AccountId, T::Balance>>,
    rest: Result<FeeRest<T::Balance>, Error>,
)
    requires
        <() as OnChargeEVMTransaction<T>>::may_refund(who, corrected_fee, Some(paid), refund),
        refund matches Some(asked) ==> <() as OnChargeEVMTransaction<T>>::may_settle(
            asked.paid,
            Ok(PositiveImbalance { amount: asked.amount }),
            rest,
        ),
    ensures
        refund matches Some(asked) && {
            &&& asked.who == T::AddressMapping::account_of(who)
            &&& asked.amount.value() == monus(
                paid.amount.value(),
                currency_sum::<T::Balance>(corrected_fee),
            )
        },
        rest matches Ok(FeeRest::Dropped(left)) && left.amount.value() == least(
            paid.amount.value(),
            currency_sum::<T::Balance>(corrected_fee),
        ),
{
    law_corrected_fee_is_left::<T, T::Balance>(who, corrected_fee, paid);
}

/// The currency adapter lets what is left of a corrected fee go where its handler lets it go: to
/// the handler itself, unless the handler drops every sum.
pub proof fn law_adapter_asks_its_handler<
    T: SystemConfig,
    C: FeeCurrency,
    OU: OnUnbalanced<C::Balance>,
>(
    who: H160,
    corrected_fee: U256,
    paid: NegativeImbalance<C::Balance>,
    refund: Option<Refund<T::AccountId, C::Balance>>,
    rest: Result<FeeRest<C::Balance>, Error>,
)
    requires
        <EVMCurrencyAdapter<C, OU> as OnChargeEVMTransaction<T>>::may_refund(
            who,
            corrected_fee,
            Some(paid),
            refund,
        ),
        refund matches Some(asked) ==> <EVMCurrencyAdapter<C, OU> as OnChargeEVMTransaction<
            T,
        >>::may_settle(asked.paid, Ok(PositiveImbalance { amount: asked.amount }), rest),
    ensures
        refund matches Some(asked) && {
            &&& asked.who == T::AddressMapping::account_of(who)
            &&& asked.amount.value() == monus(
                paid.amount.value(),
                currency_sum::<C::Balance>(corrected_fee),
            )
        },
        match rest {
            Ok(FeeRest::HandedOn(left)) => !OU::drops() && left.amount.value() == least(
                paid.amount.value(),
                currency_sum::<C::Balance>(corrected_fee),
            ),
            Ok(FeeRest::Dropped(left)) => OU::drops() && left.amount.value() == least(
                paid.amount.value(),
                currency_sum::<C::Balance>(corrected_fee),
            ),
            Err(_) => false,
        },
{
    law_corrected_fee_is_left::<T, C::Balance>(who, corrected_fee, paid);
}

/// A fee that was not taken is not put back, and a fee that the runtime refused to take is an
/// error.
pub proof fn law_untaken_fee_is_not_refunded<T: SystemConfig, Balance: Amount>(
    who: H160,
    corrected_fee: U256,
    error: T::HostError,
)
    ensures
        fee_refund::<T, Balance>(who, corrected_fee, None) is None,
        fee_kept::<Balance, T::HostError>(Err(error)) == Err::<
            Option<NegativeImbalance<Balance>>,
            _,
        >(Error::BalanceLow),
{
}

/// An account that is its own address may act for the address, and so may nobody else. A refused
/// origin comes back as it was, where the system's part of an origin can be put back together.
pub proof fn law_same_address_acts_for_itself<O: OuterOrigin<H160>>(address: H160, origin: O)
    requires
        match origin.as_raw() {
            Ok(raw) => O::of_raw(raw) == origin,
            Err(other) => other == origin,
        },
    ensures
        EnsureAddressSame::answer(address, origin) == (if signer::<O, H160>(origin) == Some(
            address,
        ) {
            Ok(address)
        } else {
            Err(origin)
        }),
{
}

/// An account whose identifier begins with an address may act for the address, and so may nobody
/// else: no account may act for two addresses. A refused origin comes back as it was, where the
/// system's part of an origin can be put back together.
pub proof fn law_truncated_account_acts_for_one_address<O: OuterOrigin<AccountId32>>(
    address: H160,
    other: H160,
    origin: O,
)
    requires
        match origin.as_raw() {
            Ok(raw) => O::of_raw(raw) == origin,
            Err(foreign) => foreign == origin,
        },
    ensures
        match EnsureAddressTruncated::answer(address, origin) {
            Ok(who) => signer::<O, AccountId32>(origin) == Some(who) && begins_with_address(
                who,
                address,
            ),
            Err(refused) => refused == origin && (signer::<O, AccountId32>(origin) matches Some(
                who,
            ) ==> !begins_with_address(who, address)),
        },
        EnsureAddressTruncated::answer(address, origin) is Ok && EnsureAddressTruncated::answer(
            other,
            origin,
        ) is Ok ==> address == other,
{
    if address.0@ == other.0@ {
        assert(address.0 =~= other.0);
    }
}

/// The runtime itself may act for any address, and nobody else may. A refused origin comes back as
/// it was, where the system's part of an origin can be put back together.
pub proof fn law_root_acts_for_any_address<O: OuterOrigin<AccountId>, AccountId>(origin: O)
    requires
        match origin.as_raw() {
            Ok(raw) => O::of_raw(raw) == origin,
            Err(other) => other == origin,
        },
    ensures
        EnsureAddressRoot::<AccountId>::answer(origin) == (if origin.as_raw() == Ok::<_, O>(
            RawOrigin::<AccountId>::Root,
        ) {
            Ok(())
        } else {
            Err(origin)
        }),
{
}

/// Building the first block to its end asks the runtime for exactly what the accounts ask for, in
/// their order, and writes each of the accounts.
pub proof fn law_genesis_runs_to_the_end<T: SystemConfig>(
    builds: Seq<GenesisBuild<'_>>,
    views: Seq<PalletView<T::AccountId>>,
    actions: Seq<GenesisAction<T::AccountId, T::Balance>>,
)
    requires
        builds.len() == actions.len() + 1,
        views.len() == actions.len() + 1,
        builds[0].is_start(),
        forall|i: int|
            #![trigger actions[i]]
            0 <= i < actions.len() ==> genesis_step::<T>(
                builds[i],
                views[i],
                actions[i],
                builds[i + 1],
                views[i + 1],
            ),
        builds.last().is_done(),
    ensures
        actions == genesis_actions::<T>(builds[0].entries()),
        views.last() == with_genesis(views[0], builds[0].entries()),
{
    let entries = builds[0].entries();
    let n = actions.len() as int;
    lemma_genesis_run::<T>(builds, views, actions, n);
    assert(builds[0].pending::<T>() =~= genesis_actions::<T>(entries));
    assert(actions.take(n) =~= actions);
    assert(entries.take(entries.len() as int) =~= entries);
}

/// What holds after `n` steps of building the first block.
proof fn lemma_genesis_run<T: SystemConfig>(
    builds: Seq<GenesisBuild<'_>>,
    views: Seq<PalletView<T::AccountId>>,
    actions: Seq<GenesisAction<T::AccountId, T::Balance>>,
    n: int,
)
    requires
        builds.len() == actions.len() + 1,
        views.len() == actions.len() + 1,
        builds[0].is_start(),
        forall|i: int|
            #![trigger actions[i]]
            0 <= i < actions.len() ==> genesis_step::<T>(
                builds[i],
                views[i],
                actions[i],
                builds[i + 1],
                views[i + 1],
            ),
        0 <= n <= actions.len(),
    ensures
        builds[n].entries() == builds[0].entries(),
        builds[n].position() <= builds[0].entries().len(),
        builds[0].pending::<T>() == actions.take(n) + builds[n].pending::<T>(),
        views[n] == with_genesis(
            views[0],
            builds[0].entries().take(builds[n].position() as int),
        ),
    decreases n,
{
    let entries = builds[0].entries();
    if n == 0 {
        assert(builds[0].pending::<T>() =~= actions.take(0) + builds[0].pending::<T>());
    } else {
        let k = n - 1;
        lemma_genesis_run::<T>(builds, views, actions, k);
        assert(genesis_step::<T>(builds[k], views[k], actions[k], builds[n], views[n]));
        assert(actions.take(n) =~= actions.take(k).push(actions[k]));
        assert(builds[0].pending::<T>() =~= actions.take(n) + builds[n].pending::<T>());
        if builds[k].increments() == 0 {
            let written = builds[k].position() as int;
            assert(entries.take(written + 1).drop_last() =~= entries.take(written));
        }
    }
}

/// How many transactions more `actions` count for the account `who`.
pub open spec fn increments_of<AccountId, Balance>(
    actions: Seq<GenesisAction<AccountId, Balance>>,
    who: AccountId,
) -> nat
    decreases actions.len(),
{
    if actions.len() == 0 {
        0
    } else {
        increments_of(actions.drop_last(), who) + (match actions.last() {
            GenesisAction::IncrementNonce(account) => if account == who {
                1nat
            } else {
                0
            },
            GenesisAction::DepositCreating { .. } => 0,
        })
    }
}

/// What `actions` put on the account `who` in all.
pub open spec fn deposits_on<AccountId, Balance: Amount>(
    actions: Seq<GenesisAction<AccountId, Balance>>,
    who: AccountId,
) -> nat
    decreases actions.len(),
{
    if actions.len() == 0 {
        0
    } else {
        deposits_on(actions.drop_last(), who) + (match actions.last() {
            GenesisAction::IncrementNonce(_) => 0,
            GenesisAction::DepositCreating { who: account, amount } => if account == who {
                amount.value()
            } else {
                0
            },
        })
    }
}

/// The count and the sum of two lists of actions are those of the one and the other together.
proof fn lemma_actions_add_up<AccountId, Balance: Amount>(
    first: Seq<GenesisAction<AccountId, Balance>>,
    second: Seq<GenesisAction<AccountId, Balance>>,
    who: AccountId,
)
    ensures
        increments_of(first + second, who) == increments_of(first, who) + increments_of(
            second,
            who,
        ),
        deposits_on(first + second, who) == deposits_on(first, who) + deposits_on(second, who),
    decreases second.len(),
{
    if second.len() == 0 {
        assert(first + second =~= first);
    } else {
        lemma_actions_add_up(first, second.drop_last(), who);
        assert((first + second).drop_last() =~= first + second.drop_last());
    }
}

/// What one account of the first block asks for.
proof fn lemma_account_actions<T: SystemConfig>(
    entry: (H160, GenesisAccount),
    increments: nat,
    who: T::AccountId,
)
    ensures
        ({
            let actions = account_actions::<T>(entry, increments);
            let own = T::AddressMapping::account_of(entry.0) == who;
            &&& increments_of(actions, who) == (if own {
                increments
            } else {
                0
            })
            &&& deposits_on(actions, who) == (if own {
                currency_sum::<T::Balance>(entry.1.balance)
            } else {
                0
            })
        }),
    decreases increments,
{
    let counted = Seq::new(increments, |i: int| nonce_increment::<T>(entry.0));
    let actions = account_actions::<T>(entry, increments);
    assert(actions.drop_last() =~= counted);
    T::Balance::representable(currency_sum::<T::Balance>(entry.1.balance));
    if increments > 0 {
        let fewer = (increments - 1) as nat;
        lemma_account_actions::<T>(entry, fewer, who);
        let earlier = Seq::new(fewer, |i: int| nonce_increment::<T>(entry.0));
        assert(account_actions::<T>(entry, fewer).drop_last() =~= earlier);
        assert(counted.drop_last() =~= earlier);
        assert(counted.last() == nonce_increment::<T>(entry.0));
        reveal_with_fuel(increments_of, 3);
        reveal_with_fuel(deposits_on, 3);
    } else {
        assert(counted =~= Seq::empty());
        reveal_with_fuel(increments_of, 2);
        reveal_with_fuel(deposits_on, 2);
    }
}

/// The first block counts for the account of each of its addresses as many transactions as the
/// lower 128 bits of its nonce say, and puts its balance on that account. It asks nothing for any
/// other account. Where two of its addresses share an account, their nonces and balances add up
/// instead, so such addresses are left out.
pub proof fn law_genesis_grants_nonces_and_balances<T: SystemConfig>(
    entries: Seq<(H160, GenesisAccount)>,
    who: T::AccountId,
)
    requires
        forall|i: int, j: int|
            #![trigger entries[i], entries[j]]
            0 <= i < j < entries.len() ==> T::AddressMapping::account_of(entries[i].0)
                != T::AddressMapping::account_of(entries[j].0),
    ensures
        ({
            let actions = genesis_actions::<T>(entries);
            &&& forall|i: int|
                #![trigger entries[i]]
                0 <= i < entries.len() && T::AddressMapping::account_of(entries[i].0) == who ==> {
                    &&& increments_of(actions, who) == low_128(entries[i].1.nonce@)
                    &&& deposits_on(actions, who) == currency_sum::<T::Balance>(
                        entries[i].1.balance,
                    )
                }
            &&& (forall|i: int|
                #![trigger entries[i]]
                0 <= i < entries.len() ==> T::AddressMapping::account_of(entries[i].0) != who)
                ==> increments_of(actions, who) == 0 && deposits_on(actions, who) == 0
        }),
    decreases entries.len(),
{
    if entries.len() > 0 {
        let rest = entries.skip(1);
        let first = account_actions::<T>(entries[0], low_128(entries[0].1.nonce@));
        assert forall|i: int, j: int|
            #![trigger rest[i], rest[j]]
            0 <= i < j < rest.len() implies T::AddressMapping::account_of(rest[i].0)
            != T::AddressMapping::account_of(rest[j].0) by {
            assert(rest[i] == entries[i + 1] && rest[j] == entries[j + 1]);
        }
        law_genesis_grants_nonces_and_balances::<T>(rest, who);
        lemma_account_actions::<T>(entries[0], low_128(entries[0].1.nonce@), who);
        lemma_actions_add_up(first, genesis_actions::<T>(rest), who);
        assert forall|i: int| 0 <= i < rest.len() implies #[trigger] rest[i] == entries[i + 1] by {
        }
        assert forall|i: int| #![trigger entries[i]] 0 < i < entries.len() implies entries[i]
            == rest[i - 1] by {
        }
    }
}

/// Where the mapping is one-to-one, no two addresses of the first block share an account, so that
/// each account gets the nonce and the balance of its own address.
pub proof fn law_one_to_one_genesis_shares_no_account<T: SystemConfig>(
    entries: Seq<(H160, GenesisAccount)>,
)
    requires
        strictly_increasing(entries),
        forall|a: H160, b: H160|
            #[trigger] T::AddressMapping::account_of(a)
                == #[trigger] T::AddressMapping::account_of(b) ==> a == b,
    ensures
        forall|i: int, j: int|
            #![trigger entries[i], entries[j]]
            0 <= i < j < entries.len() ==> T::AddressMapping::account_of(entries[i].0)
                != T::AddressMapping::account_of(entries[j].0),
{
    assert forall|i: int, j: int|
        #![trigger entries[i], entries[j]]
        0 <= i < j < entries.len() implies T::AddressMapping::account_of(entries[i].0)
        != T::AddressMapping::account_of(entries[j].0) by {
        entries[i].0.irreflexive();
    }
}

/// The first block holds the code and the storage words of each of its accounts, and no other
/// storage words than those and the ones that stood before. What stood at other addresses, the
/// addresses of rewards and what was reported stay as they were.
pub proof fn law_genesis_holds_its_accounts<AccountId>(
    before: PalletView<AccountId>,
    entries: Seq<(H160, GenesisAccount)>,
)
    requires
        strictly_increasing(entries),
    ensures
        ({
            let after = with_genesis(before, entries);
            &&& after.eth_addrs == before.eth_addrs
            &&& after.events == before.events
            &&& forall|i: int|
                #![trigger entries[i]]
                0 <= i < entries.len() ==> {
                    &&& after.codes.contains_key(entries[i].0)
                    &&& after.codes[entries[i].0] == entries[i].1.code@
                    &&& forall|index: H256| #[trigger]
                        entries[i].1.storage@.contains_key(index) ==> {
                            &&& after.storages.contains_key((entries[i].0, index))
                            &&& after.storages[(entries[i].0, index)]
                                == entries[i].1.storage@[index]
                        }
                    &&& forall|index: H256|
                        #![trigger after.storages.contains_key((entries[i].0, index))]
                        !entries[i].1.storage@.contains_key(index) ==> {
                            &&& after.storages.contains_key((entries[i].0, index))
                                == before.storages.contains_key((entries[i].0, index))
                            &&& before.storages.contains_key((entries[i].0, index))
                                ==> after.storages[(entries[i].0, index)]
                                == before.storages[(entries[i].0, index)]
                        }
                }
            &&& forall|address: H160|
                (forall|i: int| 0 <= i < entries.len() ==> (#[trigger] entries[i]).0 != address)
                    ==> {
                    &&& #[trigger] after.codes.contains_key(address)
                        == before.codes.contains_key(address)
                    &&& before.codes.contains_key(address) ==> after.codes[address]
                        == before.codes[address]
                    &&& forall|index: H256| #[trigger]
                        after.storages.contains_key((address, index))
                            == before.storages.contains_key((address, index)) && (
                        before.storages.contains_key((address, index)) ==> after.storages[(
                            address,
                            index,
                        )] == before.storages[(address, index)])
                }
        }),
    decreases entries.len(),
{
    if entries.len() > 0 {
        let earlier = entries.drop_last();
        let last = entries.last();
        assert forall|i: int, j: int|
            #![trigger earlier[i], earlier[j]]
            0 <= i < j < earlier.len() implies earlier[i].0.precedes(earlier[j].0) by {
            assert(entries[i].0.precedes(entries[j].0));
        }
        law_genesis_holds_its_accounts(before, earlier);
        let middle = with_genesis(before, earlier);
        let after = with_genesis(before, entries);
        assert(after == with_genesis_account(middle, last));
        assert forall|i: int|
            #![trigger entries[i]]
            0 <= i < entries.len() implies {
            &&& after.codes.contains_key(entries[i].0)
            &&& after.codes[entries[i].0] == entries[i].1.code@
            &&& forall|index: H256| #[trigger]
                entries[i].1.storage@.contains_key(index) ==> {
                    &&& after.storages.contains_key((entries[i].0, index))
                    &&& after.storages[(entries[i].0, index)] == entries[i].1.storage@[index]
                }
            &&& forall|index: H256|
                #![trigger after.storages.contains_key((entries[i].0, index))]
                !entries[i].1.storage@.contains_key(index) ==> {
                    &&& after.storages.contains_key((entries[i].0, index))
                        == before.storages.contains_key((entries[i].0, index))
                    &&& before.storages.contains_key((entries[i].0, index)) ==> after.storages[(
                        entries[i].0,
                        index,
                    )] == before.storages[(entries[i].0, index)]
                }
        } by {
            if i < earlier.len() {
                assert(earlier[i] == entries[i]);
                assert(entries[i].0.precedes(entries[entries.len() - 1].0));
                assert(entries[i].0 != last.0) by {
                    last.0.irreflexive();
                }
            } else {
                assert forall|j: int| 0 <= j < earlier.len() implies (#[trigger] earlier[j]).0
                    != last.0 by {
                    assert(entries[j].0.precedes(entries[i].0));
                    last.0.irreflexive();
                }
                assert(middle.codes.contains_key(last.0) == before.codes.contains_key(last.0));
                assert forall|index: H256|
                    #![trigger after.storages.contains_key((last.0, index))]
                    !last.1.storage@.contains_key(index) implies after.storages.contains_key(
                    (last.0, index),
                ) == middle.storages.contains_key((last.0, index)) by {
                }
            }
        }
        assert forall|address: H160|
            (forall|i: int| 0 <= i < entries.len() ==> (#[trigger] entries[i]).0
                != address) implies {
            &&& #[trigger] after.codes.contains_key(address) == before.codes.contains_key(address)
            &&& before.codes.contains_key(address) ==> after.codes[address]
                == before.codes[address]
            &&& forall|index: H256| #[trigger]
                after.storages.contains_key((address, index)) == before.storages.contains_key(
                    (address, index),
                ) && (before.storages.contains_key((address, index)) ==> after.storages[(
                    address,
                    index,
                )] == before.storages[(address, index)])
        } by {
            assert(entries[entries.len() - 1].0 != address);
            assert forall|i: int| 0 <= i < earlier.len() implies (#[trigger] earlier[i]).0
                != address by {
                assert(entries[i].0 != address);
            }
            assert(middle.codes.contains_key(address) == before.codes.contains_key(address));
        }
    }
}

} // verus!
