//! The building of the first block, one step at a time.

use crate::amount::Amount;
use crate::config::SystemConfig;
use crate::genesis::{GenesisAccount, GenesisAction, GenesisBuild, GenesisConfig};
use crate::map::OrderedMap;
use crate::mapping::AddressMapping;
use crate::outcomes::fees::is_sum_of;
use crate::outcomes::values::law_words_are_digits;
use crate::order::Key;
use crate::pallet::Pallet;
use crate::primitives::{H160, H256, U256};
use vstd::prelude::*;

verus! {

/// The number that the first two words of `number` make up.
pub open spec fn lower_words(number: U256) -> int {
    number.0[0] + 0x1_0000_0000_0000_0000int * number.0[1]
}

/// A configuration has no accounts at first.
pub proof fn law_default_configuration(config: GenesisConfig, len: usize)
    requires
        call_ensures(<GenesisConfig as Default>::default, (), config),
        call_ensures(OrderedMap::<H160, GenesisAccount>::len, (&config.accounts,), len),
    ensures
        len == 0,
{
}

/// The building starts at the first account, with as many transactions to count for it as the lower
/// words of its nonce say, and goes through the accounts in the order of their addresses.
pub proof fn law_building_starts(config: GenesisConfig, build: GenesisBuild<'_>)
    requires
        call_ensures(GenesisConfig::build, (&config,), build),
    ensures
        build.entries() == config.accounts.entries(),
        forall|i: int, j: int|
            0 <= i < j < build.entries().len() ==> (#[trigger] build.entries()[i]).0.precedes(
                (#[trigger] build.entries()[j]).0,
            ),
        build.position() == 0,
        build.entries().len() > 0 ==> build.increments() == lower_words(
            build.entries()[0].1.nonce,
        ),
{
    if build.entries().len() > 0 {
        law_words_are_digits(build.entries()[0].1.nonce);
    }
}

/// The building is over exactly where every account was written, and then nothing changes.
pub proof fn law_building_ends<T: SystemConfig>(
    build: &mut GenesisBuild<'_>,
    pallet: &mut Pallet<T>,
    result: Option<GenesisAction<T::AccountId, T::Balance>>,
)
    requires
        call_ensures(GenesisBuild::<'_>::next::<T>, (build, pallet), result),
    ensures
        result is None <==> old(build).position() >= old(build).entries().len(),
        result is None ==> *final(build) == *old(build) && *final(pallet) == *old(pallet),
        final(build).entries() == old(build).entries(),
{
}

/// While transactions are to be counted, one is counted for the account of the address, and the
/// pallet stays as it is.
pub proof fn law_transactions_are_counted<T: SystemConfig>(
    build: &mut GenesisBuild<'_>,
    pallet: &mut Pallet<T>,
    result: Option<GenesisAction<T::AccountId, T::Balance>>,
)
    requires
        call_ensures(GenesisBuild::<'_>::next::<T>, (build, pallet), result),
        old(build).position() < old(build).entries().len(),
        old(build).increments() > 0,
    ensures
        result == Some(
            GenesisAction::<T::AccountId, T::Balance>::IncrementNonce(
                T::AddressMapping::account_of(
                    old(build).entries()[old(build).position() as int].0,
                ),
            ),
        ),
        final(build).position() == old(build).position(),
        final(build).increments() == old(build).increments() - 1,
        final(pallet)@ == old(pallet)@,
{
    let entry = old(build).entries()[old(build).position() as int];
    let pending = old(build).pending::<T>();
    assert(pending[0] == crate::genesis::nonce_increment::<T>(entry.0));
    assert((seq![result->0] + final(build).pending::<T>())[0] == result->0);
}

/// Once the transactions of an account are counted, the sum of the lower words of its balance is
/// put on the account of the address. Its code stands at the address, even code of no length, and
/// its storage words are read there. What else stood anywhere stays. The next account follows, with
/// as many transactions to count as the lower words of its nonce say.
pub proof fn law_accounts_are_written<T: SystemConfig>(
    build: &mut GenesisBuild<'_>,
    pallet: &mut Pallet<T>,
    result: Option<GenesisAction<T::AccountId, T::Balance>>,
    other: H160,
    index: H256,
)
    requires
        call_ensures(GenesisBuild::<'_>::next::<T>, (build, pallet), result),
        old(build).position() < old(build).entries().len(),
        old(build).increments() == 0,
    ensures
        ({
            let (address, account) = old(build).entries()[old(build).position() as int];
            &&& result matches Some(GenesisAction::DepositCreating { who, amount }) && who
                == T::AddressMapping::account_of(address) && is_sum_of::<T::Balance>(
                amount.value(),
                account.balance,
            )
            &&& final(build).position() == old(build).position() + 1
            &&& final(build).position() < final(build).entries().len()
                ==> final(build).increments() == lower_words(
                final(build).entries()[final(build).position() as int].1.nonce,
            )
            &&& final(pallet)@.codes.contains_key(address)
            &&& final(pallet)@.codes[address] == account.code@
            &&& other != address ==> {
                &&& final(pallet)@.codes.contains_key(other) == old(pallet)@.codes.contains_key(
                    other,
                )
                &&& old(pallet)@.codes.contains_key(other) ==> final(pallet)@.codes[other]
                    == old(pallet)@.codes[other]
            }
            &&& if other == address && account.storage@.contains_key(index) {
                &&& final(pallet)@.storages.contains_key((other, index))
                &&& final(pallet)@.storages[(other, index)] == account.storage@[index]
            } else {
                &&& final(pallet)@.storages.contains_key((other, index))
                    == old(pallet)@.storages.contains_key((other, index))
                &&& old(pallet)@.storages.contains_key((other, index))
                    ==> final(pallet)@.storages[(other, index)] == old(pallet)@.storages[(
                    other,
                    index,
                )]
            }
            &&& final(pallet)@.eth_addrs == old(pallet)@.eth_addrs
            &&& final(pallet)@.events == old(pallet)@.events
        }),
{
    let entry = old(build).entries()[old(build).position() as int];
    let pending = old(build).pending::<T>();
    assert(pending[0] == crate::genesis::genesis_deposit::<T>(entry.0, entry.1));
    assert((seq![result->0] + final(build).pending::<T>())[0] == result->0);
    law_words_are_digits(entry.1.balance);
    T::Balance::representable(crate::amount::currency_sum::<T::Balance>(entry.1.balance));
    if final(build).position() < final(build).entries().len() {
        law_words_are_digits(final(build).entries()[final(build).position() as int].1.nonce);
    }
}

} // verus!
