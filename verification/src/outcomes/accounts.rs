//! The pallet's storage and the accounts in it.

use crate::amount::Amount;
use crate::config::SystemConfig;
use crate::mapping::AddressMapping;
use crate::pallet::{Pallet, ReferenceChange, SystemAccounts};
use crate::primitives::{H160, H256};
use crate::types::{Account, Event};
use vstd::prelude::*;

verus! {

/// A new pallet names no address, holds no code and no storage word, and has nothing to report.
pub proof fn law_new_pallet<T: SystemConfig>(
    pallet: Pallet<T>,
    who: T::AccountId,
    address: H160,
    index: H256,
    named: Option<H160>,
    coded: bool,
    code: Vec<u8>,
    worded: bool,
    word: H256,
    events: &Vec<Event<T::AccountId>>,
)
    requires
        call_ensures(Pallet::<T>::new, (), pallet),
        call_ensures(Pallet::<T>::eth_addr, (&pallet, &who), named),
        call_ensures(Pallet::<T>::has_code, (&pallet, &address), coded),
        call_ensures(Pallet::<T>::account_codes, (&pallet, &address), code),
        call_ensures(Pallet::<T>::has_word, (&pallet, &address, &index), worded),
        call_ensures(Pallet::<T>::account_storages, (&pallet, &address, &index), word),
        call_ensures(Pallet::<T>::events, (&pallet,), events),
    ensures
        named is None,
        !coded && code@.len() == 0,
        !worded && forall|i: int| 0 <= i < 32 ==> word.0@[i] == 0,
        events@.len() == 0,
{
}

/// What a pallet gives is what its view holds: nothing, no code, the word zero, where it holds
/// nothing.
pub proof fn law_readings<T: SystemConfig>(
    pallet: Pallet<T>,
    who: T::AccountId,
    address: H160,
    index: H256,
    named: Option<H160>,
    coded: bool,
    code: Vec<u8>,
    worded: bool,
    word: H256,
    events: &Vec<Event<T::AccountId>>,
)
    requires
        call_ensures(Pallet::<T>::eth_addr, (&pallet, &who), named),
        call_ensures(Pallet::<T>::has_code, (&pallet, &address), coded),
        call_ensures(Pallet::<T>::account_codes, (&pallet, &address), code),
        call_ensures(Pallet::<T>::has_word, (&pallet, &address, &index), worded),
        call_ensures(Pallet::<T>::account_storages, (&pallet, &address, &index), word),
        call_ensures(Pallet::<T>::events, (&pallet,), events),
    ensures
        named is Some <==> pallet@.eth_addrs.contains_key(who),
        named matches Some(named_address) ==> named_address == pallet@.eth_addrs[who],
        coded <==> pallet@.codes.contains_key(address),
        coded ==> code@ == pallet@.codes[address],
        !coded ==> code@ == Seq::<u8>::empty(),
        worded <==> pallet@.storages.contains_key((address, index)),
        worded ==> word == pallet@.storages[(address, index)],
        !worded ==> forall|i: int| 0 <= i < 32 ==> word.0@[i] == 0,
        events@ == pallet@.events,
{
    if !coded {
        assert(code@ =~= Seq::<u8>::empty());
    }
}

/// The address recorded for an account is read back for it, and for no other account does what is
/// read change. Nothing else changes.
pub proof fn law_recorded_address_is_read<T: SystemConfig>(
    pallet: &mut Pallet<T>,
    who: T::AccountId,
    address: H160,
    other: T::AccountId,
    before: Option<H160>,
    after: Option<H160>,
)
    requires
        call_ensures(Pallet::<T>::put_eth_addr, (pallet, who, address), ()),
        call_ensures(Pallet::<T>::eth_addr, (&*old(pallet), &other), before),
        call_ensures(Pallet::<T>::eth_addr, (&*final(pallet), &other), after),
    ensures
        other == who ==> after == Some(address),
        other != who ==> after == before,
        final(pallet)@.codes == old(pallet)@.codes,
        final(pallet)@.storages == old(pallet)@.storages,
        final(pallet)@.events == old(pallet)@.events,
{
}

/// The code placed at an address is read back there, even code of no length, and at no other
/// address does what is read change. Nothing else changes.
pub proof fn law_placed_code_is_read<T: SystemConfig>(
    pallet: &mut Pallet<T>,
    address: H160,
    code: Vec<u8>,
    other: H160,
    coded_before: bool,
    before: Vec<u8>,
    coded_after: bool,
    after: Vec<u8>,
)
    requires
        call_ensures(Pallet::<T>::put_code, (pallet, address, code), ()),
        call_ensures(Pallet::<T>::has_code, (&*old(pallet), &other), coded_before),
        call_ensures(Pallet::<T>::account_codes, (&*old(pallet), &other), before),
        call_ensures(Pallet::<T>::has_code, (&*final(pallet), &other), coded_after),
        call_ensures(Pallet::<T>::account_codes, (&*final(pallet), &other), after),
    ensures
        other == address ==> coded_after && after@ == code@,
        other != address ==> coded_after == coded_before && after@ =~= before@,
        final(pallet)@.eth_addrs == old(pallet)@.eth_addrs,
        final(pallet)@.storages == old(pallet)@.storages,
        final(pallet)@.events == old(pallet)@.events,
{
}

/// The storage word written for an address at an index is read back there, even a word that is
/// zero, and nowhere else does what is read change. Nothing else changes.
pub proof fn law_written_word_is_read<T: SystemConfig>(
    pallet: &mut Pallet<T>,
    address: H160,
    index: H256,
    word: H256,
    other: H160,
    other_index: H256,
    worded_before: bool,
    before: H256,
    worded_after: bool,
    after: H256,
)
    requires
        call_ensures(Pallet::<T>::put_word, (pallet, address, index, word), ()),
        call_ensures(Pallet::<T>::has_word, (&*old(pallet), &other, &other_index), worded_before),
        call_ensures(Pallet::<T>::account_storages, (&*old(pallet), &other, &other_index), before),
        call_ensures(Pallet::<T>::has_word, (&*final(pallet), &other, &other_index), worded_after),
        call_ensures(Pallet::<T>::account_storages, (&*final(pallet), &other, &other_index), after),
    ensures
        other == address && other_index == index ==> worded_after && after == word,
        other != address || other_index != index ==> worded_after == worded_before && after
            == before,
        final(pallet)@.eth_addrs == old(pallet)@.eth_addrs,
        final(pallet)@.codes == old(pallet)@.codes,
        final(pallet)@.events == old(pallet)@.events,
{
    if !worded_before && !worded_after {
        assert(before.0 =~= after.0);
    }
}

/// An event is reported after all earlier ones, and taking the events out gives them all and
/// leaves none. Nothing else changes.
pub proof fn law_events_come_in_order<T: SystemConfig>(
    pallet: &mut Pallet<T>,
    event: Event<T::AccountId>,
    emptied: &mut Pallet<T>,
    taken: Vec<Event<T::AccountId>>,
)
    requires
        call_ensures(Pallet::<T>::deposit_event, (pallet, event), ()),
        call_ensures(Pallet::<T>::take_events, (emptied,), taken),
    ensures
        final(pallet)@.events.len() == old(pallet)@.events.len() + 1,
        final(pallet)@.events.last() == event,
        forall|i: int|
            0 <= i < old(pallet)@.events.len() ==> final(pallet)@.events[i]
                == old(pallet)@.events[i],
        final(pallet)@.eth_addrs == old(pallet)@.eth_addrs,
        final(pallet)@.codes == old(pallet)@.codes,
        final(pallet)@.storages == old(pallet)@.storages,
        taken@ == old(emptied)@.events,
        final(emptied)@.events.len() == 0,
        final(emptied)@.eth_addrs == old(emptied)@.eth_addrs,
        final(emptied)@.codes == old(emptied)@.codes,
        final(emptied)@.storages == old(emptied)@.storages,
{
}

/// What was recorded of an account is what is said of it, and of any other account what was said
/// before. At first nothing is said of any.
pub proof fn law_records<T: SystemConfig>(
    accounts: &mut SystemAccounts<T>,
    who: T::AccountId,
    nonce: T::Nonce,
    free_balance: T::Balance,
    other: T::AccountId,
    silent: SystemAccounts<T>,
)
    requires
        call_ensures(SystemAccounts::<T>::record, (accounts, who, nonce, free_balance), ()),
        call_ensures(SystemAccounts::<T>::new, (), silent),
    ensures
        final(accounts)@.contains_key(who),
        final(accounts)@[who].nonce == nonce,
        final(accounts)@[who].free_balance == free_balance,
        other != who ==> final(accounts)@.contains_key(other) == old(accounts)@.contains_key(other),
        other != who && old(accounts)@.contains_key(other) ==> final(accounts)@[other]
            == old(accounts)@[other],
        !silent@.contains_key(who),
{
}

/// The nonce and the balance of an address are those recorded of the account of the address, cut
/// off at the largest number of 128 bits, and zero where nothing is recorded of it.
pub proof fn law_basics_are_the_accounts<T: SystemConfig>(
    accounts: SystemAccounts<T>,
    address: H160,
    account: Account,
)
    requires
        call_ensures(Pallet::<T>::account_basic, (&accounts, &address), account),
    ensures
        ({
            let who = T::AddressMapping::account_of(address);
            let limit = 0xffff_ffff_ffff_ffff_ffff_ffff_ffff_ffffnat;
            if accounts@.contains_key(who) {
                let nonce = accounts@[who].nonce.value();
                let balance = accounts@[who].free_balance.value();
                &&& nonce <= limit ==> account.nonce@ == nonce
                &&& nonce > limit ==> account.nonce@ == limit
                &&& balance <= limit ==> account.balance@ == balance
                &&& balance > limit ==> account.balance@ == limit
            } else {
                account.nonce@ == 0 && account.balance@ == 0
            }
        }),
{
}

/// An address is empty exactly where its account has no nonce, no free balance, and no code of any
/// length stands there. Each of the three alone keeps it from being empty.
pub proof fn law_empty_has_nothing<T: SystemConfig>(
    pallet: Pallet<T>,
    accounts: SystemAccounts<T>,
    address: H160,
    empty: bool,
    code: Vec<u8>,
)
    requires
        call_ensures(Pallet::<T>::is_account_empty, (&pallet, &accounts, &address), empty),
        call_ensures(Pallet::<T>::account_codes, (&pallet, &address), code),
    ensures
        ({
            let who = T::AddressMapping::account_of(address);
            let known = accounts@.contains_key(who);
            &&& known && accounts@[who].nonce.value() != 0 ==> !empty
            &&& known && accounts@[who].free_balance.value() != 0 ==> !empty
            &&& code@.len() != 0 ==> !empty
            &&& (!known || (accounts@[who].nonce.value() == 0
                && accounts@[who].free_balance.value() == 0)) && code@.len() == 0 ==> empty
        }),
{
}

/// Removing an account leaves neither code nor storage words at its address. At every other address
/// all stays, and so do the addresses of rewards and what was reported. Where code stood, even code
/// of no length, one fewer is to rely on the account of the address, and otherwise nothing is
/// asked.
pub proof fn law_removal_of_an_account<T: SystemConfig>(
    pallet: &mut Pallet<T>,
    address: H160,
    change: ReferenceChange<T::AccountId>,
    other: H160,
    index: H256,
)
    requires
        call_ensures(Pallet::<T>::remove_account, (pallet, &address), change),
    ensures
        !final(pallet)@.codes.contains_key(address),
        !final(pallet)@.storages.contains_key((address, index)),
        other != address ==> {
            &&& final(pallet)@.codes.contains_key(other) == old(pallet)@.codes.contains_key(other)
            &&& old(pallet)@.codes.contains_key(other) ==> final(pallet)@.codes[other]
                == old(pallet)@.codes[other]
            &&& final(pallet)@.storages.contains_key((other, index))
                == old(pallet)@.storages.contains_key((other, index))
            &&& old(pallet)@.storages.contains_key((other, index)) ==> final(pallet)@.storages[(
                other,
                index,
            )] == old(pallet)@.storages[(other, index)]
        },
        final(pallet)@.eth_addrs == old(pallet)@.eth_addrs,
        final(pallet)@.events == old(pallet)@.events,
        old(pallet)@.codes.contains_key(address) ==> change == ReferenceChange::Decrement(
            T::AddressMapping::account_of(address),
        ),
        !old(pallet)@.codes.contains_key(address) ==> change is Unchanged,
{
}

/// Removing an account if it is empty removes it where it has neither nonce nor free balance nor
/// code of any length, and changes nothing and asks for nothing where it has one of them.
pub proof fn law_only_the_empty_are_removed<T: SystemConfig>(
    pallet: &mut Pallet<T>,
    accounts: SystemAccounts<T>,
    address: H160,
    change: ReferenceChange<T::AccountId>,
    other: H160,
    index: H256,
)
    requires
        call_ensures(Pallet::<T>::remove_account_if_empty, (pallet, &accounts, &address), change),
    ensures
        ({
            let who = T::AddressMapping::account_of(address);
            let held = accounts@.contains_key(who) && (accounts@[who].nonce.value() != 0
                || accounts@[who].free_balance.value() != 0);
            let coded = old(pallet)@.codes.contains_key(address);
            if held || (coded && old(pallet)@.codes[address].len() != 0) {
                &&& final(pallet)@ == old(pallet)@
                &&& change is Unchanged
            } else {
                &&& !final(pallet)@.codes.contains_key(address)
                &&& !final(pallet)@.storages.contains_key((address, index))
                &&& coded ==> change == ReferenceChange::Decrement(who)
                &&& !coded ==> change is Unchanged
                &&& other != address ==> {
                    &&& final(pallet)@.codes.contains_key(other)
                        == old(pallet)@.codes.contains_key(other)
                    &&& old(pallet)@.codes.contains_key(other) ==> final(pallet)@.codes[other]
                        == old(pallet)@.codes[other]
                    &&& final(pallet)@.storages.contains_key((other, index))
                        == old(pallet)@.storages.contains_key((other, index))
                    &&& old(pallet)@.storages.contains_key((other, index))
                        ==> final(pallet)@.storages[(other, index)]
                        == old(pallet)@.storages[(other, index)]
                }
                &&& final(pallet)@.eth_addrs == old(pallet)@.eth_addrs
                &&& final(pallet)@.events == old(pallet)@.events
            }
        }),
{
}

/// Creating an account places code of some length at its address and nothing else, and code of no
/// length changes nothing. One more is to rely on the account of the address exactly where code of
/// some length came to an address that had none, and otherwise nothing is asked.
pub proof fn law_creation_of_an_account<T: SystemConfig>(
    pallet: &mut Pallet<T>,
    address: H160,
    code: Vec<u8>,
    change: ReferenceChange<T::AccountId>,
    other: H160,
)
    requires
        call_ensures(Pallet::<T>::create_account, (pallet, address, code), change),
    ensures
        code@.len() == 0 ==> final(pallet)@ == old(pallet)@ && change is Unchanged,
        code@.len() != 0 ==> {
            &&& final(pallet)@.codes.contains_key(address)
            &&& final(pallet)@.codes[address] == code@
            &&& old(pallet)@.codes.contains_key(address) ==> change is Unchanged
            &&& !old(pallet)@.codes.contains_key(address) ==> change == ReferenceChange::Increment(
                T::AddressMapping::account_of(address),
            )
        },
        other != address ==> {
            &&& final(pallet)@.codes.contains_key(other) == old(pallet)@.codes.contains_key(other)
            &&& old(pallet)@.codes.contains_key(other) ==> final(pallet)@.codes[other]
                == old(pallet)@.codes[other]
        },
        final(pallet)@.storages == old(pallet)@.storages,
        final(pallet)@.eth_addrs == old(pallet)@.eth_addrs,
        final(pallet)@.events == old(pallet)@.events,
{
}

/// An account that was recorded is read as it was recorded, through the address whose account it
/// is.
pub proof fn law_recorded_account_is_read<T: SystemConfig>(
    accounts: &mut SystemAccounts<T>,
    address: H160,
    nonce: T::Nonce,
    free_balance: T::Balance,
    account: Account,
)
    requires
        call_ensures(
            SystemAccounts::<T>::record,
            (accounts, T::AddressMapping::account_of(address), nonce, free_balance),
            (),
        ),
        call_ensures(Pallet::<T>::account_basic, (&*final(accounts), &address), account),
        nonce.value() <= u128::MAX,
        free_balance.value() <= u128::MAX,
    ensures
        account.nonce@ == nonce.value(),
        account.balance@ == free_balance.value(),
{
}

} // verus!
