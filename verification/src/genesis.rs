//! The accounts of the first block.

use crate::amount::{currency_sum, to_currency, Amount};
use crate::config::SystemConfig;
use crate::map::{entries_to_map, lemma_next_entry, strictly_increasing, OrderedMap};
use crate::mapping::AddressMapping;
use crate::pallet::{Pallet, PalletView};
use crate::primitives::{low_128, H160, H256, U256};
use vstd::prelude::*;

verus! {

/// An account of the first block.
pub struct GenesisAccount {
    pub nonce: U256,
    pub balance: U256,
    /// The storage words of the contract.
    pub storage: OrderedMap<H256, H256>,
    /// The code of the contract.
    pub code: Vec<u8>,
}

/// The accounts of the first block, by address.
pub struct GenesisConfig {
    pub accounts: OrderedMap<H160, GenesisAccount>,
}

impl Default for GenesisConfig {
    /// No accounts.
    fn default() -> (r: Self)
        ensures
            r.accounts.entries() == Seq::<(H160, GenesisAccount)>::empty(),
            r.accounts@ == Map::<H160, GenesisAccount>::empty(),
    {
        GenesisConfig { accounts: OrderedMap::new() }
    }
}

/// What the runtime is to do for the first block.
#[derive(Debug, PartialEq, Eq)]
pub enum GenesisAction<AccountId, Balance> {
    /// Count one transaction more for the account.
    IncrementNonce(AccountId),
    /// Put a sum on the account, and create the account where it does not exist.
    DepositCreating { who: AccountId, amount: Balance },
}

/// The count of one transaction more for the account of an address.
pub open spec fn nonce_increment<T: SystemConfig>(address: H160) -> GenesisAction<
    T::AccountId,
    T::Balance,
> {
    GenesisAction::IncrementNonce(T::AddressMapping::account_of(address))
}

/// The deposit of an account of the first block.
pub open spec fn genesis_deposit<T: SystemConfig>(
    address: H160,
    account: GenesisAccount,
) -> GenesisAction<T::AccountId, T::Balance> {
    GenesisAction::DepositCreating {
        who: T::AddressMapping::account_of(address),
        amount: T::Balance::of(currency_sum::<T::Balance>(account.balance)),
    }
}

/// What an account of the first block asks of the runtime while `increments` transactions are
/// still to be counted: to count them, then to deposit the balance.
pub open spec fn account_actions<T: SystemConfig>(
    entry: (H160, GenesisAccount),
    increments: nat,
) -> Seq<GenesisAction<T::AccountId, T::Balance>> {
    Seq::new(increments, |i: int| nonce_increment::<T>(entry.0)).push(
        genesis_deposit::<T>(entry.0, entry.1),
    )
}

/// What the accounts of the first block ask of the runtime, one account after the other.
pub open spec fn genesis_actions<T: SystemConfig>(entries: Seq<(H160, GenesisAccount)>) -> Seq<
    GenesisAction<T::AccountId, T::Balance>,
>
    decreases entries.len(),
{
    if entries.len() == 0 {
        Seq::empty()
    } else {
        account_actions::<T>(entries[0], low_128(entries[0].1.nonce@)) + genesis_actions::<T>(
            entries.skip(1),
        )
    }
}

/// What the pallet holds once an account of the first block is written: its code, even code of no
/// length, and its storage words.
pub open spec fn with_genesis_account<AccountId>(
    before: PalletView<AccountId>,
    entry: (H160, GenesisAccount),
) -> PalletView<AccountId> {
    before.with_code(entry.0, entry.1.code@).with_words(entry.0, entry.1.storage@)
}

/// What the pallet holds once the accounts of the first block are written.
pub open spec fn with_genesis<AccountId>(
    before: PalletView<AccountId>,
    entries: Seq<(H160, GenesisAccount)>,
) -> PalletView<AccountId>
    decreases entries.len(),
{
    if entries.len() == 0 {
        before
    } else {
        with_genesis_account(with_genesis(before, entries.drop_last()), entries.last())
    }
}

/// The building of the first block, which asks the runtime for one thing at a time.
pub struct GenesisBuild<'a> {
    config: &'a GenesisConfig,
    position: usize,
    increments: u128,
}

/// One step of the building: `action` comes first of what was still to be asked for, and the rest
/// is left. While transactions are still to be counted the pallet stays as it is. Otherwise the
/// next account is written.
pub open spec fn genesis_step<T: SystemConfig>(
    build: GenesisBuild<'_>,
    before: PalletView<T::AccountId>,
    action: GenesisAction<T::AccountId, T::Balance>,
    rest: GenesisBuild<'_>,
    after: PalletView<T::AccountId>,
) -> bool {
    &&& !build.is_done()
    &&& rest.entries() == build.entries()
    &&& build.pending::<T>() == seq![action] + rest.pending::<T>()
    &&& build.increments() > 0 ==> {
        &&& rest.position() == build.position()
        &&& rest.increments() == build.increments() - 1
        &&& after == before
    }
    &&& build.increments() == 0 ==> {
        &&& rest.position() == build.position() + 1
        &&& after == with_genesis_account(before, build.entries()[build.position() as int])
        &&& !rest.is_done() ==> rest.increments() == low_128(
            rest.entries()[rest.position() as int].1.nonce@,
        )
    }
}

impl GenesisConfig {
    /// Starts to build the first block.
    pub fn build(&self) -> (r: GenesisBuild<'_>)
        ensures
            r.entries() == self.accounts.entries(),
            strictly_increasing(r.entries()),
            r.is_start(),
    {
        let increments: u128 = if self.accounts.len() > 0 {
            self.accounts.at(0).1.nonce.low_u128()
        } else {
            0
        };
        GenesisBuild { config: self, position: 0, increments }
    }
}

impl<'a> GenesisBuild<'a> {
    /// The accounts to write.
    pub closed spec fn entries(&self) -> Seq<(H160, GenesisAccount)> {
        self.config.accounts.entries()
    }

    /// The number of accounts that are written.
    pub closed spec fn position(&self) -> nat {
        self.position as nat
    }

    /// How many transactions are still to be counted for the account that comes next.
    pub closed spec fn increments(&self) -> nat {
        self.increments as nat
    }

    /// What is still to be asked of the runtime.
    pub open spec fn pending<T: SystemConfig>(&self) -> Seq<
        GenesisAction<T::AccountId, T::Balance>,
    > {
        if self.position() < self.entries().len() {
            account_actions::<T>(self.entries()[self.position() as int], self.increments())
                + genesis_actions::<T>(self.entries().skip(self.position() as int + 1))
        } else {
            Seq::empty()
        }
    }

    /// Nothing was asked for yet.
    pub open spec fn is_start(&self) -> bool {
        &&& self.position() == 0
        &&& self.entries().len() > 0 ==> self.increments() == low_128(self.entries()[0].1.nonce@)
    }

    /// Everything was asked for.
    pub open spec fn is_done(&self) -> bool {
        self.position() >= self.entries().len()
    }

    /// Goes on to the next thing to ask of the runtime. An account is written as its deposit is
    /// asked for.
    pub fn next<T: SystemConfig>(&mut self, pallet: &mut Pallet<T>) -> (r: Option<
        GenesisAction<T::AccountId, T::Balance>,
    >)
        ensures
            match r {
                None => {
                    &&& old(self).is_done()
                    &&& *final(self) == *old(self)
                    &&& *final(pallet) == *old(pallet)
                },
                Some(action) => genesis_step::<T>(
                    *old(self),
                    old(pallet)@,
                    action,
                    *final(self),
                    final(pallet)@,
                ),
            },
    {
        let total = self.config.accounts.len();
        if self.position >= total {
            return None;
        }
        let ghost entries = self.entries();
        let ghost here = self.position as int;
        let entry = self.config.accounts.at(self.position);
        let who = T::AddressMapping::into_account_id(entry.0);
        if self.increments > 0 {
            self.increments = self.increments - 1;
            proof {
                let action = nonce_increment::<T>(entry.0);
                assert(account_actions::<T>(*entry, old(self).increments()) =~= seq![action]
                    + account_actions::<T>(*entry, self.increments()));
                assert(old(self).pending::<T>() =~= seq![action] + self.pending::<T>());
            }
            return Some(GenesisAction::IncrementNonce(who));
        }
        let amount = to_currency::<T::Balance>(entry.1.balance);
        pallet.put_code(entry.0, entry.1.code.clone());
        let ghost coded = pallet@;
        let words = entry.1.storage.len();
        let mut i: usize = 0;
        assert(coded =~= coded.with_words(
            entry.0,
            entries_to_map(entry.1.storage.entries().take(0)),
        ));
        while i < words
            invariant
                i <= words,
                words == entry.1.storage.entries().len(),
                strictly_increasing(entry.1.storage.entries()),
                pallet@ == coded.with_words(
                    entry.0,
                    entries_to_map(entry.1.storage.entries().take(i as int)),
                ),
            decreases words - i,
        {
            let (index, word) = *entry.1.storage.at(i);
            pallet.put_word(entry.0, index, word);
            proof {
                lemma_next_entry(entry.1.storage.entries(), i as int);
                assert(pallet@ =~= coded.with_words(
                    entry.0,
                    entries_to_map(entry.1.storage.entries().take(i + 1)),
                ));
            }
            i = i + 1;
        }
        proof {
            assert(entry.1.storage.entries().take(words as int) =~= entry.1.storage.entries());
        }
        self.position = self.position + 1;
        self.increments = if self.position < total {
            self.config.accounts.at(self.position).1.nonce.low_u128()
        } else {
            0
        };
        proof {
            let action = genesis_deposit::<T>(entry.0, entry.1);
            assert(account_actions::<T>(*entry, 0) =~= seq![action]);
            let rest = entries.skip(here + 1);
            if here + 1 < entries.len() {
                assert(rest[0] == entries[here + 1]);
                assert(rest.skip(1) =~= entries.skip(here + 2));
            }
            assert(self.pending::<T>() =~= genesis_actions::<T>(rest));
        }
        Some(GenesisAction::DepositCreating { who, amount })
    }
}

} // verus!
