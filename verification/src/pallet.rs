//! The pallet's storage and the accounts in it.

use crate::amount::{least, Amount};
use crate::config::SystemConfig;
use crate::map::{lemma_finitely_many_keys, without_prefix, DoubleMap, OrderedMap};
use crate::mapping::AddressMapping;
use crate::primitives::{H160, H256, U256};
use crate::types::{Account, Event};
use vstd::prelude::*;

verus! {

/// What the pallet holds: for each account the address of its rewards, for each address the code
/// and the storage words of the contract there, and what was reported, in order.
#[verifier::ext_equal]
#[verifier::reject_recursive_types(AccountId)]
pub struct PalletView<AccountId> {
    pub eth_addrs: Map<AccountId, H160>,
    pub codes: Map<H160, Seq<u8>>,
    pub storages: Map<(H160, H256), H256>,
    pub events: Seq<Event<AccountId>>,
}

impl<AccountId> PalletView<AccountId> {
    /// Nothing is held.
    pub open spec fn empty() -> Self {
        PalletView {
            eth_addrs: Map::empty(),
            codes: Map::empty(),
            storages: Map::empty(),
            events: Seq::empty(),
        }
    }

    /// `event` is reported.
    pub open spec fn with_event(self, event: Event<AccountId>) -> Self {
        PalletView { events: self.events.push(event), ..self }
    }

    /// The account `who` names the address of its rewards.
    pub open spec fn with_eth_addr(self, who: AccountId, address: H160) -> Self {
        PalletView { eth_addrs: self.eth_addrs.insert(who, address), ..self }
    }

    /// `code` stands at `address`.
    pub open spec fn with_code(self, address: H160, code: Seq<u8>) -> Self {
        PalletView { codes: self.codes.insert(address, code), ..self }
    }

    /// The storage word of `address` at `index` is `word`.
    pub open spec fn with_word(self, address: H160, index: H256, word: H256) -> Self {
        PalletView { storages: self.storages.insert((address, index), word), ..self }
    }

    /// The storage words of `address` are `words` wherever `words` holds one.
    pub open spec fn with_words(self, address: H160, words: Map<H256, H256>) -> Self {
        PalletView {
            storages: Map::new(
                |slot: (H160, H256)|
                    self.storages.contains_key(slot) || (slot.0 == address && words.contains_key(
                        slot.1,
                    )),
                |slot: (H160, H256)|
                    if slot.0 == address && words.contains_key(slot.1) {
                        words[slot.1]
                    } else {
                        self.storages[slot]
                    },
            ),
            ..self
        }
    }

    /// Neither code nor storage words stand at `address`.
    pub open spec fn without_contract(self, address: H160) -> Self {
        PalletView {
            codes: self.codes.remove(address),
            storages: without_prefix(self.storages, address),
            ..self
        }
    }

    /// The length of the code at `address`, which is zero where there is none.
    pub open spec fn code_len(self, address: H160) -> nat {
        if self.codes.contains_key(address) {
            self.codes[address].len()
        } else {
            0
        }
    }
}

/// What the runtime is to do to the number of those who rely on an account.
#[derive(Debug, PartialEq, Eq)]
pub enum ReferenceChange<AccountId> {
    /// Leave it.
    Unchanged,
    /// Add one that relies on the account.
    Increment(AccountId),
    /// Take one away that relies on the account.
    Decrement(AccountId),
}

/// The nonce and the free balance of an account.
#[derive(Debug, PartialEq, Eq)]
pub struct AccountRecord<Nonce, Balance> {
    pub nonce: Nonce,
    pub free_balance: Balance,
}

/// What the runtime says of its accounts.
pub struct SystemAccounts<T: SystemConfig> {
    records: OrderedMap<T::AccountId, AccountRecord<T::Nonce, T::Balance>>,
}

impl<T: SystemConfig> View for SystemAccounts<T> {
    type V = Map<T::AccountId, AccountRecord<T::Nonce, T::Balance>>;

    closed spec fn view(&self) -> Map<T::AccountId, AccountRecord<T::Nonce, T::Balance>> {
        self.records@
    }
}

impl<T: SystemConfig> SystemAccounts<T> {
    /// The nonce of an account, which is zero where nothing is said of it.
    pub open spec fn nonce_of(&self, who: T::AccountId) -> nat {
        if self@.contains_key(who) {
            self@[who].nonce.value()
        } else {
            0
        }
    }

    /// The free balance of an account, which is zero where nothing is said of it.
    pub open spec fn free_balance_of(&self, who: T::AccountId) -> nat {
        if self@.contains_key(who) {
            self@[who].free_balance.value()
        } else {
            0
        }
    }

    /// Says nothing of any account.
    pub fn new() -> (r: Self)
        ensures
            r@ == Map::<T::AccountId, AccountRecord<T::Nonce, T::Balance>>::empty(),
    {
        SystemAccounts { records: OrderedMap::new() }
    }

    /// Says what an account has.
    pub fn record(&mut self, who: T::AccountId, nonce: T::Nonce, free_balance: T::Balance)
        ensures
            final(self)@ == old(self)@.insert(who, AccountRecord { nonce, free_balance }),
    {
        self.records.insert(who, AccountRecord { nonce, free_balance });
    }
}

/// The pallet.
pub struct Pallet<T: SystemConfig> {
    eth_addr_of: OrderedMap<T::AccountId, H160>,
    account_codes: OrderedMap<H160, Vec<u8>>,
    account_storages: DoubleMap<H160, H256, H256>,
    events: Vec<Event<T::AccountId>>,
}

impl<T: SystemConfig> View for Pallet<T> {
    type V = PalletView<T::AccountId>;

    closed spec fn view(&self) -> PalletView<T::AccountId> {
        PalletView {
            eth_addrs: self.eth_addr_of@,
            codes: self.account_codes@.map_values(|code: Vec<u8>| code@),
            storages: self.account_storages@,
            events: self.events@,
        }
    }
}

impl<T: SystemConfig> Pallet<T> {
    /// Code stands at finitely many addresses.
    pub proof fn law_finitely_many_contracts(self)
        ensures
            self@.codes.dom().finite(),
    {
        lemma_finitely_many_keys(self.account_codes.entries());
        assert(self@.codes.dom() =~= self.account_codes@.dom());
    }

    /// A pallet that holds nothing.
    pub fn new() -> (r: Self)
        ensures
            r@ == PalletView::<T::AccountId>::empty(),
    {
        let r = Pallet {
            eth_addr_of: OrderedMap::new(),
            account_codes: OrderedMap::new(),
            account_storages: DoubleMap::new(),
            events: Vec::new(),
        };
        assert(r@ =~= PalletView::<T::AccountId>::empty());
        r
    }

    /// The address of an account's block rewards.
    pub fn eth_addr(&self, who: &T::AccountId) -> (r: Option<H160>)
        ensures
            r == (if self@.eth_addrs.contains_key(*who) {
                Some(self@.eth_addrs[*who])
            } else {
                None
            }),
    {
        match self.eth_addr_of.get(who) {
            Some(address) => Some(*address),
            None => None,
        }
    }

    /// Whether code stands at an address, even code of no length.
    pub fn has_code(&self, address: &H160) -> (r: bool)
        ensures
            r == self@.codes.contains_key(*address),
    {
        self.account_codes.contains_key(address)
    }

    /// The code at an address, which is empty where there is none.
    pub fn account_codes(&self, address: &H160) -> (r: Vec<u8>)
        ensures
            self@.codes.contains_key(*address) ==> r@ == self@.codes[*address],
            !self@.codes.contains_key(*address) ==> r@.len() == 0,
    {
        match self.account_codes.get(address) {
            Some(code) => code.clone(),
            None => Vec::new(),
        }
    }

    /// The storage word of an address at an index, which is zero where there is none.
    pub fn account_storages(&self, address: &H160, index: &H256) -> (r: H256)
        ensures
            self@.storages.contains_key((*address, *index)) ==> r == self@.storages[(
                *address,
                *index,
            )],
            !self@.storages.contains_key((*address, *index)) ==> r.is_zero(),
    {
        match self.account_storages.get(address, index) {
            Some(word) => *word,
            None => H256::zero(),
        }
    }

    /// Whether an address has a storage word at an index, even one that is zero.
    pub fn has_word(&self, address: &H160, index: &H256) -> (r: bool)
        ensures
            r == self@.storages.contains_key((*address, *index)),
    {
        self.account_storages.get(address, index).is_some()
    }

    /// What was reported so far.
    pub fn events(&self) -> (r: &Vec<Event<T::AccountId>>)
        ensures
            r@ == self@.events,
    {
        &self.events
    }

    /// Takes out what was reported so far, to hand it to the runtime.
    pub fn take_events(&mut self) -> (r: Vec<Event<T::AccountId>>)
        ensures
            r@ == old(self)@.events,
            final(self)@ == (PalletView { events: Seq::empty(), ..old(self)@ }),
    {
        let mut events: Vec<Event<T::AccountId>> = Vec::new();
        std::mem::swap(&mut events, &mut self.events);
        events
    }

    /// Reports an event.
    pub fn deposit_event(&mut self, event: Event<T::AccountId>)
        ensures
            final(self)@ == old(self)@.with_event(event),
    {
        self.events.push(event);
    }

    /// Records the address of an account's block rewards.
    pub fn put_eth_addr(&mut self, who: T::AccountId, address: H160)
        ensures
            final(self)@ == old(self)@.with_eth_addr(who, address),
    {
        self.eth_addr_of.insert(who, address);
    }

    /// Places code at an address.
    pub fn put_code(&mut self, address: H160, code: Vec<u8>)
        ensures
            final(self)@ == old(self)@.with_code(address, code@),
    {
        self.account_codes.insert(address, code);
        assert(self@ =~= old(self)@.with_code(address, code@));
    }

    /// Writes a storage word of an address.
    pub fn put_word(&mut self, address: H160, index: H256, word: H256)
        ensures
            final(self)@ == old(self)@.with_word(address, index, word),
    {
        self.account_storages.insert(address, index, word);
    }

    /// The nonce and the balance of an address: those of its account.
    pub fn account_basic(accounts: &SystemAccounts<T>, address: &H160) -> (r: Account)
        ensures
            r.nonce@ == least(
                accounts.nonce_of(T::AddressMapping::account_of(*address)),
                u128::MAX as nat,
            ),
            r.balance@ == least(
                accounts.free_balance_of(T::AddressMapping::account_of(*address)),
                u128::MAX as nat,
            ),
    {
        let account_id = T::AddressMapping::into_account_id(*address);
        let (nonce, balance): (u128, u128) = match accounts.records.get(&account_id) {
            Some(record) => (
                record.nonce.saturated_into(),
                record.free_balance.saturated_into(),
            ),
            None => (0, 0),
        };
        Account { nonce: U256::from_u128(nonce), balance: U256::from_u128(balance) }
    }

    /// An address is empty where its account has neither nonce nor balance and no code of any
    /// length stands there.
    pub open spec fn empty_at(&self, accounts: &SystemAccounts<T>, address: H160) -> bool {
        let who = T::AddressMapping::account_of(address);
        accounts.nonce_of(who) == 0 && accounts.free_balance_of(who) == 0 && self@.code_len(
            address,
        ) == 0
    }

    /// Checks whether an address is empty.
    pub fn is_account_empty(&self, accounts: &SystemAccounts<T>, address: &H160) -> (r: bool)
        ensures
            r == self.empty_at(accounts, *address),
    {
        let account = Self::account_basic(accounts, address);
        let code_len: usize = match self.account_codes.get(address) {
            Some(code) => code.len(),
            None => 0,
        };
        account.nonce.is_zero() && account.balance.is_zero() && code_len == 0
    }

    /// Removes the contract at an address if the address is empty.
    pub fn remove_account_if_empty(
        &mut self,
        accounts: &SystemAccounts<T>,
        address: &H160,
    ) -> (change: ReferenceChange<T::AccountId>)
        ensures
            old(self).empty_at(accounts, *address) ==> {
                &&& final(self)@ == old(self)@.without_contract(*address)
                &&& change == removal_change::<T>(old(self)@, *address)
            },
            !old(self).empty_at(accounts, *address) ==> {
                &&& final(self)@ == old(self)@
                &&& change == ReferenceChange::<T::AccountId>::Unchanged
            },
    {
        if self.is_account_empty(accounts, address) {
            self.remove_account(address)
        } else {
            ReferenceChange::Unchanged
        }
    }

    /// Removes the contract at an address. Where code stood there, even code of no length, the
    /// account of the address is relied on by one fewer.
    pub fn remove_account(&mut self, address: &H160) -> (change: ReferenceChange<T::AccountId>)
        ensures
            final(self)@ == old(self)@.without_contract(*address),
            change == removal_change::<T>(old(self)@, *address),
    {
        let change = if self.account_codes.contains_key(address) {
            ReferenceChange::Decrement(T::AddressMapping::into_account_id(*address))
        } else {
            ReferenceChange::Unchanged
        };
        self.account_codes.remove(address);
        self.account_storages.remove_prefix(address);
        assert(self@ =~= old(self)@.without_contract(*address));
        change
    }

    /// Places code at an address. Where no code stood there, the account of the address is relied
    /// on by one more. Code of no length is not placed.
    pub fn create_account(&mut self, address: H160, code: Vec<u8>) -> (change: ReferenceChange<
        T::AccountId,
    >)
        ensures
            final(self)@ == after_creation(old(self)@, address, code@),
            change == creation_change::<T>(old(self)@, address, code@),
    {
        if code.is_empty() {
            return ReferenceChange::Unchanged;
        }
        let change = if !self.account_codes.contains_key(&address) {
            ReferenceChange::Increment(T::AddressMapping::into_account_id(address))
        } else {
            ReferenceChange::Unchanged
        };
        self.put_code(address, code);
        change
    }
}

/// What the pallet holds once `code` was to be placed at `address`.
pub open spec fn after_creation<AccountId>(
    before: PalletView<AccountId>,
    address: H160,
    code: Seq<u8>,
) -> PalletView<AccountId> {
    if code.len() == 0 {
        before
    } else {
        before.with_code(address, code)
    }
}

/// What placing `code` at `address` asks of the runtime.
pub open spec fn creation_change<T: SystemConfig>(
    before: PalletView<T::AccountId>,
    address: H160,
    code: Seq<u8>,
) -> ReferenceChange<T::AccountId> {
    if code.len() == 0 || before.codes.contains_key(address) {
        ReferenceChange::Unchanged
    } else {
        ReferenceChange::Increment(T::AddressMapping::account_of(address))
    }
}

/// What removing the contract at `address` asks of the runtime.
pub open spec fn removal_change<T: SystemConfig>(
    before: PalletView<T::AccountId>,
    address: H160,
) -> ReferenceChange<T::AccountId> {
    if before.codes.contains_key(address) {
        ReferenceChange::Decrement(T::AddressMapping::account_of(address))
    } else {
        ReferenceChange::Unchanged
    }
}

} // verus!
