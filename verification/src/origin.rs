//! Where a call comes from, and who may act for an address.

use crate::order::same_key;
use crate::primitives::{AccountId32, H160};
use std::marker::PhantomData;
use vstd::prelude::*;

verus! {

/// The origin of a call, as the runtime's system knows it.
#[derive(Debug, PartialEq, Eq)]
pub enum RawOrigin<AccountId> {
    /// The runtime itself.
    Root,
    /// The holder of an account.
    Signed(AccountId),
    /// No account and not the runtime.
    Nobody,
}

/// The origin of a call is not one that the call accepts.
#[derive(Clone, Copy, Debug, PartialEq, Eq, Structural)]
pub struct BadOrigin;

/// The runtime's own type of origins, of which the system's origins are a part.
pub trait OuterOrigin<AccountId>: Sized {
    /// The system's origin that this is, or the origin itself where it is none of the system's.
    spec fn as_raw(self) -> Result<RawOrigin<AccountId>, Self>;

    /// The runtime's origin for one of the system's.
    spec fn of_raw(raw: RawOrigin<AccountId>) -> Self;

    fn into_raw(self) -> (r: Result<RawOrigin<AccountId>, Self>)
        ensures
            r == self.as_raw(),
    ;

    fn from_raw(raw: RawOrigin<AccountId>) -> (r: Self)
        ensures
            r == Self::of_raw(raw),
    ;
}

impl<AccountId> OuterOrigin<AccountId> for RawOrigin<AccountId> {
    open spec fn as_raw(self) -> Result<RawOrigin<AccountId>, Self> {
        Ok(self)
    }

    open spec fn of_raw(raw: RawOrigin<AccountId>) -> Self {
        raw
    }

    fn into_raw(self) -> (r: Result<RawOrigin<AccountId>, Self>) {
        Ok(self)
    }

    fn from_raw(raw: RawOrigin<AccountId>) -> (r: Self) {
        raw
    }
}

/// The account whose holder signed, where the origin is a signed one.
pub open spec fn signer<O: OuterOrigin<AccountId>, AccountId>(origin: O) -> Option<AccountId> {
    match origin.as_raw() {
        Ok(RawOrigin::Signed(who)) => Some(who),
        _ => None,
    }
}

/// Accepts a signed origin and gives the account that signed.
pub fn ensure_signed<O: OuterOrigin<AccountId>, AccountId>(origin: O) -> (r: Result<
    AccountId,
    BadOrigin,
>)
    ensures
        r == (match signer::<O, AccountId>(origin) {
            Some(who) => Ok(who),
            None => Err(BadOrigin),
        }),
{
    match origin.into_raw() {
        Ok(RawOrigin::Signed(who)) => Ok(who),
        _ => Err(BadOrigin),
    }
}

/// The outcome of an origin check without the origin that a refusal hands back.
pub open spec fn without_origin<S, O>(answer: Result<S, O>) -> Result<S, BadOrigin> {
    match answer {
        Ok(success) => Ok(success),
        Err(_) => Err(BadOrigin),
    }
}

/// A rule for who may act for an address.
pub trait EnsureAddressOrigin<O> {
    /// What an accepted origin yields.
    type Success;

    /// What the rule may answer for an address and an origin: anything, unless it says more.
    open spec fn may_answer(address: H160, origin: O, answer: Result<Self::Success, O>) -> bool {
        true
    }

    /// Performs the origin check.
    fn ensure_address_origin(address: &H160, origin: O) -> (r: Result<Self::Success, BadOrigin>)
        ensures
            exists|answer: Result<Self::Success, O>|
                #[trigger] Self::may_answer(*address, origin, answer) && r == without_origin(
                    answer,
                ),
    {
        match Self::try_address_origin(address, origin) {
            Ok(success) => Ok(success),
            Err(_) => Err(BadOrigin),
        }
    }

    /// Tries the origin, and hands it back where it is refused.
    fn try_address_origin(address: &H160, origin: O) -> (r: Result<Self::Success, O>)
        ensures
            Self::may_answer(*address, origin, r),
    ;
}

/// Accepts the holder of the account that is the address itself.
pub struct EnsureAddressSame;

impl EnsureAddressSame {
    /// The rule's answer.
    pub open spec fn answer<O: OuterOrigin<H160>>(address: H160, origin: O) -> Result<H160, O> {
        match origin.as_raw() {
            Ok(RawOrigin::Signed(who)) if who == address => Ok(who),
            Ok(raw) => Err(O::of_raw(raw)),
            Err(other) => Err(other),
        }
    }
}

impl<O: OuterOrigin<H160>> EnsureAddressOrigin<O> for EnsureAddressSame {
    type Success = H160;

    open spec fn may_answer(address: H160, origin: O, answer: Result<H160, O>) -> bool {
        answer == EnsureAddressSame::answer(address, origin)
    }

    fn try_address_origin(address: &H160, origin: O) -> (r: Result<H160, O>) {
        match origin.into_raw() {
            Ok(RawOrigin::Signed(who)) => {
                if same_key(&who, address) {
                    Ok(who)
                } else {
                    Err(O::from_raw(RawOrigin::Signed(who)))
                }
            },
            Ok(raw) => Err(O::from_raw(raw)),
            Err(other) => Err(other),
        }
    }
}

/// Accepts the runtime itself.
pub struct EnsureAddressRoot<AccountId>(PhantomData<AccountId>);

impl<AccountId> EnsureAddressRoot<AccountId> {
    /// The rule's answer.
    pub open spec fn answer<O: OuterOrigin<AccountId>>(origin: O) -> Result<(), O> {
        match origin.as_raw() {
            Ok(RawOrigin::Root) => Ok(()),
            Ok(raw) => Err(O::of_raw(raw)),
            Err(other) => Err(other),
        }
    }
}

impl<O: OuterOrigin<AccountId>, AccountId> EnsureAddressOrigin<O> for EnsureAddressRoot<
    AccountId,
> {
    type Success = ();

    open spec fn may_answer(address: H160, origin: O, answer: Result<(), O>) -> bool {
        answer == EnsureAddressRoot::<AccountId>::answer(origin)
    }

    fn try_address_origin(_address: &H160, origin: O) -> (r: Result<(), O>) {
        match origin.into_raw() {
            Ok(RawOrigin::Root) => Ok(()),
            Ok(raw) => Err(O::from_raw(raw)),
            Err(other) => Err(other),
        }
    }
}

/// Accepts nobody.
pub struct EnsureAddressNever<AccountId>(PhantomData<AccountId>);

impl<O, AccountId> EnsureAddressOrigin<O> for EnsureAddressNever<AccountId> {
    type Success = AccountId;

    open spec fn may_answer(address: H160, origin: O, answer: Result<AccountId, O>) -> bool {
        answer == Err::<AccountId, O>(origin)
    }

    fn try_address_origin(_address: &H160, origin: O) -> (r: Result<AccountId, O>) {
        Err(origin)
    }
}

/// Accepts the holder of an account whose identifier begins with the address.
pub struct EnsureAddressTruncated;

/// The first 20 bytes of the account identifier are the address.
pub open spec fn begins_with_address(who: AccountId32, address: H160) -> bool {
    who.0@.subrange(0, 20) == address.0@
}

impl EnsureAddressTruncated {
    /// The rule's answer.
    pub open spec fn answer<O: OuterOrigin<AccountId32>>(address: H160, origin: O) -> Result<
        AccountId32,
        O,
    > {
        match origin.as_raw() {
            Ok(RawOrigin::Signed(who)) if begins_with_address(who, address) => Ok(who),
            Ok(raw) => Err(O::of_raw(raw)),
            Err(other) => Err(other),
        }
    }

    fn begins_with(who: &AccountId32, address: &H160) -> (r: bool)
        ensures
            r == begins_with_address(*who, *address),
    {
        let mut i: usize = 0;
        while i < 20
            invariant
                i <= 20,
                forall|j: int| 0 <= j < i ==> who.0@[j] == address.0@[j],
            decreases 20 - i,
        {
            if who.0[i] != address.0[i] {
                assert(who.0@.subrange(0, 20)[i as int] != address.0@[i as int]);
                return false;
            }
            i = i + 1;
        }
        assert(who.0@.subrange(0, 20) =~= address.0@);
        true
    }
}

impl<O: OuterOrigin<AccountId32>> EnsureAddressOrigin<O> for EnsureAddressTruncated {
    type Success = AccountId32;

    open spec fn may_answer(address: H160, origin: O, answer: Result<AccountId32, O>) -> bool {
        answer == EnsureAddressTruncated::answer(address, origin)
    }

    fn try_address_origin(address: &H160, origin: O) -> (r: Result<AccountId32, O>) {
        match origin.into_raw() {
            Ok(RawOrigin::Signed(who)) => {
                if EnsureAddressTruncated::begins_with(&who, address) {
                    Ok(who)
                } else {
                    Err(O::from_raw(RawOrigin::Signed(who)))
                }
            },
            Ok(raw) => Err(O::from_raw(raw)),
            Err(other) => Err(other),
        }
    }
}

} // verus!
