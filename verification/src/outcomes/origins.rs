//! Who may act for an address.

use crate::origin::{
    ensure_signed, BadOrigin, EnsureAddressNever, EnsureAddressOrigin, EnsureAddressRoot,
    EnsureAddressSame, EnsureAddressTruncated, OuterOrigin, RawOrigin,
};
use crate::primitives::{AccountId32, H160};
use vstd::prelude::*;

verus! {

/// A signed origin gives the account that signed, and every other origin is bad.
pub proof fn law_signed_origins<O: OuterOrigin<A>, A>(origin: O, result: Result<A, BadOrigin>)
    requires
        call_ensures(ensure_signed::<O, A>, (origin,), result),
    ensures
        match origin.as_raw() {
            Ok(RawOrigin::Signed(who)) => result == Ok::<A, BadOrigin>(who),
            Ok(RawOrigin::Root) => result is Err,
            Ok(RawOrigin::Nobody) => result is Err,
            Err(_) => result is Err,
        },
{
}

/// The system's origins are themselves.
pub proof fn law_system_origins<A>(origin: RawOrigin<A>)
    ensures
        origin.as_raw() == Ok::<RawOrigin<A>, RawOrigin<A>>(origin),
        RawOrigin::<A>::of_raw(origin) == origin,
{
}

/// Turning an origin into one of the system's and back is what the runtime says it is.
pub proof fn law_outer_origins<O: OuterOrigin<A>, A>(
    origin: O,
    inner: Result<RawOrigin<A>, O>,
    raw: RawOrigin<A>,
    outer: O,
)
    requires
        call_ensures(O::into_raw, (origin,), inner),
        call_ensures(O::from_raw, (raw,), outer),
    ensures
        inner == origin.as_raw(),
        outer == O::of_raw(raw),
{
}

/// The holder of an account may act for the address that has, byte for byte, the account's own
/// bytes. Nobody else may, and a refused origin is handed back.
pub proof fn law_same_bytes_act<O: OuterOrigin<H160>>(
    address: H160,
    origin: O,
    answer: Result<H160, O>,
)
    requires
        <EnsureAddressSame as EnsureAddressOrigin<O>>::may_answer(address, origin, answer),
    ensures
        match origin.as_raw() {
            Ok(RawOrigin::Signed(who)) => {
                &&& (forall|i: int| 0 <= i < 20 ==> who.0@[i] == address.0@[i]) ==> answer == Ok::<
                    H160,
                    O,
                >(who)
                &&& (exists|i: int| 0 <= i < 20 && who.0@[i] != address.0@[i]) ==> answer == Err::<
                    H160,
                    O,
                >(O::of_raw(RawOrigin::Signed(who)))
            },
            Ok(RawOrigin::Root) => answer == Err::<H160, O>(O::of_raw(RawOrigin::Root)),
            Ok(RawOrigin::Nobody) => answer == Err::<H160, O>(O::of_raw(RawOrigin::Nobody)),
            Err(other) => answer == Err::<H160, O>(other),
        },
{
    if let Ok(RawOrigin::Signed(who)) = origin.as_raw() {
        if forall|i: int| 0 <= i < 20 ==> who.0@[i] == address.0@[i] {
            assert(who.0 =~= address.0);
        }
    }
}

/// The holder of an account may act for the address whose 20 bytes are, in their order, the first
/// 20 bytes of the account. Nobody else may, and a refused origin is handed back.
pub proof fn law_first_bytes_act<O: OuterOrigin<AccountId32>>(
    address: H160,
    origin: O,
    answer: Result<AccountId32, O>,
)
    requires
        <EnsureAddressTruncated as EnsureAddressOrigin<O>>::may_answer(address, origin, answer),
    ensures
        match origin.as_raw() {
            Ok(RawOrigin::Signed(who)) => {
                &&& (forall|i: int| 0 <= i < 20 ==> who.0@[i] == address.0@[i]) ==> answer == Ok::<
                    AccountId32,
                    O,
                >(who)
                &&& (exists|i: int| 0 <= i < 20 && who.0@[i] != address.0@[i]) ==> answer == Err::<
                    AccountId32,
                    O,
                >(O::of_raw(RawOrigin::Signed(who)))
            },
            Ok(RawOrigin::Root) => answer == Err::<AccountId32, O>(O::of_raw(RawOrigin::Root)),
            Ok(RawOrigin::Nobody) => answer == Err::<AccountId32, O>(
                O::of_raw(RawOrigin::Nobody),
            ),
            Err(other) => answer == Err::<AccountId32, O>(other),
        },
{
    if let Ok(RawOrigin::Signed(who)) = origin.as_raw() {
        if forall|i: int| 0 <= i < 20 ==> who.0@[i] == address.0@[i] {
            assert(who.0@.subrange(0, 20) =~= address.0@);
        }
        if exists|i: int| 0 <= i < 20 && who.0@[i] != address.0@[i] {
            let i = choose|i: int| 0 <= i < 20 && who.0@[i] != address.0@[i];
            assert(who.0@.subrange(0, 20)[i] != address.0@[i]);
        }
    }
}

/// The runtime itself may act for any address. Nobody else may, and a refused origin is handed
/// back.
pub proof fn law_root_acts<O: OuterOrigin<A>, A>(address: H160, origin: O, answer: Result<(), O>)
    requires
        <EnsureAddressRoot<A> as EnsureAddressOrigin<O>>::may_answer(address, origin, answer),
    ensures
        match origin.as_raw() {
            Ok(RawOrigin::Root) => answer == Ok::<(), O>(()),
            Ok(RawOrigin::Signed(who)) => answer == Err::<(), O>(
                O::of_raw(RawOrigin::Signed(who)),
            ),
            Ok(RawOrigin::Nobody) => answer == Err::<(), O>(O::of_raw(RawOrigin::Nobody)),
            Err(other) => answer == Err::<(), O>(other),
        },
{
}

/// Where nobody may act, every origin is handed back.
pub proof fn law_nobody_acts<O, A>(address: H160, origin: O, answer: Result<A, O>)
    requires
        <EnsureAddressNever<A> as EnsureAddressOrigin<O>>::may_answer(address, origin, answer),
    ensures
        answer == Err::<A, O>(origin),
{
}

/// Checking an origin gives what the rule yields for it where the rule accepts it, and an error
/// where it does not.
pub proof fn law_checks_follow_the_rule<O, R: EnsureAddressOrigin<O>>(
    address: H160,
    origin: O,
    tried: Result<R::Success, O>,
    checked: Result<R::Success, BadOrigin>,
)
    requires
        call_ensures(R::try_address_origin, (&address, origin), tried),
        call_ensures(R::ensure_address_origin, (&address, origin), checked),
    ensures
        R::may_answer(address, origin, tried),
        exists|answer: Result<R::Success, O>| #[trigger]
            R::may_answer(address, origin, answer) && match answer {
                Ok(success) => checked == Ok::<R::Success, BadOrigin>(success),
                Err(_) => checked is Err,
            },
{
}

} // verus!
