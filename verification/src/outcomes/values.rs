//! Numbers, keys, hashes, gas and the maps.

use crate::amount::{currency_sum, least, monus, to_currency, Amount};
use crate::gas::{FeeCalculator, GasWeightMapping};
use crate::map::{DoubleMap, OrderedMap};
use crate::mapping::{
    account_preimage, blake2_256, AddressMapping, BlakeTwo256, HashedAddressMapping, Hasher,
    IdentityAddressMapping,
};
use crate::order::{compare_bytes, same_key, Key, Order};
use crate::primitives::{low_128, AccountId32, H160, H256, U256};
use crate::types::{EVMCStatusCode, ExitReason, ExtendExitReason};
use vstd::prelude::*;

verus! {

/// The four words of a 256-bit number are its digits to the base of two to the power of 64, and
/// the lower half of the number is what its first two words make up.
pub proof fn law_words_are_digits(number: U256)
    ensures
        number@ == number.0[0] + 0x1_0000_0000_0000_0000int * number.0[1]
            + 0x1_0000_0000_0000_0000_0000_0000_0000_0000int * number.0[2]
            + 0x1_0000_0000_0000_0000_0000_0000_0000_0000_0000_0000_0000_0000int * number.0[3],
        low_128(number@) == number.0[0] + 0x1_0000_0000_0000_0000int * number.0[1],
{
    let low = number.0[0] + 0x1_0000_0000_0000_0000int * number.0[1];
    let high = number.0[2] + 0x1_0000_0000_0000_0000int * number.0[3];
    let base = 0x1_0000_0000_0000_0000_0000_0000_0000_0000int;
    assert(number@ == base * high + low);
    vstd::arithmetic::div_mod::lemma_fundamental_div_mod_converse(
        number@ as int,
        base,
        high,
        low,
    );
}

/// A number is zero exactly where each of its words is, and so is the number zero.
pub proof fn law_zero_has_zero_words(number: U256, verdict: bool, zero: U256, word: H256)
    requires
        call_ensures(U256::is_zero, (&number,), verdict),
        call_ensures(U256::zero, (), zero),
        call_ensures(H256::zero, (), word),
    ensures
        verdict <==> number.0[0] == 0 && number.0[1] == 0 && number.0[2] == 0 && number.0[3] == 0,
        zero.0[0] == 0 && zero.0[1] == 0 && zero.0[2] == 0 && zero.0[3] == 0,
        forall|i: int| 0 <= i < 32 ==> word.0@[i] == 0,
{
}

/// The smaller of two numbers is one of them and exceeds neither. A difference and what it leaves
/// make up the first number, and there is no difference where the second is the larger.
pub proof fn law_least_and_difference(a: nat, b: nat)
    ensures
        least(a, b) <= a,
        least(a, b) <= b,
        least(a, b) == a || least(a, b) == b,
        monus(a, b) + least(a, b) == a,
        a <= b ==> monus(a, b) == 0,
{
}

/// The amounts of the built-in types are their numbers, up to the largest of each type.
pub proof fn law_builtin_amounts(a: u32, b: u64, c: u128)
    ensures
        a.value() == a && <u32 as Amount>::max_value() == 0xffff_ffff && u32::of(a as nat) == a,
        b.value() == b && <u64 as Amount>::max_value() == 0xffff_ffff_ffff_ffff
            && u64::of(b as nat) == b,
        c.value() == c && <u128 as Amount>::max_value() == 0xffff_ffff_ffff_ffff_ffff_ffff_ffff_ffff
            && u128::of(c as nat) == c,
{
}

/// Conversions and differences of amounts are exact where the type holds them, and stop at its
/// bounds where it does not.
pub proof fn law_amounts_saturate<A: Amount>(
    n: u128,
    made: A,
    a: A,
    b: A,
    number: u128,
    difference: A,
    verdict: bool,
    nothing: A,
)
    requires
        call_ensures(A::saturated_from, (n,), made),
        call_ensures(A::saturated_into, (a,), number),
        call_ensures(A::saturating_sub, (a, b), difference),
        call_ensures(A::at_least, (a, b), verdict),
        call_ensures(A::zero, (), nothing),
    ensures
        n <= A::max_value() ==> made.value() == n,
        n > A::max_value() ==> made.value() == A::max_value(),
        a.value() <= u128::MAX ==> number == a.value(),
        a.value() > u128::MAX ==> number == u128::MAX,
        a.value() >= b.value() ==> difference.value() == a.value() - b.value(),
        a.value() < b.value() ==> difference.value() == 0,
        verdict <==> a.value() >= b.value(),
        nothing.value() == 0,
{
}

/// A 256-bit number stands for the sum that its first two words make up, or for the largest sum of
/// the currency where that is too much. Its other two words do not matter.
pub proof fn law_sum_of_the_lower_words<B: Amount>(number: U256, sum: B)
    requires
        call_ensures(to_currency::<B>, (number,), sum),
    ensures
        ({
            let low = number.0[0] + 0x1_0000_0000_0000_0000int * number.0[1];
            &&& low <= B::max_value() ==> sum.value() == low && currency_sum::<B>(number) == low
            &&& low > B::max_value() ==> sum.value() == B::max_value() && currency_sum::<B>(number)
                == B::max_value()
        }),
{
    law_words_are_digits(number);
}

/// Keys stand in the order of their first bytes that differ.
pub proof fn law_keys_stand_in_byte_order(
    a: H160,
    b: H160,
    c: H256,
    d: H256,
    e: AccountId32,
    f: AccountId32,
    k: int,
)
    ensures
        0 <= k < 20 && a.0@[k] < b.0@[k] && (forall|i: int| 0 <= i < k ==> a.0@[i] == b.0@[i])
            ==> a.precedes(b) && !b.precedes(a),
        0 <= k < 32 && c.0@[k] < d.0@[k] && (forall|i: int| 0 <= i < k ==> c.0@[i] == d.0@[i])
            ==> c.precedes(d) && !d.precedes(c),
        0 <= k < 32 && e.0@[k] < f.0@[k] && (forall|i: int| 0 <= i < k ==> e.0@[i] == f.0@[i])
            ==> e.precedes(f) && !f.precedes(e),
        !a.precedes(a) && !c.precedes(c) && !e.precedes(e),
{
    if 0 <= k < 20 && a.0@[k] < b.0@[k] && (forall|i: int| 0 <= i < k ==> a.0@[i] == b.0@[i]) {
        assert(crate::order::bytes_differ_at(a.0@, b.0@, k));
    }
    if 0 <= k < 32 && c.0@[k] < d.0@[k] && (forall|i: int| 0 <= i < k ==> c.0@[i] == d.0@[i]) {
        assert(crate::order::bytes_differ_at(c.0@, d.0@, k));
    }
    if 0 <= k < 32 && e.0@[k] < f.0@[k] && (forall|i: int| 0 <= i < k ==> e.0@[i] == f.0@[i]) {
        assert(crate::order::bytes_differ_at(e.0@, f.0@, k));
    }
}

/// Comparing keys says which stands first, and that two keys are the same exactly where they are.
pub proof fn law_comparison_of_keys<K: Key>(a: K, b: K, order: Order, verdict: bool, copy: K)
    requires
        call_ensures(K::compare, (&a, &b), order),
        call_ensures(same_key::<K>, (&a, &b), verdict),
        call_ensures(K::duplicate, (&a,), copy),
    ensures
        order == Order::Equal <==> a == b,
        order == Order::Less <==> a.precedes(b),
        order == Order::Greater <==> b.precedes(a),
        verdict <==> a == b,
        copy == a,
{
    a.irreflexive();
    if a.precedes(b) && b.precedes(a) {
        a.transitive(b, a);
    }
}

/// Byte strings of one length compare by their first bytes that differ.
pub proof fn law_comparison_of_bytes(a: &[u8], b: &[u8], order: Order, k: int)
    requires
        a@.len() == b@.len(),
        call_ensures(compare_bytes, (a, b), order),
        0 <= k < a@.len(),
        forall|i: int| 0 <= i < k ==> a@[i] == b@[i],
    ensures
        a@[k] < b@[k] ==> order == Order::Less,
        a@[k] > b@[k] ==> order == Order::Greater,
        k == a@.len() - 1 && a@[k] == b@[k] ==> order == Order::Equal,
{
    if k == a@.len() - 1 && a@[k] == b@[k] {
        assert(a@ =~= b@);
    }
}

/// The bytes hashed for an address are the letters `e`, `v`, `m`, a colon, and then the bytes of
/// the address in their order. The account of the address is their digest.
pub proof fn law_hashed_account<H: Hasher>(address: H160, data: [u8; 24])
    requires
        call_ensures(account_preimage, (&address,), data),
    ensures
        data@[0] == 'e' as u8 && data@[1] == 'v' as u8 && data@[2] == 'm' as u8 && data@[3]
            == ':' as u8,
        forall|i: int| 0 <= i < 20 ==> data@[i + 4] == #[trigger] address.0@[i],
        HashedAddressMapping::<H>::account_of(address) == AccountId32(H::digest(data@)),
{
    assert forall|i: int| 0 <= i < 20 implies data@[i + 4] == #[trigger] address.0@[i] by {
    }
}

/// The account of an address under the identity is the address, and the digests of BLAKE2b are
/// those that the runtime's hash function gives.
pub proof fn law_identity_account_and_blake2(address: H160, data: Seq<u8>)
    ensures
        IdentityAddressMapping::account_of(address) == address,
        BlakeTwo256::digest(data) == blake2_256(data),
{
}

/// A mapping gives the account of an address, and a hash function the digest of a byte string.
pub proof fn law_mappings_and_hashes<A, M: AddressMapping<A>, H: Hasher>(
    address: H160,
    who: A,
    data: &[u8],
    digest: [u8; 32],
)
    requires
        call_ensures(M::into_account_id, (address,), who),
        call_ensures(H::hash, (data,), digest),
    ensures
        who == M::account_of(address),
        digest == H::digest(data@),
{
}

/// Without a mapping of its own, a runtime weighs each unit of gas as one.
pub proof fn law_unit_weights(gas: u64, weight: u64)
    ensures
        <() as GasWeightMapping>::weight_of(gas) == gas,
        <() as GasWeightMapping>::gas_of(weight) == weight,
{
}

/// A mapping of gas turns gas into its weight, and weight into its gas.
pub proof fn law_weights<M: GasWeightMapping>(gas: u64, weight: u64, weighed: u64, bought: u64)
    requires
        call_ensures(M::gas_to_weight, (gas,), weighed),
        call_ensures(M::weight_to_gas, (weight,), bought),
    ensures
        weighed == M::weight_of(gas),
        bought == M::gas_of(weight),
{
}

/// Without a calculator of its own, a runtime gives gas away.
pub proof fn law_unit_gas_price(price: U256)
    requires
        call_ensures(<() as FeeCalculator>::min_gas_price, (), price),
    ensures
        price.0[0] == 0 && price.0[1] == 0 && price.0[2] == 0 && price.0[3] == 0,
{
}

/// An execution succeeded exactly where the one engine says that it did, however it came to its
/// end, or the other gives the status of success. A fault, a revert and every other status is a
/// failure.
pub proof fn law_endings(ending: ExtendExitReason, verdict: bool)
    requires
        call_ensures(ExtendExitReason::is_succeed, (&ending,), verdict),
    ensures
        verdict == ending.succeeded(),
        match ending {
            ExtendExitReason::ExitReason(ExitReason::Succeed(_)) => verdict,
            ExtendExitReason::ExitReason(ExitReason::Error) => !verdict,
            ExtendExitReason::ExitReason(ExitReason::Revert) => !verdict,
            ExtendExitReason::ExitReason(ExitReason::Fatal) => !verdict,
            ExtendExitReason::EVMCStatusCode(EVMCStatusCode::EvmcSuccess) => verdict,
            ExtendExitReason::EVMCStatusCode(EVMCStatusCode::EvmcOther(_)) => !verdict,
        },
{
}

/// What was inserted for a key is what the map gives for it, and for any other key the map gives
/// what it gave before.
pub proof fn law_map_insertion<K: Key, V>(
    map: &mut OrderedMap<K, V>,
    key: K,
    value: V,
    other: K,
    before: Option<&V>,
    after: Option<&V>,
    present: bool,
)
    requires
        call_ensures(OrderedMap::<K, V>::insert, (map, key, value), ()),
        call_ensures(OrderedMap::<K, V>::get, (&*old(map), &other), before),
        call_ensures(OrderedMap::<K, V>::get, (&*final(map), &other), after),
        call_ensures(OrderedMap::<K, V>::contains_key, (&*final(map), &other), present),
    ensures
        other == key ==> after == Some(&value),
        other != key ==> after == before,
        present <==> after is Some,
{
}

/// What was removed for a key is what the map gave for it. The map gives nothing for the key from
/// then on, and for any other key what it gave before.
pub proof fn law_map_removal<K: Key, V>(
    map: &mut OrderedMap<K, V>,
    key: K,
    removed: Option<V>,
    other: K,
    before: Option<&V>,
    after: Option<&V>,
)
    requires
        call_ensures(OrderedMap::<K, V>::remove, (map, &key), removed),
        call_ensures(OrderedMap::<K, V>::get, (&*old(map), &other), before),
        call_ensures(OrderedMap::<K, V>::get, (&*final(map), &other), after),
    ensures
        other == key ==> after is None,
        other == key ==> removed is Some == before is Some,
        other == key && removed is Some ==> before == Some(&removed->0),
        other != key ==> after == before,
{
}

/// A new map gives nothing for any key. The entries of a map stand in the order of their keys, and
/// the map gives for each key the value of its entry.
pub proof fn law_map_entries<K: Key, V>(
    empty: OrderedMap<K, V>,
    key: K,
    nothing: Option<&V>,
    none: usize,
    map: OrderedMap<K, V>,
    len: usize,
    i: usize,
    j: usize,
    one: &(K, V),
    two: &(K, V),
    value: Option<&V>,
)
    requires
        call_ensures(OrderedMap::<K, V>::new, (), empty),
        call_ensures(OrderedMap::<K, V>::get, (&empty, &key), nothing),
        call_ensures(OrderedMap::<K, V>::len, (&empty,), none),
        call_ensures(OrderedMap::<K, V>::len, (&map,), len),
        i < j < len,
        call_ensures(OrderedMap::<K, V>::at, (&map, i), one),
        call_ensures(OrderedMap::<K, V>::at, (&map, j), two),
        call_ensures(OrderedMap::<K, V>::get, (&map, &one.0), value),
    ensures
        nothing is None,
        none == 0,
        one.0.precedes(two.0),
        value == Some(&one.1),
{
    crate::map::lemma_entry_value(map.entries(), i as int);
}

/// What was inserted for a pair of keys is what the map gives for it, and for any other pair the
/// map gives what it gave before.
pub proof fn law_double_map_insertion<K1: Key, K2: Key, V>(
    map: &mut DoubleMap<K1, K2, V>,
    key: (K1, K2),
    value: V,
    other: (K1, K2),
    before: Option<&V>,
    after: Option<&V>,
)
    requires
        call_ensures(DoubleMap::<K1, K2, V>::insert, (map, key.0, key.1, value), ()),
        call_ensures(DoubleMap::<K1, K2, V>::get, (&*old(map), &other.0, &other.1), before),
        call_ensures(DoubleMap::<K1, K2, V>::get, (&*final(map), &other.0, &other.1), after),
    ensures
        other == key ==> after == Some(&value),
        other != key ==> after == before,
{
}

/// Removing a first key takes out every pair that has it, and no other pair.
pub proof fn law_double_map_removal<K1: Key, K2: Key, V>(
    map: &mut DoubleMap<K1, K2, V>,
    first: K1,
    other: (K1, K2),
    before: Option<&V>,
    after: Option<&V>,
    empty: DoubleMap<K1, K2, V>,
    nothing: Option<&V>,
)
    requires
        call_ensures(DoubleMap::<K1, K2, V>::remove_prefix, (map, &first), ()),
        call_ensures(DoubleMap::<K1, K2, V>::get, (&*old(map), &other.0, &other.1), before),
        call_ensures(DoubleMap::<K1, K2, V>::get, (&*final(map), &other.0, &other.1), after),
        call_ensures(DoubleMap::<K1, K2, V>::new, (), empty),
        call_ensures(DoubleMap::<K1, K2, V>::get, (&empty, &other.0, &other.1), nothing),
    ensures
        other.0 == first ==> after is None,
        other.0 != first ==> after == before,
        nothing is None,
{
}

} // verus!
