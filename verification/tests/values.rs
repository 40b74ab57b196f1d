//! Keys, maps, amounts, origins and mappings.

use pallet_vm::mapping::Bytes;
use pallet_vm::{
    ensure_signed, AccountId32, AddressMapping, Amount, BadOrigin, BlakeTwo256, DoubleMap,
    EnsureAddressNever, EnsureAddressOrigin, EnsureAddressRoot, EnsureAddressSame,
    EnsureAddressTruncated, HashedAddressMapping, Hasher, Key, Order, OrderedMap, OuterOrigin,
    RawOrigin, H160, H256, U256,
};
use sp_runtime::traits::{Saturating, UniqueSaturatedInto};

fn address(n: u8) -> H160 {
    H160([n; 20])
}

#[test]
fn keys_compare_byte_by_byte() {
    let mut last = [7u8; 20];
    last[19] = 8;
    let mut first = [7u8; 20];
    first[0] = 6;
    first[19] = 200;
    assert_eq!(address(7).compare(&address(7)), Order::Equal);
    assert_eq!(address(7).compare(&H160(last)), Order::Less);
    assert_eq!(address(7).compare(&H160(first)), Order::Greater);
    assert_eq!(H256([1; 32]).compare(&H256([2; 32])), Order::Less);
    assert_eq!(AccountId32([3; 32]).compare(&AccountId32([2; 32])), Order::Greater);
}

#[test]
fn map_keeps_key_order() {
    let mut map = OrderedMap::<H160, u8>::new();
    for n in [5u8, 1, 9, 5, 3] {
        map.insert(address(n), n);
    }
    let keys: Vec<u8> = (0..map.len()).map(|i| map.at(i).1).collect();
    assert_eq!(keys, vec![1, 3, 5, 9]);
    assert_eq!(map.get(&address(9)), Some(&9));
    assert_eq!(map.get(&address(2)), None);
    assert_eq!(map.remove(&address(3)), Some(3));
    assert_eq!(map.remove(&address(3)), None);
    assert!(!map.contains_key(&address(3)));
    assert_eq!(map.len(), 3);
}

#[test]
fn double_map_removes_by_prefix() {
    let mut map = DoubleMap::<H160, H256, u8>::new();
    map.insert(address(1), H256([1; 32]), 11);
    map.insert(address(1), H256([2; 32]), 12);
    map.insert(address(2), H256([1; 32]), 21);
    map.insert(address(1), H256([2; 32]), 13);
    assert_eq!(map.get(&address(1), &H256([2; 32])), Some(&13));
    map.remove_prefix(&address(1));
    assert_eq!(map.get(&address(1), &H256([1; 32])), None);
    assert_eq!(map.get(&address(1), &H256([2; 32])), None);
    assert_eq!(map.get(&address(2), &H256([1; 32])), Some(&21));
}

#[test]
fn amounts_saturate() {
    assert_eq!(<u32 as Amount>::saturated_from(1 << 32), u32::MAX);
    assert_eq!(<u32 as Amount>::saturated_from(12), 12);
    assert_eq!(<u64 as Amount>::saturated_from(1 << 64), u64::MAX);
    assert_eq!(<u64 as Amount>::saturated_from(1 << 63), 1 << 63);
    assert_eq!(<u128 as Amount>::saturated_from(u128::MAX), u128::MAX);
    assert_eq!(Amount::saturating_sub(3u32, 5u32), 0);
    assert_eq!(Amount::saturating_sub(5u64, 3u64), 2);
    assert_eq!(Amount::saturating_sub(5u128, 5u128), 0);
    assert_eq!(Amount::saturated_into(9u32), 9u128);
    assert_eq!(<u64 as Amount>::zero(), 0);
}

#[test]
fn amounts_agree_with_the_runtime_traits() {
    for n in [0u128, 1, 0xffff_ffff, 1 << 32, u64::MAX as u128, 1 << 64, u128::MAX] {
        let narrow: u32 = UniqueSaturatedInto::<u32>::unique_saturated_into(n);
        assert_eq!(<u32 as Amount>::saturated_from(n), narrow);
        let wide: u64 = UniqueSaturatedInto::<u64>::unique_saturated_into(n);
        assert_eq!(<u64 as Amount>::saturated_from(n), wide);
        let same: u128 = UniqueSaturatedInto::<u128>::unique_saturated_into(n);
        assert_eq!(<u128 as Amount>::saturated_from(n), same);
        assert_eq!(Amount::saturating_sub(n, 5), Saturating::saturating_sub(n, 5));
    }
}

#[test]
fn signed_origins_are_recognised() {
    assert_eq!(ensure_signed::<RawOrigin<u8>, u8>(RawOrigin::Signed(4)), Ok(4));
    assert_eq!(ensure_signed::<RawOrigin<u8>, u8>(RawOrigin::Root), Err(BadOrigin));
    assert_eq!(ensure_signed::<RawOrigin<u8>, u8>(RawOrigin::Nobody), Err(BadOrigin));
}

#[test]
fn same_address_rule() {
    type Rule = EnsureAddressSame;
    assert_eq!(
        Rule::try_address_origin(&address(1), RawOrigin::Signed(address(1))),
        Ok(address(1))
    );
    for origin in [RawOrigin::Signed(address(2)), RawOrigin::Root, RawOrigin::Nobody] {
        let again = match &origin {
            RawOrigin::Signed(who) => RawOrigin::Signed(*who),
            RawOrigin::Root => RawOrigin::Root,
            RawOrigin::Nobody => RawOrigin::Nobody,
        };
        assert_eq!(Rule::try_address_origin(&address(1), origin), Err(again));
    }
    assert_eq!(Rule::ensure_address_origin(&address(1), RawOrigin::Root), Err(BadOrigin));
}

#[test]
fn root_rule() {
    type Rule = EnsureAddressRoot<u8>;
    assert_eq!(Rule::try_address_origin(&address(1), RawOrigin::Root), Ok(()));
    assert_eq!(
        Rule::try_address_origin(&address(1), RawOrigin::Signed(1)),
        Err(RawOrigin::Signed(1))
    );
    assert_eq!(Rule::ensure_address_origin(&address(1), RawOrigin::Nobody), Err(BadOrigin));
}

#[test]
fn never_rule() {
    type Rule = EnsureAddressNever<u8>;
    assert_eq!(
        <Rule as EnsureAddressOrigin<RawOrigin<u8>>>::try_address_origin(
            &address(1),
            RawOrigin::Root
        ),
        Err(RawOrigin::Root)
    );
    assert_eq!(
        <Rule as EnsureAddressOrigin<RawOrigin<u8>>>::ensure_address_origin(
            &address(1),
            RawOrigin::Signed(1)
        ),
        Err(BadOrigin)
    );
}

#[test]
fn truncated_rule() {
    type Rule = EnsureAddressTruncated;
    let mut id = [1u8; 32];
    id[31] = 99;
    id[20] = 77;
    let who = AccountId32(id);
    assert_eq!(Rule::try_address_origin(&address(1), RawOrigin::Signed(who)), Ok(who));
    let mut id = [1u8; 32];
    id[19] = 2;
    let who = AccountId32(id);
    assert_eq!(
        Rule::try_address_origin(&address(1), RawOrigin::Signed(who)),
        Err(RawOrigin::Signed(who))
    );
    assert_eq!(Rule::ensure_address_origin(&address(1), RawOrigin::Root), Err(BadOrigin));
}

/// Origins of a runtime that has one of its own beside the system's.
#[derive(Debug, PartialEq)]
enum Outer {
    System(RawOrigin<H160>),
    Council,
}

impl OuterOrigin<H160> for Outer {
    fn as_raw(self) -> Result<RawOrigin<H160>, Self> {
        self.into_raw()
    }

    fn of_raw(raw: RawOrigin<H160>) -> Self {
        Outer::System(raw)
    }

    fn into_raw(self) -> Result<RawOrigin<H160>, Self> {
        match self {
            Outer::System(raw) => Ok(raw),
            other => Err(other),
        }
    }

    fn from_raw(raw: RawOrigin<H160>) -> Self {
        Outer::System(raw)
    }
}

#[test]
fn foreign_origins_come_back() {
    let r = EnsureAddressSame::try_address_origin(&address(1), Outer::Council);
    assert_eq!(r, Err(Outer::Council));
    let r = EnsureAddressRoot::<H160>::try_address_origin(
        &address(1),
        Outer::System(RawOrigin::Nobody),
    );
    assert_eq!(r, Err(Outer::System(RawOrigin::Nobody)));
}

#[test]
fn hashed_mapping_hashes_the_prefixed_address() {
    let mut data = b"evm:".to_vec();
    data.extend_from_slice(&[9u8; 20]);
    let digest = sp_core::blake2_256(&data);
    let who = HashedAddressMapping::<BlakeTwo256>::into_account_id(address(9));
    assert_eq!(who, AccountId32(digest));
    assert_eq!(BlakeTwo256::hash(&data), digest);
    assert_ne!(HashedAddressMapping::<BlakeTwo256>::into_account_id(address(8)), who);
    assert_eq!(pallet_vm::mapping::account_preimage(&address(9)).to_vec(), data);
}

/// A hash function that keeps the first 32 bytes.
struct Prefix;

impl Hasher for Prefix {
    // Contracts speak of this function, and nothing runs it.
    fn digest(_data: Bytes) -> [u8; 32] {
        unreachable!()
    }

    fn hash(data: &[u8]) -> [u8; 32] {
        let mut digest = [0u8; 32];
        digest[..data.len()].copy_from_slice(data);
        digest
    }
}

#[test]
fn hashed_mapping_takes_any_hash_function() {
    let who = HashedAddressMapping::<Prefix>::into_account_id(address(9));
    let mut expected = [0u8; 32];
    expected[..4].copy_from_slice(b"evm:");
    expected[4..24].copy_from_slice(&[9u8; 20]);
    assert_eq!(who, AccountId32(expected));
}

#[test]
fn zero_is_zero() {
    assert!(U256::zero().is_zero());
    assert!(!U256([0, 0, 0, 1]).is_zero());
    assert!(!U256([0, 0, 1, 0]).is_zero());
    assert!(!U256([0, 1, 0, 0]).is_zero());
    assert!(!U256([1, 0, 0, 0]).is_zero());
    assert_eq!(H256::zero(), H256([0; 32]));
}
