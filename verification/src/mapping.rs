//! The runtime's account for an address of the virtual machine.

use crate::primitives::{AccountId32, H160};
use std::marker::PhantomData;
use vstd::prelude::*;

verus! {

/// A function from addresses to accounts.
pub trait AddressMapping<AccountId> {
    /// The account of an address.
    spec fn account_of(address: H160) -> AccountId;

    fn into_account_id(address: H160) -> (r: AccountId)
        ensures
            r == Self::account_of(address),
    ;
}

/// The account of an address is the address.
pub struct IdentityAddressMapping;

impl AddressMapping<H160> for IdentityAddressMapping {
    open spec fn account_of(address: H160) -> H160 {
        address
    }

    fn into_account_id(address: H160) -> (r: H160) {
        address
    }
}

/// A byte string, as contracts speak of it.
pub type Bytes = Seq<u8>;

/// A hash function with 32-byte digests.
pub trait Hasher {
    /// The digest of a byte string.
    spec fn digest(data: Bytes) -> [u8; 32];

    fn hash(data: &[u8]) -> (r: [u8; 32])
        ensures
            r == Self::digest(data@),
    ;
}

/// The 256-bit BLAKE2b digest of a byte string.
pub uninterp spec fn blake2_256(data: Seq<u8>) -> [u8; 32];

/// `sp_core::Hasher::hash` of `sp_runtime::traits::BlakeTwo256`: the digest of `data`, which
/// depends on `data` alone. Which digest that is goes unsaid.
#[verifier::external_body]
fn blake_two_256_hash(data: &[u8]) -> (r: [u8; 32])
    ensures
        r == blake2_256(data@),
{
    <sp_runtime::traits::BlakeTwo256 as sp_core::Hasher>::hash(data).0
}

/// The BLAKE2b hash function with 256-bit digests.
pub struct BlakeTwo256;

impl Hasher for BlakeTwo256 {
    open spec fn digest(data: Bytes) -> [u8; 32] {
        blake2_256(data)
    }

    fn hash(data: &[u8]) -> (r: [u8; 32]) {
        blake_two_256_hash(data)
    }
}

/// The account of an address is a digest of the address.
pub struct HashedAddressMapping<H>(PhantomData<H>);

/// What is hashed for an address: the four letters `evm:`, then the address.
pub open spec fn hashed_bytes(address: H160) -> Seq<u8> {
    seq![0x65u8, 0x76u8, 0x6du8, 0x3au8] + address.0@
}

/// The bytes that are hashed for an address.
pub fn account_preimage(address: &H160) -> (data: [u8; 24])
    ensures
        data@ == hashed_bytes(*address),
{
    let mut data: [u8; 24] = [0u8; 24];
    data[0] = 0x65;
    data[1] = 0x76;
    data[2] = 0x6d;
    data[3] = 0x3a;
    let mut i: usize = 0;
    while i < 20
        invariant
            i <= 20,
            data@[0] == 0x65,
            data@[1] == 0x76,
            data@[2] == 0x6d,
            data@[3] == 0x3a,
            forall|j: int| 4 <= j < 4 + i ==> data@[j] == address.0@[j - 4],
        decreases 20 - i,
    {
        data[4 + i] = address.0[i];
        i = i + 1;
    }
    assert(data@ =~= hashed_bytes(*address));
    data
}

impl<H: Hasher> AddressMapping<AccountId32> for HashedAddressMapping<H> {
    open spec fn account_of(address: H160) -> AccountId32 {
        AccountId32(H::digest(hashed_bytes(address)))
    }

    fn into_account_id(address: H160) -> (r: AccountId32) {
        let data = account_preimage(&address);
        AccountId32(H::hash(data.as_slice()))
    }
}

/// Different addresses have different accounts.
pub proof fn law_identity_mapping_one_to_one(a: H160, b: H160)
    ensures
        IdentityAddressMapping::account_of(a) == IdentityAddressMapping::account_of(b) <==> a == b,
{
}

/// Different addresses are hashed as different byte strings, so that two addresses share an
/// account only where the hash function collides.
pub proof fn law_hashed_mapping_one_to_one<H: Hasher>(a: H160, b: H160)
    requires
        H::digest(hashed_bytes(a)) == H::digest(hashed_bytes(b)) ==> hashed_bytes(a)
            == hashed_bytes(b),
    ensures
        HashedAddressMapping::<H>::account_of(a) == HashedAddressMapping::<H>::account_of(b) <==> a
            == b,
{
    if hashed_bytes(a) == hashed_bytes(b) {
        assert forall|i: int| 0 <= i < 20 implies a.0@[i] == b.0@[i] by {
            assert(hashed_bytes(a)[i + 4] == hashed_bytes(b)[i + 4]);
        }
        assert(a.0 =~= b.0);
    }
}

} // verus!
