//! Fixed-size values: addresses, hashes and 256-bit numbers.

use crate::order::{bytes_precede, compare_bytes, lemma_bytes_precede_transitive, Key, Order};
use sp_runtime::traits::UniqueSaturatedInto;
use vstd::prelude::*;

verus! {

/// A 20-byte address of the virtual machine.
#[derive(Clone, Copy, Debug, PartialEq, Eq)]
pub struct H160(pub [u8; 20]);

/// A 32-byte hash or storage word.
#[derive(Clone, Copy, Debug, PartialEq, Eq)]
pub struct H256(pub [u8; 32]);

/// A 32-byte account identifier.
#[derive(Clone, Copy, Debug, PartialEq, Eq)]
pub struct AccountId32(pub [u8; 32]);

impl Key for H160 {
    open spec fn precedes(self, other: Self) -> bool {
        bytes_precede(self.0@, other.0@)
    }

    proof fn irreflexive(self) {
    }

    proof fn transitive(self, middle: Self, last: Self) {
        lemma_bytes_precede_transitive(self.0@, middle.0@, last.0@);
    }

    fn compare(&self, other: &Self) -> (order: Order) {
        let order = compare_bytes(self.0.as_slice(), other.0.as_slice());
        proof {
            if self.0@ == other.0@ {
                assert(self.0 =~= other.0);
            }
        }
        order
    }

    fn duplicate(&self) -> (copy: Self) {
        *self
    }
}

impl Key for H256 {
    open spec fn precedes(self, other: Self) -> bool {
        bytes_precede(self.0@, other.0@)
    }

    proof fn irreflexive(self) {
    }

    proof fn transitive(self, middle: Self, last: Self) {
        lemma_bytes_precede_transitive(self.0@, middle.0@, last.0@);
    }

    fn compare(&self, other: &Self) -> (order: Order) {
        let order = compare_bytes(self.0.as_slice(), other.0.as_slice());
        proof {
            if self.0@ == other.0@ {
                assert(self.0 =~= other.0);
            }
        }
        order
    }

    fn duplicate(&self) -> (copy: Self) {
        *self
    }
}

impl Key for AccountId32 {
    open spec fn precedes(self, other: Self) -> bool {
        bytes_precede(self.0@, other.0@)
    }

    proof fn irreflexive(self) {
    }

    proof fn transitive(self, middle: Self, last: Self) {
        lemma_bytes_precede_transitive(self.0@, middle.0@, last.0@);
    }

    fn compare(&self, other: &Self) -> (order: Order) {
        let order = compare_bytes(self.0.as_slice(), other.0.as_slice());
        proof {
            if self.0@ == other.0@ {
                assert(self.0 =~= other.0);
            }
        }
        order
    }

    fn duplicate(&self) -> (copy: Self) {
        *self
    }
}

impl H256 {
    /// Whether every byte of the word is zero.
    pub open spec fn is_zero(self) -> bool {
        forall|i: int| 0 <= i < 32 ==> #[trigger] self.0[i] == 0
    }

    /// The word whose bytes are all zero.
    pub fn zero() -> (r: Self)
        ensures
            r.is_zero(),
    {
        H256([0u8; 32])
    }
}

/// An unsigned 256-bit number as four 64-bit words, the least significant first.
#[derive(Clone, Copy, Debug, PartialEq, Eq)]
pub struct U256(pub [u64; 4]);

impl View for U256 {
    type V = nat;

    open spec fn view(&self) -> nat {
        (self.0[0] + self.0[1] * 0x1_0000_0000_0000_0000int
            + self.0[2] * 0x1_0000_0000_0000_0000_0000_0000_0000_0000int
            + self.0[3]
            * 0x1_0000_0000_0000_0000_0000_0000_0000_0000_0000_0000_0000_0000int) as nat
    }
}

/// The remainder of `n` by two to the power of 128.
pub open spec fn low_128(n: nat) -> nat {
    n % 0x1_0000_0000_0000_0000_0000_0000_0000_0000nat
}

impl U256 {
    /// The number zero.
    pub fn zero() -> (r: Self)
        ensures
            r@ == 0,
    {
        U256([0u64; 4])
    }

    /// Whether the number is zero.
    pub fn is_zero(&self) -> (r: bool)
        ensures
            r == (self@ == 0),
    {
        self.0[0] == 0 && self.0[1] == 0 && self.0[2] == 0 && self.0[3] == 0
    }

    /// `sp_core::U256::low_u128`: the lower half of the number, its two least significant words.
    #[verifier::external_body]
    pub(crate) fn low_u128(&self) -> (r: u128)
        ensures
            r == low_128(self@),
    {
        sp_core::U256(self.0).low_u128()
    }

    /// `sp_core::U256::from`, given a `u128`: the same number in 256 bits.
    #[verifier::external_body]
    pub(crate) fn from_u128(value: u128) -> (r: Self)
        ensures
            r@ == value,
    {
        U256(sp_core::U256::from(value).0)
    }

    /// `UniqueSaturatedInto::<u64>::unique_saturated_into`, given a `sp_core::U256`: the same
    /// number where 64 bits hold it, and the largest `u64` where they do not.
    #[verifier::external_body]
    pub(crate) fn saturated_into_u64(&self) -> (r: u64)
        ensures
            self@ <= u64::MAX ==> r == self@,
            self@ > u64::MAX ==> r == u64::MAX,
    {
        UniqueSaturatedInto::<u64>::unique_saturated_into(sp_core::U256(self.0))
    }
}

/// Two 256-bit numbers of one value are the same.
pub proof fn law_value_determines_number(a: U256, b: U256)
    requires
        a@ == b@,
    ensures
        a == b,
{
    assert(a.0[0] == b.0[0] && a.0[1] == b.0[1] && a.0[2] == b.0[2] && a.0[3] == b.0[3]);
    assert(a.0 =~= b.0);
}

} // verus!
