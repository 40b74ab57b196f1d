//! The order in which keys are kept, and the lexicographic order of byte strings.

use vstd::prelude::*;

verus! {

/// How one key stands to another.
#[derive(Clone, Copy, Debug, PartialEq, Eq, Structural)]
pub enum Order {
    Less,
    Equal,
    Greater,
}

/// A key of a map: a value with a strict order, which can be copied out of the map.
pub trait Key: Sized {
    /// Whether `self` stands before `other`.
    spec fn precedes(self, other: Self) -> bool;

    /// No key stands before itself.
    proof fn irreflexive(self)
        ensures
            !self.precedes(self),
    ;

    /// What stands before an earlier key stands before a later one.
    proof fn transitive(self, middle: Self, last: Self)
        requires
            self.precedes(middle),
            middle.precedes(last),
        ensures
            self.precedes(last),
    ;

    /// Compares two keys.
    fn compare(&self, other: &Self) -> (order: Order)
        ensures
            match order {
                Order::Less => self.precedes(*other),
                Order::Equal => *self == *other,
                Order::Greater => other.precedes(*self),
            },
    ;

    /// Copies the key.
    fn duplicate(&self) -> (copy: Self)
        ensures
            copy == *self,
    ;
}

/// Whether two keys are the same.
pub fn same_key<K: Key>(a: &K, b: &K) -> (r: bool)
    ensures
        r == (*a == *b),
{
    match a.compare(b) {
        Order::Equal => true,
        Order::Less => {
            proof {
                if *a == *b {
                    a.irreflexive();
                }
            }
            false
        },
        Order::Greater => {
            proof {
                if *a == *b {
                    a.irreflexive();
                }
            }
            false
        },
    }
}

/// `a` and `b` agree before position `k`, where `a` holds the smaller byte.
pub open spec fn bytes_differ_at(a: Seq<u8>, b: Seq<u8>, k: int) -> bool {
    &&& 0 <= k < a.len()
    &&& k < b.len()
    &&& a[k] < b[k]
    &&& forall|i: int| 0 <= i < k ==> a[i] == b[i]
}

/// The lexicographic order of two byte strings of one length.
pub open spec fn bytes_precede(a: Seq<u8>, b: Seq<u8>) -> bool {
    exists|k: int| bytes_differ_at(a, b, k)
}

pub proof fn lemma_bytes_precede_transitive(a: Seq<u8>, b: Seq<u8>, c: Seq<u8>)
    requires
        a.len() == b.len() == c.len(),
        bytes_precede(a, b),
        bytes_precede(b, c),
    ensures
        bytes_precede(a, c),
{
    let j = choose|k: int| bytes_differ_at(a, b, k);
    let k = choose|k: int| bytes_differ_at(b, c, k);
    let first = if j < k {
        j
    } else {
        k
    };
    assert(bytes_differ_at(a, c, first));
}

/// Compares two byte strings of one length.
pub fn compare_bytes(a: &[u8], b: &[u8]) -> (order: Order)
    requires
        a@.len() == b@.len(),
    ensures
        match order {
            Order::Less => bytes_precede(a@, b@),
            Order::Equal => a@ == b@,
            Order::Greater => bytes_precede(b@, a@),
        },
{
    let mut i: usize = 0;
    while i < a.len()
        invariant
            a@.len() == b@.len(),
            i <= a@.len(),
            forall|j: int| 0 <= j < i ==> a@[j] == b@[j],
        decreases a@.len() - i,
    {
        if a[i] < b[i] {
            assert(bytes_differ_at(a@, b@, i as int));
            return Order::Less;
        }
        if b[i] < a[i] {
            assert(bytes_differ_at(b@, a@, i as int));
            return Order::Greater;
        }
        i = i + 1;
    }
    assert(a@ =~= b@);
    Order::Equal
}

} // verus!
