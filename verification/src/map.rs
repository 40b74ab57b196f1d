//! A map that keeps its entries in the order of their keys.

use crate::order::{Key, Order};
use vstd::prelude::*;

verus! {

/// A map from keys to values. No key occurs twice, and the entries stand in key order.
pub struct OrderedMap<K: Key, V> {
    entries: Vec<(K, V)>,
}

/// Each entry's key stands before the keys of all later entries.
pub open spec fn strictly_increasing<K: Key, V>(entries: Seq<(K, V)>) -> bool {
    forall|i: int, j: int|
        #![trigger entries[i], entries[j]]
        0 <= i < j < entries.len() ==> entries[i].0.precedes(entries[j].0)
}

/// The key of some entry is `key`.
pub open spec fn has_key<K, V>(entries: Seq<(K, V)>, key: K) -> bool {
    exists|i: int| #![trigger entries[i]] 0 <= i < entries.len() && entries[i].0 == key
}

/// The map that the entries make up.
pub open spec fn entries_to_map<K, V>(entries: Seq<(K, V)>) -> Map<K, V> {
    Map::new(
        |key: K| has_key(entries, key),
        |key: K|
            {
                let i = choose|i: int|
                    #![trigger entries[i]]
                    0 <= i < entries.len() && entries[i].0 == key;
                entries[i].1
            },
    )
}

/// In entries with strictly increasing keys, the map gives back each entry's value.
pub proof fn lemma_entry_value<K: Key, V>(entries: Seq<(K, V)>, i: int)
    requires
        strictly_increasing(entries),
        0 <= i < entries.len(),
    ensures
        entries_to_map(entries).contains_key(entries[i].0),
        entries_to_map(entries)[entries[i].0] == entries[i].1,
{
    let key = entries[i].0;
    assert(has_key(entries, key));
    let j = choose|j: int| #![trigger entries[j]] 0 <= j < entries.len() && entries[j].0 == key;
    if i < j {
        key.irreflexive();
    } else if j < i {
        key.irreflexive();
    }
}

/// The map of a list of entries holds something for finitely many keys.
pub proof fn lemma_finitely_many_keys<K, V>(entries: Seq<(K, V)>)
    ensures
        entries_to_map(entries).dom().finite(),
{
    let keys = entries.map_values(|entry: (K, V)| entry.0);
    assert forall|key: K| entries_to_map(entries).dom().contains(key) implies keys.to_set().contains(
        key,
    ) by {
        let i = choose|i: int|
            #![trigger entries[i]]
            0 <= i < entries.len() && entries[i].0 == key;
        assert(keys[i] == key);
    }
    vstd::seq_lib::seq_to_set_is_finite(keys);
    vstd::set_lib::lemma_set_subset_finite(keys.to_set(), entries_to_map(entries).dom());
}

/// Two lists of entries, each with strictly increasing keys, that differ only in what they hold
/// for `key`: the second holds `value`.
proof fn lemma_inserted<K: Key, V>(before: Seq<(K, V)>, after: Seq<(K, V)>, key: K, value: V)
    requires
        strictly_increasing(before),
        strictly_increasing(after),
        after.contains((key, value)),
        forall|i: int|
            #![trigger before[i]]
            0 <= i < before.len() && before[i].0 != key ==> after.contains(before[i]),
        forall|i: int|
            #![trigger after[i]]
            0 <= i < after.len() && after[i].0 != key ==> before.contains(after[i]),
    ensures
        entries_to_map(after) == entries_to_map(before).insert(key, value),
{
    let m = entries_to_map(before).insert(key, value);
    let n = entries_to_map(after);
    assert forall|k: K| n.contains_key(k) == m.contains_key(k) && (n.contains_key(k) ==> n[k]
        == m[k]) by {
        if k == key {
            let i = choose|i: int| 0 <= i < after.len() && after[i] == (key, value);
            lemma_entry_value(after, i);
        } else {
            if has_key(before, k) {
                let i = choose|i: int|
                    #![trigger before[i]]
                    0 <= i < before.len() && before[i].0 == k;
                lemma_entry_value(before, i);
                let j = choose|j: int| 0 <= j < after.len() && after[j] == before[i];
                lemma_entry_value(after, j);
            }
            if has_key(after, k) {
                let i = choose|i: int|
                    #![trigger after[i]]
                    0 <= i < after.len() && after[i].0 == k;
                let j = choose|j: int| 0 <= j < before.len() && before[j] == after[i];
                lemma_entry_value(before, j);
            }
        }
    }
    assert(n =~= m);
}

/// One entry more of a list with strictly increasing keys puts its key and value into the map.
pub proof fn lemma_next_entry<K: Key, V>(entries: Seq<(K, V)>, i: int)
    requires
        strictly_increasing(entries),
        0 <= i < entries.len(),
    ensures
        entries_to_map(entries.take(i + 1)) == entries_to_map(entries.take(i)).insert(
            entries[i].0,
            entries[i].1,
        ),
{
    let before = entries.take(i);
    let after = entries.take(i + 1);
    assert(after[i] == (entries[i].0, entries[i].1));
    assert forall|j: int|
        #![trigger before[j]]
        0 <= j < before.len() && before[j].0 != entries[i].0 implies after.contains(before[j]) by {
        assert(after[j] == before[j]);
    }
    assert forall|j: int|
        #![trigger after[j]]
        0 <= j < after.len() && after[j].0 != entries[i].0 implies before.contains(after[j]) by {
        assert(before[j] == after[j]);
    }
    lemma_inserted(before, after, entries[i].0, entries[i].1);
}

impl<K: Key, V> View for OrderedMap<K, V> {
    type V = Map<K, V>;

    open spec fn view(&self) -> Map<K, V> {
        entries_to_map(self.entries())
    }
}

impl<K: Key, V> OrderedMap<K, V> {
    #[verifier::type_invariant]
    closed spec fn ordered(self) -> bool {
        strictly_increasing(self.entries@)
    }

    /// The entries, in key order.
    pub closed spec fn entries(&self) -> Seq<(K, V)> {
        self.entries@
    }

    /// The empty map.
    pub fn new() -> (map: Self)
        ensures
            map.entries() == Seq::<(K, V)>::empty(),
            map@ == Map::<K, V>::empty(),
    {
        let map = OrderedMap { entries: Vec::new() };
        assert(map@ =~= Map::<K, V>::empty());
        map
    }

    /// The number of entries.
    pub fn len(&self) -> (n: usize)
        ensures
            n == self.entries().len(),
            strictly_increasing(self.entries()),
    {
        proof {
            use_type_invariant(self);
        }
        self.entries.len()
    }

    /// The entry at a position.
    pub fn at(&self, index: usize) -> (entry: &(K, V))
        requires
            index < self.entries().len(),
        ensures
            *entry == self.entries()[index as int],
    {
        &self.entries[index]
    }

    /// The number of entries whose keys stand before `key`, and whether `key` comes next.
    fn position(&self, key: &K) -> (r: (usize, bool))
        ensures
            r.0 <= self.entries().len(),
            forall|i: int| 0 <= i < r.0 ==> (#[trigger] self.entries()[i]).0.precedes(*key),
            r.1 ==> r.0 < self.entries().len() && self.entries()[r.0 as int].0 == *key,
            !r.1 ==> forall|i: int|
                r.0 <= i < self.entries().len() ==> key.precedes(
                    (#[trigger] self.entries()[i]).0,
                ),
            r.1 == self@.contains_key(*key),
            r.1 ==> self.entries()[r.0 as int].1 == self@[*key],
    {
        proof {
            use_type_invariant(self);
        }
        let mut i: usize = 0;
        while i < self.entries.len()
            invariant
                i <= self.entries@.len(),
                self.ordered(),
                forall|j: int| 0 <= j < i ==> (#[trigger] self.entries@[j]).0.precedes(*key),
            decreases self.entries@.len() - i,
        {
            match self.entries[i].0.compare(key) {
                Order::Less => {
                    i = i + 1;
                },
                Order::Equal => {
                    proof {
                        lemma_entry_value(self.entries@, i as int);
                    }
                    return (i, true);
                },
                Order::Greater => {
                    proof {
                        assert forall|j: int| i <= j < self.entries@.len() implies key.precedes(
                            (#[trigger] self.entries@[j]).0,
                        ) by {
                            if i < j {
                                key.transitive(self.entries@[i as int].0, self.entries@[j].0);
                            }
                        }
                        key.irreflexive();
                    }
                    return (i, false);
                },
            }
        }
        proof {
            key.irreflexive();
        }
        (i, false)
    }

    /// What the map holds for `key`.
    pub fn get(&self, key: &K) -> (value: Option<&V>)
        ensures
            value == (if self@.contains_key(*key) {
                Some(&self@[*key])
            } else {
                None
            }),
    {
        let (i, found) = self.position(key);
        if found {
            Some(&self.entries[i].1)
        } else {
            None
        }
    }

    /// Whether the map holds something for `key`.
    pub fn contains_key(&self, key: &K) -> (r: bool)
        ensures
            r == self@.contains_key(*key),
    {
        let (_, found) = self.position(key);
        found
    }

    /// Holds `value` for `key` from now on.
    pub fn insert(&mut self, key: K, value: V)
        ensures
            final(self)@ == old(self)@.insert(key, value),
    {
        let (i, found) = self.position(&key);
        proof {
            use_type_invariant(&*self);
        }
        let ghost before = self.entries@;
        let mut entries: Vec<(K, V)> = Vec::new();
        std::mem::swap(&mut entries, &mut self.entries);
        if found {
            entries.remove(i);
        }
        entries.insert(i, (key, value));
        proof {
            let after = entries@;
            assert(after[i as int] == (key, value));
            assert forall|j: int|
                #![trigger before[j]]
                0 <= j < before.len() && before[j].0 != key implies after.contains(before[j]) by {
                if j < i {
                    assert(after[j] == before[j]);
                } else if found {
                    assert(after[j] == before[j]);
                } else {
                    assert(after[j + 1] == before[j]);
                }
            }
            assert forall|j: int|
                #![trigger after[j]]
                0 <= j < after.len() && after[j].0 != key implies before.contains(after[j]) by {
                if j < i {
                    assert(after[j] == before[j]);
                } else if found {
                    assert(after[j] == before[j]);
                } else {
                    assert(after[j] == before[j - 1]);
                }
            }
            lemma_inserted(before, after, key, value);
        }
        self.entries = entries;
    }

    /// Holds nothing for `key` from now on, and gives what was held.
    pub fn remove(&mut self, key: &K) -> (value: Option<V>)
        ensures
            final(self)@ == old(self)@.remove(*key),
            value == (if old(self)@.contains_key(*key) {
                Some(old(self)@[*key])
            } else {
                None
            }),
    {
        let (i, found) = self.position(key);
        proof {
            use_type_invariant(&*self);
        }
        if found {
            let ghost before = self.entries@;
            let mut entries: Vec<(K, V)> = Vec::new();
            std::mem::swap(&mut entries, &mut self.entries);
            let (_, value) = entries.remove(i);
            proof {
                lemma_removed(before, i as int);
                assert(entries@ == before.remove(i as int));
            }
            self.entries = entries;
            Some(value)
        } else {
            assert(self@ =~= self@.remove(*key));
            None
        }
    }
}

/// Taking one entry out of a list with strictly increasing keys takes its key out of the map.
proof fn lemma_removed<K: Key, V>(before: Seq<(K, V)>, i: int)
    requires
        strictly_increasing(before),
        0 <= i < before.len(),
    ensures
        strictly_increasing(before.remove(i)),
        entries_to_map(before.remove(i)) == entries_to_map(before).remove(before[i].0),
{
    let key = before[i].0;
    let after = before.remove(i);
    let m = entries_to_map(before).remove(key);
    let n = entries_to_map(after);
    assert forall|a: int, b: int|
        #![trigger after[a], after[b]]
        0 <= a < b < after.len() implies after[a].0.precedes(after[b].0) by {
        let c = if a < i {
            a
        } else {
            a + 1
        };
        let d = if b < i {
            b
        } else {
            b + 1
        };
        assert(after[a] == before[c] && after[b] == before[d]);
    }
    assert forall|k: K|
        #![trigger n.dom().contains(k)]
        #![trigger m.dom().contains(k)]
        n.dom().contains(k) == m.dom().contains(k) && (n.dom().contains(k) ==> n[k] == m[k]) by {
        if has_key(after, k) {
            let a = choose|a: int| #![trigger after[a]] 0 <= a < after.len() && after[a].0 == k;
            let c = if a < i {
                a
            } else {
                a + 1
            };
            assert(after[a] == before[c]);
            lemma_entry_value(after, a);
            lemma_entry_value(before, c);
            assert(k != key) by {
                key.irreflexive();
                if c < i {
                    assert(before[c].0.precedes(before[i].0));
                } else {
                    assert(before[i].0.precedes(before[c].0));
                }
            }
        }
        if has_key(before, k) && k != key {
            let c = choose|c: int|
                #![trigger before[c]]
                0 <= c < before.len() && before[c].0 == k;
            let a = if c < i {
                c
            } else {
                c - 1
            };
            assert(after[a] == before[c]);
            lemma_entry_value(before, c);
        }
    }
    assert(n =~= m);
}

/// A map from pairs of keys to values, from which all pairs with one first key can be taken out
/// together.
pub struct DoubleMap<K1: Key, K2: Key, V> {
    rows: OrderedMap<K1, OrderedMap<K2, V>>,
}

impl<K1: Key, K2: Key, V> View for DoubleMap<K1, K2, V> {
    type V = Map<(K1, K2), V>;

    closed spec fn view(&self) -> Map<(K1, K2), V> {
        Map::new(
            |pair: (K1, K2)| self.rows@.contains_key(pair.0) && self.rows@[pair.0]@.contains_key(pair.1),
            |pair: (K1, K2)| self.rows@[pair.0]@[pair.1],
        )
    }
}

/// `map` without the pairs whose first key is `first`.
pub open spec fn without_prefix<K1, K2, V>(map: Map<(K1, K2), V>, first: K1) -> Map<
    (K1, K2),
    V,
> {
    Map::new(
        |pair: (K1, K2)| map.contains_key(pair) && pair.0 != first,
        |pair: (K1, K2)| map[pair],
    )
}

impl<K1: Key, K2: Key, V> DoubleMap<K1, K2, V> {
    /// The empty map.
    pub fn new() -> (map: Self)
        ensures
            map@ == Map::<(K1, K2), V>::empty(),
    {
        let map = DoubleMap { rows: OrderedMap::new() };
        assert(map@ =~= Map::<(K1, K2), V>::empty());
        map
    }

    /// What the map holds for a pair of keys.
    pub fn get(&self, first: &K1, second: &K2) -> (value: Option<&V>)
        ensures
            value == (if self@.contains_key((*first, *second)) {
                Some(&self@[(*first, *second)])
            } else {
                None
            }),
    {
        match self.rows.get(first) {
            Some(row) => row.get(second),
            None => None,
        }
    }

    /// Holds `value` for a pair of keys from now on.
    pub fn insert(&mut self, first: K1, second: K2, value: V)
        ensures
            final(self)@ == old(self)@.insert((first, second), value),
    {
        let mut row = match self.rows.remove(&first) {
            Some(row) => row,
            None => OrderedMap::new(),
        };
        row.insert(second, value);
        self.rows.insert(first, row);
        assert(self@ =~= old(self)@.insert((first, second), value));
    }

    /// Holds nothing for the pairs whose first key is `first` from now on.
    pub fn remove_prefix(&mut self, first: &K1)
        ensures
            final(self)@ == without_prefix(old(self)@, *first),
    {
        self.rows.remove(first);
        assert(self@ =~= without_prefix(old(self)@, *first));
    }
}

} // verus!
