//! A map with exact contents, held as a list of entries.

use crate::host::Address;
use vstd::prelude::*;

verus! {

/// What a [`Table`] can be keyed by.
pub trait Key: Copy {
    fn same(&self, other: &Self) -> (r: bool)
        ensures
            r == (*self == *other),
    ;
}

impl Key for u64 {
    fn same(&self, other: &Self) -> (r: bool) {
        *self == *other
    }
}

impl Key for Address {
    fn same(&self, other: &Self) -> (r: bool) {
        *self == *other
    }
}

/// A construction stage of a property.
#[derive(Copy, Clone, Debug, PartialEq, Eq, Structural)]
pub struct StageOf {
    pub property: u64,
    pub stage: u32,
}

impl Key for StageOf {
    fn same(&self, other: &Self) -> (r: bool) {
        *self == *other
    }
}

/// A party's stake in a property.
#[derive(Copy, Clone, Debug, PartialEq, Eq, Structural)]
pub struct StakeOf {
    pub property: u64,
    pub party: Address,
}

impl Key for StakeOf {
    fn same(&self, other: &Self) -> (r: bool) {
        *self == *other
    }
}

/// Entries by key. Its view is the map it stands for.
#[derive(Debug)]
#[verifier::reject_recursive_types(K)]
pub struct Table<K, V> {
    entries: Vec<(K, V)>,
}

/// The map that a list of entries stands for. Where a key occurs twice the
/// later entry counts.
pub open spec fn map_of<K, V>(entries: Seq<(K, V)>) -> Map<K, V>
    decreases entries.len(),
{
    if entries.len() == 0 {
        Map::empty()
    } else {
        map_of(entries.drop_last()).insert(entries.last().0, entries.last().1)
    }
}

/// A key that does not occur from `i` on is decided by the first `i` entries.
proof fn lemma_absent_after<K, V>(entries: Seq<(K, V)>, i: int, k: K)
    requires
        0 <= i <= entries.len(),
        forall|j: int| i <= j < entries.len() ==> (#[trigger] entries[j]).0 != k,
    ensures
        map_of(entries).contains_key(k) == map_of(entries.take(i)).contains_key(k),
        map_of(entries).contains_key(k) ==> map_of(entries)[k] == map_of(entries.take(i))[k],
    decreases entries.len(),
{
    if i == entries.len() {
        assert(entries.take(i) =~= entries);
    } else {
        assert(entries.last() == entries[entries.len() - 1]);
        assert(entries.drop_last().take(i) =~= entries.take(i));
        lemma_absent_after(entries.drop_last(), i, k);
    }
}

/// Overwriting the last entry of a key is writing that key.
proof fn lemma_overwrite<K, V>(entries: Seq<(K, V)>, i: int, k: K, v: V)
    requires
        0 <= i < entries.len(),
        entries[i].0 == k,
        forall|j: int| i < j < entries.len() ==> (#[trigger] entries[j]).0 != k,
    ensures
        map_of(entries.update(i, (k, v))) == map_of(entries).insert(k, v),
    decreases entries.len(),
{
    let updated = entries.update(i, (k, v));
    if i == entries.len() - 1 {
        assert(updated.drop_last() =~= entries.drop_last());
        assert(map_of(updated) =~= map_of(entries).insert(k, v));
    } else {
        assert(entries.last() == entries[entries.len() - 1]);
        assert(updated.drop_last() =~= entries.drop_last().update(i, (k, v)));
        lemma_overwrite(entries.drop_last(), i, k, v);
        assert(map_of(updated) =~= map_of(entries).insert(k, v));
    }
}

/// The amount kept under a key, nothing where none is.
pub open spec fn amount_of<K>(amounts: Map<K, i128>, key: K) -> i128 {
    if amounts.contains_key(key) {
        amounts[key]
    } else {
        0
    }
}

impl<K, V> View for Table<K, V> {
    type V = Map<K, V>;

    closed spec fn view(&self) -> Map<K, V> {
        map_of(self.entries@)
    }
}

impl<K: Key, V: Copy> Table<K, V> {
    pub fn new() -> (table: Self)
        ensures
            table@ == Map::<K, V>::empty(),
    {
        Table { entries: Vec::new() }
    }

    pub fn get(&self, key: K) -> (found: Option<V>)
        ensures
            found == (if self@.contains_key(key) {
                Some(self@[key])
            } else {
                None
            }),
    {
        let mut i: usize = self.entries.len();
        while i > 0
            invariant
                i <= self.entries.len(),
                forall|j: int|
                    i <= j < self.entries.len() ==> (#[trigger] self.entries@[j]).0 != key,
            decreases i,
        {
            i = i - 1;
            if self.entries[i].0.same(&key) {
                proof {
                    lemma_absent_after(self.entries@, i + 1, key);
                    assert(self.entries@.take(i + 1).drop_last() =~= self.entries@.take(i as int));
                }
                return Some(self.entries[i].1);
            }
        }
        proof {
            lemma_absent_after(self.entries@, 0, key);
        }
        None
    }

    pub fn contains_key(&self, key: K) -> (found: bool)
        ensures
            found == self@.contains_key(key),
    {
        self.get(key).is_some()
    }

    pub fn insert(&mut self, key: K, value: V)
        ensures
            final(self)@ == old(self)@.insert(key, value),
    {
        let mut i: usize = self.entries.len();
        while i > 0
            invariant
                i <= self.entries.len(),
                self.entries@ == old(self).entries@,
                forall|j: int|
                    i <= j < self.entries.len() ==> (#[trigger] self.entries@[j]).0 != key,
            decreases i,
        {
            i = i - 1;
            if self.entries[i].0.same(&key) {
                proof {
                    lemma_overwrite(self.entries@, i as int, key, value);
                }
                self.entries.set(i, (key, value));
                return ;
            }
        }
        proof {
            assert(self.entries@.push((key, value)).drop_last() =~= self.entries@);
        }
        self.entries.push((key, value));
    }

    pub fn remove(&mut self, key: K)
        ensures
            final(self)@ == old(self)@.remove(key),
    {
        let mut kept: Vec<(K, V)> = Vec::new();
        let mut i: usize = 0;
        assert(map_of(self.entries@.take(0)).remove(key) =~= Map::empty());
        while i < self.entries.len()
            invariant
                i <= self.entries.len(),
                self.entries@ == old(self).entries@,
                map_of(kept@) == map_of(self.entries@.take(i as int)).remove(key),
            decreases self.entries.len() - i,
        {
            let entry = self.entries[i];
            assert(self.entries@.take(i + 1).drop_last() =~= self.entries@.take(i as int));
            if !entry.0.same(&key) {
                proof {
                    assert(kept@.push(entry).drop_last() =~= kept@);
                    assert(map_of(kept@.push(entry)) =~= map_of(
                        self.entries@.take(i + 1),
                    ).remove(key));
                }
                kept.push(entry);
            } else {
                assert(map_of(kept@) =~= map_of(self.entries@.take(i + 1)).remove(key));
            }
            i = i + 1;
        }
        assert(self.entries@.take(i as int) =~= self.entries@);
        self.entries = kept;
    }
}

impl<K: Key> Table<K, i128> {
    /// The amount kept under `key`, nothing where none is.
    pub fn amount(&self, key: K) -> (r: i128)
        ensures
            r == amount_of(self@, key),
    {
        match self.get(key) {
            Some(amount) => amount,
            None => 0,
        }
    }
}

} // verus!
