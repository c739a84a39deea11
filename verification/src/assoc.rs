//! A small map from keys to values, kept as a list of entries with distinct keys.
//!
//! The tables of this crate are keyed by addresses and payload identifiers; their
//! contracts speak of the map that the list stands for.

use vstd::prelude::*;

verus! {

/// A key that can be compared at run time, with `same` deciding equality.
pub trait Key: Copy + Sized {
    fn same(&self, other: &Self) -> (same: bool)
        ensures
            same == (*self == *other),
    ;
}

/// A key with the value stored under it.
pub struct Entry<K, V> {
    pub key: K,
    pub value: V,
}

/// Entries with pairwise distinct keys, in the order in which the keys were first inserted.
pub struct AssocList<K, V> {
    entries: Vec<Entry<K, V>>,
}

/// Whether some entry of `entries` has the key `key`.
pub open spec fn has_key<K, V>(entries: Seq<Entry<K, V>>, key: K) -> bool {
    exists|i: int| 0 <= i < entries.len() && (#[trigger] entries[i]).key == key
}

/// The position of the entry with the key `key`.
pub open spec fn key_index<K, V>(entries: Seq<Entry<K, V>>, key: K) -> int {
    choose|i: int| 0 <= i < entries.len() && (#[trigger] entries[i]).key == key
}

/// No key occurs in two entries.
pub open spec fn distinct_keys<K, V>(entries: Seq<Entry<K, V>>) -> bool {
    forall|i: int, j: int|
        0 <= i < j < entries.len() ==> (#[trigger] entries[i]).key != (#[trigger] entries[j]).key
}

/// The map that a list of entries with distinct keys stands for.
pub open spec fn entries_map<K, V>(entries: Seq<Entry<K, V>>) -> Map<K, V> {
    Map::new(|k: K| has_key(entries, k), |k: K| entries[key_index(entries, k)].value)
}

/// `after` is `before` with another value in entry `i`.
pub open spec fn revalued<K, V>(before: Seq<Entry<K, V>>, after: Seq<Entry<K, V>>, i: int) -> bool {
    &&& 0 <= i < before.len()
    &&& after.len() == before.len()
    &&& after[i].key == before[i].key
    &&& forall|k: int| 0 <= k < before.len() && k != i ==> after[k] == before[k]
}

/// In a list with distinct keys, entry `i` is what the map holds under its key.
pub proof fn lemma_entry_in_map<K, V>(entries: Seq<Entry<K, V>>, i: int)
    requires
        distinct_keys(entries),
        0 <= i < entries.len(),
    ensures
        entries_map(entries).contains_key(entries[i].key),
        entries_map(entries)[entries[i].key] == entries[i].value,
        key_index(entries, entries[i].key) == i,
{
    let k = entries[i].key;
    assert(has_key(entries, k));
    assert(key_index(entries, k) == i);
}

/// Writing another value into entry `i` updates the map under that entry's key.
pub proof fn lemma_revalued_map<K, V>(before: Seq<Entry<K, V>>, after: Seq<Entry<K, V>>, i: int)
    requires
        distinct_keys(before),
        revalued(before, after, i),
    ensures
        distinct_keys(after),
        entries_map(after) == entries_map(before).insert(before[i].key, after[i].value),
{
    let key = before[i].key;
    let target = entries_map(before).insert(key, after[i].value);
    assert forall|a: int, b: int| 0 <= a < b < after.len() implies (#[trigger] after[a]).key != (
    #[trigger] after[b]).key by {
        assert(after[a].key == before[a].key);
        assert(after[b].key == before[b].key);
    }
    assert forall|k: K| entries_map(after).contains_key(k) == target.contains_key(k) by {
        if has_key(after, k) {
            let p = key_index(after, k);
            assert(before[p].key == k);
        }
        if has_key(before, k) {
            let p = key_index(before, k);
            assert(after[p].key == k);
        }
        if k == key {
            assert(after[i].key == k);
        }
    }
    assert forall|k: K| entries_map(after).contains_key(k) implies entries_map(after)[k]
        == target[k] by {
        let p = key_index(after, k);
        lemma_entry_in_map(after, p);
        if k != key {
            assert(p != i);
            lemma_entry_in_map(before, p);
        } else {
            assert(p == i);
        }
    }
    assert(entries_map(after) =~= target);
}

/// Appending an entry with a key that the list lacks inserts it into the map.
pub proof fn lemma_pushed_map<K, V>(entries: Seq<Entry<K, V>>, entry: Entry<K, V>)
    requires
        distinct_keys(entries),
        !has_key(entries, entry.key),
    ensures
        distinct_keys(entries.push(entry)),
        entries_map(entries.push(entry)) == entries_map(entries).insert(entry.key, entry.value),
{
    let after = entries.push(entry);
    let target = entries_map(entries).insert(entry.key, entry.value);
    assert forall|a: int, b: int| 0 <= a < b < after.len() implies (#[trigger] after[a]).key != (
    #[trigger] after[b]).key by {
        if b == entries.len() {
            assert(entries[a].key != entry.key);
        }
    }
    assert forall|k: K| entries_map(after).contains_key(k) == target.contains_key(k) by {
        if has_key(after, k) {
            let p = key_index(after, k);
            if p < entries.len() {
                assert(entries[p].key == k);
            }
        }
        if has_key(entries, k) {
            let p = key_index(entries, k);
            assert(after[p].key == k);
        }
        if k == entry.key {
            assert(after[entries.len() as int].key == k);
        }
    }
    assert forall|k: K| entries_map(after).contains_key(k) implies entries_map(after)[k]
        == target[k] by {
        let p = key_index(after, k);
        lemma_entry_in_map(after, p);
        if p < entries.len() {
            lemma_entry_in_map(entries, p);
        }
    }
    assert(entries_map(after) =~= target);
}

/// Taking entry `i` out of the list removes its key from the map.
pub proof fn lemma_removed_map<K, V>(entries: Seq<Entry<K, V>>, i: int)
    requires
        distinct_keys(entries),
        0 <= i < entries.len(),
    ensures
        distinct_keys(entries.remove(i)),
        entries_map(entries.remove(i)) == entries_map(entries).remove(entries[i].key),
{
    let after = entries.remove(i);
    let key = entries[i].key;
    let target = entries_map(entries).remove(key);
    assert forall|a: int, b: int| 0 <= a < b < after.len() implies (#[trigger] after[a]).key != (
    #[trigger] after[b]).key by {
        let first = if a < i { a } else { a + 1 };
        let second = if b < i { b } else { b + 1 };
        assert(after[a] == entries[first]);
        assert(after[b] == entries[second]);
    }
    assert forall|k: K| entries_map(after).contains_key(k) == target.contains_key(k) by {
        if has_key(after, k) {
            let p = key_index(after, k);
            let source = if p < i { p } else { p + 1 };
            assert(entries[source].key == k);
            assert(source != i);
        }
        if has_key(entries, k) && k != key {
            let p = key_index(entries, k);
            let shifted = if p < i { p } else { p - 1 };
            assert(after[shifted].key == k);
        }
    }
    assert forall|k: K| entries_map(after).contains_key(k) implies entries_map(after)[k]
        == target[k] by {
        let p = key_index(after, k);
        lemma_entry_in_map(after, p);
        let source = if p < i { p } else { p + 1 };
        assert(after[p] == entries[source]);
        lemma_entry_in_map(entries, source);
    }
    assert(entries_map(after) =~= target);
}

impl<K: Key, V> View for AssocList<K, V> {
    type V = Map<K, V>;

    closed spec fn view(&self) -> Map<K, V> {
        entries_map(self.entries@)
    }
}

impl<K: Key, V> AssocList<K, V> {
    /// No key occurs twice.
    pub closed spec fn wf(&self) -> bool {
        distinct_keys(self.entries@)
    }

    /// The entries in the order in which their keys were first inserted.
    pub closed spec fn entries(&self) -> Seq<Entry<K, V>> {
        self.entries@
    }

    /// The map is the one that the entries stand for, and it is finite.
    pub proof fn lemma_view(&self)
        requires
            self.wf(),
        ensures
            self@ == entries_map(self.entries()),
            distinct_keys(self.entries()),
            self@.dom().finite(),
            self@.dom().len() == self.entries().len(),
    {
        Self::lemma_domain(self.entries@);
    }

    proof fn lemma_domain(entries: Seq<Entry<K, V>>)
        requires
            distinct_keys(entries),
        ensures
            entries_map(entries).dom().finite(),
            entries_map(entries).dom().len() == entries.len(),
        decreases entries.len(),
    {
        if entries.len() == 0 {
            assert(entries_map(entries).dom() =~= Set::<K>::empty());
        } else {
            let front = entries.drop_last();
            let last = entries.last();
            assert(distinct_keys(front)) by {
                assert forall|a: int, b: int| 0 <= a < b < front.len() implies (
                #[trigger] front[a]).key != (#[trigger] front[b]).key by {
                    assert(front[a] == entries[a]);
                    assert(front[b] == entries[b]);
                }
            }
            Self::lemma_domain(front);
            assert(!has_key(front, last.key)) by {
                if has_key(front, last.key) {
                    let p = key_index(front, last.key);
                    assert(entries[p].key == entries[entries.len() - 1].key);
                }
            }
            lemma_pushed_map(front, last);
            assert(front.push(last) =~= entries);
            assert(entries_map(entries).dom() =~= entries_map(front).dom().insert(last.key));
        }
    }

    /// A list without entries.
    pub fn new() -> (list: Self)
        ensures
            list.wf(),
            list@ == Map::<K, V>::empty(),
            list.entries() == Seq::<Entry<K, V>>::empty(),
    {
        let list = AssocList { entries: Vec::new() };
        assert(list@ =~= Map::<K, V>::empty());
        list
    }

    /// The number of entries, which is the number of keys where no key occurs twice.
    pub fn len(&self) -> (n: usize)
        ensures
            n == self.entries().len(),
            self.wf() ==> n == self@.dom().len(),
    {
        proof {
            if self.wf() {
                self.lemma_view();
            }
        }
        self.entries.len()
    }

    /// The position of `key` among the entries.
    pub fn position(&self, key: &K) -> (found: Option<usize>)
        requires
            self.wf(),
        ensures
            found is Some <==> self@.contains_key(*key),
            found matches Some(i) ==> i < self.entries().len() && self.entries()[i as int].key == *key
                && self.entries()[i as int].value == self@[*key],
    {
        let mut i: usize = 0;
        while i < self.entries.len()
            invariant
                i <= self.entries@.len(),
                self.wf(),
                forall|j: int| 0 <= j < i ==> (#[trigger] self.entries@[j]).key != *key,
            decreases self.entries@.len() - i,
        {
            if self.entries[i].key.same(key) {
                proof {
                    lemma_entry_in_map(self.entries@, i as int);
                }
                return Some(i);
            }
            i += 1;
        }
        None
    }

    /// The entry at position `i`.
    pub fn entry(&self, i: usize) -> (entry: &Entry<K, V>)
        requires
            i < self.entries().len(),
        ensures
            *entry == self.entries()[i as int],
            self.wf() ==> self@.contains_key(entry.key) && self@[entry.key] == entry.value,
    {
        proof {
            if self.wf() {
                lemma_entry_in_map(self.entries@, i as int);
            }
        }
        &self.entries[i]
    }

    /// The value under `key`, if there is one.
    pub fn get(&self, key: &K) -> (value: Option<&V>)
        requires
            self.wf(),
        ensures
            value is Some <==> self@.contains_key(*key),
            value matches Some(v) ==> *v == self@[*key],
    {
        match self.position(key) {
            Some(i) => Some(&self.entries[i].value),
            None => None,
        }
    }

    /// A handle on the value at position `i`. What is written through it becomes the
    /// value under that entry's key.
    pub fn value_mut(&mut self, i: usize) -> (value: &mut V)
        requires
            old(self).wf(),
            i < old(self).entries().len(),
        ensures
            final(self).wf(),
            *value == old(self).entries()[i as int].value,
            revalued(old(self).entries(), final(self).entries(), i as int),
            final(self).entries()[i as int].value == *final(value),
            final(self)@ == old(self)@.insert(old(self).entries()[i as int].key, *final(value)),
    {
        proof {
            let before = *self;
            assert forall|after: Self| revalued(before.entries@, after.entries@, i as int)
                implies #[trigger] after.wf() by {
                lemma_revalued_map(before.entries@, after.entries@, i as int);
            }
            assert forall|after: Self| revalued(before.entries@, after.entries@, i as int)
                implies (#[trigger] after@) == before@.insert(
                before.entries@[i as int].key,
                after.entries@[i as int].value,
            ) by {
                lemma_revalued_map(before.entries@, after.entries@, i as int);
            }
        }
        &mut self.entries[i].value
    }

    /// A handle on the value under `key`, if there is one. What is written through it
    /// becomes the value under `key`.
    pub fn get_mut(&mut self, key: &K) -> (value: Option<&mut V>)
        requires
            old(self).wf(),
        ensures
            final(self).wf(),
            value is Some <==> old(self)@.contains_key(*key),
            value matches Some(slot) ==> *slot == old(self)@[*key],
            value matches Some(slot) ==> final(self)@ == old(self)@.insert(*key, *final(slot)),
            value is None ==> final(self)@ == old(self)@,
    {
        match self.position(key) {
            Some(i) => Some(self.value_mut(i)),
            None => None,
        }
    }

    /// Stores `value` under `key` and hands back what was stored there before.
    pub fn insert(&mut self, key: K, value: V) -> (previous: Option<V>)
        requires
            old(self).wf(),
        ensures
            final(self).wf(),
            final(self)@ == old(self)@.insert(key, value),
            previous == (if old(self)@.contains_key(key) {
                Some(old(self)@[key])
            } else {
                None
            }),
            !old(self)@.contains_key(key) ==> final(self).entries() == old(self).entries().push(
                Entry { key, value },
            ),
            old(self)@.contains_key(key) ==> final(self).entries().len() == old(self).entries().len(),
    {
        match self.position(&key) {
            Some(i) => {
                let mut held = value;
                let slot = self.value_mut(i);
                core::mem::swap(slot, &mut held);
                Some(held)
            },
            None => {
                proof {
                    lemma_pushed_map(self.entries@, Entry { key, value });
                }
                self.entries.push(Entry { key, value });
                None
            },
        }
    }

    /// Takes the entry under `key` out and hands back its value.
    pub fn remove(&mut self, key: &K) -> (removed: Option<V>)
        requires
            old(self).wf(),
        ensures
            final(self).wf(),
            final(self)@ == old(self)@.remove(*key),
            removed == (if old(self)@.contains_key(*key) {
                Some(old(self)@[*key])
            } else {
                None
            }),
    {
        match self.position(key) {
            Some(i) => {
                proof {
                    lemma_removed_map(self.entries@, i as int);
                }
                let entry = self.entries.remove(i);
                Some(entry.value)
            },
            None => {
                assert(self@.remove(*key) =~= self@);
                None
            },
        }
    }
}

} // verus!
