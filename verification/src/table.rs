//! A small associative table, read as a mathematical map.

use vstd::prelude::*;

verus! {

/// A type whose values can be told apart and copied at run time.
pub trait Key: View + Sized {
    /// Whether two keys stand for the same abstract key.
    fn same(&self, other: &Self) -> (same: bool)
        ensures
            same == (self@ == other@),
    ;

    /// A second key that stands for the same abstract key.
    fn copied(&self) -> (key: Self)
        ensures
            key@ == self@,
    ;
}

/// A type whose values can be copied at run time.
pub trait Value: View + Sized {
    /// A second value with the same abstract value.
    fn copied(&self) -> (value: Self)
        ensures
            value@ == self@,
    ;
}

/// Associates each key with at most one value.
///
/// Its view is the map from abstract keys to abstract values.
#[derive(Debug)]
pub struct Table<K: Key, V: Value> {
    entries: Vec<(K, V)>,
}

/// No two entries share a key.
spec fn distinct_keys<K: Key, V: Value>(entries: Seq<(K, V)>) -> bool {
    forall|i: int, j: int|
        0 <= i < j < entries.len() ==> #[trigger] entries[i].0@ != #[trigger] entries[j].0@
}

/// Some entry has the key `k`.
spec fn has_key<K: Key, V: Value>(entries: Seq<(K, V)>, k: K::V) -> bool {
    exists|i: int| 0 <= i < entries.len() && #[trigger] entries[i].0@ == k
}

/// The index of an entry with the key `k`.
spec fn index_of_key<K: Key, V: Value>(entries: Seq<(K, V)>, k: K::V) -> int {
    choose|i: int| 0 <= i < entries.len() && #[trigger] entries[i].0@ == k
}

/// What a sequence of entries means as a map.
spec fn map_of<K: Key, V: Value>(entries: Seq<(K, V)>) -> Map<K::V, V::V> {
    Map::new(
        |k: K::V| has_key(entries, k),
        |k: K::V| entries[index_of_key(entries, k)].1@,
    )
}

impl<K: Key, V: Value> View for Table<K, V> {
    type V = Map<K::V, V::V>;

    closed spec fn view(&self) -> Map<K::V, V::V> {
        map_of(self.entries@)
    }
}

/// An entry is what the map holds under the entry's key.
proof fn lemma_entry_in_map<K: Key, V: Value>(entries: Seq<(K, V)>, i: int)
    requires
        distinct_keys(entries),
        0 <= i < entries.len(),
    ensures
        map_of(entries).contains_key(entries[i].0@),
        map_of(entries)[entries[i].0@] == entries[i].1@,
{
    let k = entries[i].0@;
    assert(has_key(entries, k));
    let j = index_of_key(entries, k);
    assert(0 <= j < entries.len() && entries[j].0@ == k);
    assert(i == j);
}

/// Adding an entry under a new key inserts it into the map.
proof fn lemma_push<K: Key, V: Value>(entries: Seq<(K, V)>, key: K, value: V)
    requires
        distinct_keys(entries),
        !has_key(entries, key@),
    ensures
        distinct_keys(entries.push((key, value))),
        map_of(entries.push((key, value))) == map_of(entries).insert(key@, value@),
{
    let after = entries.push((key, value));
    assert forall|i: int, j: int| 0 <= i < j < after.len() implies #[trigger] after[i].0@
        != #[trigger] after[j].0@ by {
        if j == entries.len() {
            assert(after[i] == entries[i]);
        } else {
            assert(after[i] == entries[i] && after[j] == entries[j]);
        }
    }
    lemma_entry_in_map(after, entries.len() as int);
    let left = map_of(after);
    let right = map_of(entries).insert(key@, value@);
    assert forall|k: K::V|
        (#[trigger] left.dom().contains(k)) == right.dom().contains(k) && (left.dom().contains(k)
            ==> left[k] == right[k]) by {
        if k == key@ {
        } else if has_key(entries, k) {
            let i = index_of_key(entries, k);
            assert(0 <= i < entries.len() && entries[i].0@ == k);
            assert(after[i] == entries[i]);
            lemma_entry_in_map(after, i);
            lemma_entry_in_map(entries, i);
        } else if has_key(after, k) {
            let i = index_of_key(after, k);
            assert(0 <= i < after.len() && after[i].0@ == k);
            assert(after[i] == entries[i]);
            assert(has_key(entries, k));
        }
    }
    assert(left =~= right);
}

/// Overwriting an entry's value inserts it into the map.
proof fn lemma_overwrite<K: Key, V: Value>(entries: Seq<(K, V)>, at: int, key: K, value: V)
    requires
        distinct_keys(entries),
        0 <= at < entries.len(),
        entries[at].0@ == key@,
    ensures
        distinct_keys(entries.update(at, (key, value))),
        map_of(entries.update(at, (key, value))) == map_of(entries).insert(key@, value@),
{
    let after = entries.update(at, (key, value));
    assert forall|i: int| 0 <= i < after.len() implies #[trigger] after[i].0@ == entries[i].0@ by {}
    assert(distinct_keys(after));
    let left = map_of(after);
    let right = map_of(entries).insert(key@, value@);
    lemma_entry_in_map(after, at);
    assert forall|k: K::V|
        (#[trigger] left.dom().contains(k)) == right.dom().contains(k) && (left.dom().contains(k)
            ==> left[k] == right[k]) by {
        if k == key@ {
        } else if has_key(entries, k) {
            let i = index_of_key(entries, k);
            assert(0 <= i < entries.len() && entries[i].0@ == k);
            assert(after[i] == entries[i]);
            lemma_entry_in_map(after, i);
            lemma_entry_in_map(entries, i);
        } else if has_key(after, k) {
            let i = index_of_key(after, k);
            assert(0 <= i < after.len() && after[i].0@ == k);
            assert(entries[i].0@ == k);
            assert(has_key(entries, k));
        }
    }
    assert(left =~= right);
}

/// Dropping an entry removes its key from the map.
proof fn lemma_drop<K: Key, V: Value>(entries: Seq<(K, V)>, at: int)
    requires
        distinct_keys(entries),
        0 <= at < entries.len(),
    ensures
        distinct_keys(entries.remove(at)),
        map_of(entries.remove(at)) == map_of(entries).remove(entries[at].0@),
{
    let after = entries.remove(at);
    let key = entries[at].0@;
    assert forall|i: int, j: int| 0 <= i < j < after.len() implies #[trigger] after[i].0@
        != #[trigger] after[j].0@ by {
        let a = if i < at { i } else { i + 1 };
        let b = if j < at { j } else { j + 1 };
        assert(after[i] == entries[a] && after[j] == entries[b]);
    }
    let left = map_of(after);
    let right = map_of(entries).remove(key);
    assert forall|k: K::V|
        (#[trigger] left.dom().contains(k)) == right.dom().contains(k) && (left.dom().contains(k)
            ==> left[k] == right[k]) by {
        if has_key(after, k) {
            let i = index_of_key(after, k);
            assert(0 <= i < after.len() && after[i].0@ == k);
            let a = if i < at { i } else { i + 1 };
            assert(after[i] == entries[a]);
            lemma_entry_in_map(after, i);
            lemma_entry_in_map(entries, a);
            assert(entries[a].0@ != entries[at].0@);
        } else if k != key && has_key(entries, k) {
            let a = index_of_key(entries, k);
            assert(0 <= a < entries.len() && entries[a].0@ == k);
            let i = if a < at { a } else { a - 1 };
            assert(after[i] == entries[a]);
            assert(has_key(after, k));
        }
    }
    assert(left =~= right);
}

impl<K: Key, V: Value> Table<K, V> {
    #[verifier::type_invariant]
    spec fn inv(self) -> bool {
        distinct_keys(self.entries@)
    }

    /// The table without entries.
    pub fn new() -> (table: Self)
        ensures
            table@ == Map::<K::V, V::V>::empty(),
    {
        let table = Table { entries: Vec::new() };
        assert(table@ =~= Map::<K::V, V::V>::empty());
        table
    }

    /// The index of the entry with the key `key`.
    fn position(entries: &Vec<(K, V)>, key: &K) -> (at: Option<usize>)
        ensures
            match at {
                Some(i) => i < entries@.len() && entries@[i as int].0@ == key@,
                None => !has_key(entries@, key@),
            },
    {
        let mut i: usize = 0;
        while i < entries.len()
            invariant
                i <= entries@.len(),
                forall|j: int| 0 <= j < i ==> #[trigger] entries@[j].0@ != key@,
            decreases entries@.len() - i,
        {
            if entries[i].0.same(key) {
                return Some(i);
            }
            i += 1;
        }
        None
    }

    /// The value under `key`, where there is one.
    pub fn get(&self, key: &K) -> (value: Option<&V>)
        ensures
            match value {
                Some(v) => self@.contains_key(key@) && v@ == self@[key@],
                None => !self@.contains_key(key@),
            },
    {
        proof {
            use_type_invariant(self);
        }
        match Self::position(&self.entries, key) {
            Some(i) => {
                proof {
                    lemma_entry_in_map(self.entries@, i as int);
                }
                Some(&self.entries[i].1)
            },
            None => None,
        }
    }

    /// Every entry once, in no particular order.
    pub fn entries(&self) -> (entries: &Vec<(K, V)>)
        ensures
            forall|i: int|
                0 <= i < entries@.len() ==> self@.contains_key((#[trigger] entries@[i]).0@)
                    && self@[entries@[i].0@] == entries@[i].1@,
            forall|k: K::V| #[trigger]
                self@.contains_key(k) ==> exists|i: int|
                    0 <= i < entries@.len() && (#[trigger] entries@[i]).0@ == k,
            forall|i: int, j: int|
                0 <= i < j < entries@.len() ==> (#[trigger] entries@[i]).0@ != (
                #[trigger] entries@[j]).0@,
    {
        proof {
            use_type_invariant(self);
            assert forall|i: int| 0 <= i < self.entries@.len() implies self@.contains_key(
                (#[trigger] self.entries@[i]).0@,
            ) && self@[self.entries@[i].0@] == self.entries@[i].1@ by {
                lemma_entry_in_map(self.entries@, i);
            }
            assert forall|k: K::V| #[trigger] self@.contains_key(k) implies exists|i: int|
                0 <= i < self.entries@.len() && (#[trigger] self.entries@[i]).0@ == k by {
                let i = index_of_key(self.entries@, k);
                assert(has_key(self.entries@, k));
                assert(0 <= i < self.entries@.len() && self.entries@[i].0@ == k);
            }
        }
        &self.entries
    }

    /// Whether there is a value under `key`.
    pub fn contains_key(&self, key: &K) -> (found: bool)
        ensures
            found == self@.contains_key(key@),
    {
        self.get(key).is_some()
    }

    /// Puts `value` under `key`, in place of any earlier value.
    pub fn insert(&mut self, key: K, value: V)
        ensures
            final(self)@ == old(self)@.insert(key@, value@),
    {
        proof {
            use_type_invariant(&*self);
        }
        let mut entries: Vec<(K, V)> = Vec::new();
        std::mem::swap(&mut entries, &mut self.entries);
        match Self::position(&entries, &key) {
            Some(i) => {
                proof {
                    lemma_overwrite(entries@, i as int, key, value);
                }
                entries.set(i, (key, value));
            },
            None => {
                proof {
                    lemma_push(entries@, key, value);
                }
                entries.push((key, value));
            },
        }
        self.entries = entries;
    }

    /// Takes out and hands over the value under `key`, where there is one.
    pub fn remove(&mut self, key: &K) -> (removed: Option<V>)
        ensures
            final(self)@ == old(self)@.remove(key@),
            match removed {
                Some(v) => old(self)@.contains_key(key@) && v@ == old(self)@[key@],
                None => !old(self)@.contains_key(key@),
            },
    {
        proof {
            use_type_invariant(&*self);
        }
        let mut entries: Vec<(K, V)> = Vec::new();
        std::mem::swap(&mut entries, &mut self.entries);
        let removed: Option<V> = match Self::position(&entries, key) {
            Some(i) => {
                proof {
                    lemma_entry_in_map(entries@, i as int);
                    lemma_drop(entries@, i as int);
                }
                let (_, value) = entries.remove(i);
                Some(value)
            },
            None => {
                assert(map_of(entries@).remove(key@) =~= map_of(entries@));
                None
            },
        };
        self.entries = entries;
        removed
    }

    /// Puts every entry of `other` into this table, in place of earlier values.
    pub fn extend(&mut self, other: Self)
        ensures
            final(self)@ == old(self)@.union_prefer_right(other@),
    {
        proof {
            use_type_invariant(&other);
        }
        let ghost before = self@;
        let ghost whole = other@;
        let mut rest: Vec<(K, V)> = other.entries;
        assert(before.union_prefer_right(Map::<K::V, V::V>::empty()) =~= before);
        assert(map_of(rest@) == whole);
        while rest.len() > 0
            invariant
                distinct_keys(rest@),
                self@.union_prefer_right(map_of(rest@)) == before.union_prefer_right(whole),
            decreases rest@.len(),
        {
            let ghost left = rest@;
            let ghost now = self@;
            proof {
                lemma_entry_in_map(left, left.len() - 1);
                lemma_drop(left, left.len() - 1);
                assert(left.remove(left.len() - 1) =~= left.drop_last());
            }
            if let Some((key, value)) = rest.pop() {
                assert(left.last() == (key, value));
                self.insert(key, value);
                assert(self@.union_prefer_right(map_of(rest@)) =~= now.union_prefer_right(
                    map_of(left),
                ));
            }
        }
        assert(self@.union_prefer_right(map_of(rest@)) =~= self@);
    }
}

impl<K: Key, V: Value> Value for Table<K, V> {
    fn copied(&self) -> (table: Self) {
        proof {
            use_type_invariant(self);
        }
        let mut table: Table<K, V> = Table::new();
        let mut i: usize = 0;
        assert(map_of(self.entries@.take(0)) =~= Map::<K::V, V::V>::empty());
        while i < self.entries.len()
            invariant
                i <= self.entries@.len(),
                distinct_keys(self.entries@),
                table@ == map_of(self.entries@.take(i as int)),
            decreases self.entries@.len() - i,
        {
            let ghost done = self.entries@.take(i as int);
            let ghost entry = self.entries@[i as int];
            proof {
                assert forall|j: int| 0 <= j < done.len() implies #[trigger] done[j].0@
                    != entry.0@ by {
                    assert(done[j] == self.entries@[j]);
                }
                lemma_push(done, entry.0, entry.1);
                assert(done.push(entry) =~= self.entries@.take(i + 1));
            }
            table.insert(self.entries[i].0.copied(), self.entries[i].1.copied());
            i += 1;
        }
        assert(self.entries@.take(i as int) =~= self.entries@);
        table
    }
}

impl Key for String {
    fn same(&self, other: &String) -> (same: bool) {
        *self == *other
    }

    fn copied(&self) -> (text: String) {
        self.clone()
    }
}

} // verus!
