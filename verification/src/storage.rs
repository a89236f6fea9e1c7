//! Contract storage: a finite map from storage keys to entries.

use vstd::prelude::*;

verus! {

/// A storage key: a plain value that can be told apart from any other.
pub trait StorageKey: Copy {
    /// Whether the two keys are equal.
    fn same(&self, other: &Self) -> (equal: bool)
        ensures
            equal == (*self == *other),
    ;
}

/// The entries of one contract, at most one per key.
pub struct Storage<K, V> {
    entries: Vec<(K, V)>,
}

/// Whether some entry of `entries` stands under `key`.
spec fn holds_key<K, V>(entries: Seq<(K, V)>, key: K) -> bool {
    exists|i: int| 0 <= i < entries.len() && (#[trigger] entries[i]).0 == key
}

/// The map that a list of entries with distinct keys stands for.
spec fn contents<K, V>(entries: Seq<(K, V)>) -> Map<K, V> {
    Map::new(
        |key: K| holds_key(entries, key),
        |key: K|
            entries[choose|i: int| 0 <= i < entries.len() && (#[trigger] entries[i]).0 == key].1,
    )
}

/// Whether no key occurs twice.
spec fn distinct_keys<K, V>(entries: Seq<(K, V)>) -> bool {
    forall|i: int, j: int|
        0 <= i < j < entries.len() ==> (#[trigger] entries[i]).0 != (#[trigger] entries[j]).0
}

impl<K, V> View for Storage<K, V> {
    type V = Map<K, V>;

    closed spec fn view(&self) -> Map<K, V> {
        contents(self.entries@)
    }
}

impl<K: StorageKey, V: Copy> Storage<K, V> {
    /// Whether the representation is sound: no key occurs twice.
    pub closed spec fn wf(&self) -> bool {
        distinct_keys(self.entries@)
    }

    /// Storage without entries.
    pub fn new() -> (storage: Self)
        ensures
            storage.wf(),
            storage@ == Map::<K, V>::empty(),
    {
        let storage = Storage { entries: Vec::new() };
        assert(storage@ =~= Map::<K, V>::empty());
        storage
    }

    /// The position of `key` among the entries, if it is there.
    fn position(&self, key: &K) -> (found: Option<usize>)
        requires
            self.wf(),
        ensures
            match found {
                Some(i) => {
                    &&& i < self.entries@.len()
                    &&& self.entries@[i as int].0 == *key
                    &&& self@.contains_key(*key)
                    &&& self@[*key] == self.entries@[i as int].1
                },
                None => !self@.contains_key(*key) && !holds_key(self.entries@, *key),
            },
    {
        let mut i: usize = 0;
        while i < self.entries.len()
            invariant
                i <= self.entries@.len(),
                forall|j: int| 0 <= j < i ==> (#[trigger] self.entries@[j]).0 != *key,
                self.wf(),
            decreases self.entries@.len() - i,
        {
            if self.entries[i].0.same(key) {
                assert(holds_key(self.entries@, *key)) by {
                    assert(self.entries@[i as int].0 == *key);
                }
                return Some(i);
            }
            i += 1;
        }
        None
    }

    /// Whether `key` has an entry.
    pub fn has(&self, key: &K) -> (found: bool)
        requires
            self.wf(),
        ensures
            found == self@.contains_key(*key),
    {
        self.position(key).is_some()
    }

    /// The entry under `key`, if there is one.
    pub fn get(&self, key: &K) -> (value: Option<V>)
        requires
            self.wf(),
        ensures
            value == (if self@.contains_key(*key) {
                Some(self@[*key])
            } else {
                None
            }),
    {
        match self.position(key) {
            Some(i) => Some(self.entries[i].1),
            None => None,
        }
    }

    /// Writes `value` under `key`, in place of what stood there.
    pub fn set(&mut self, key: K, value: V)
        requires
            old(self).wf(),
        ensures
            final(self).wf(),
            final(self)@ == old(self)@.insert(key, value),
    {
        let ghost before = self.entries@;
        match self.position(&key) {
            Some(i) => {
                self.entries.set(i, (key, value));
                proof {
                    lemma_contents_update(before, i as int, key, value);
                }
            },
            None => {
                self.entries.push((key, value));
                proof {
                    lemma_contents_push(before, key, value);
                }
            },
        }
    }

    /// Removes the entry under `key`, if there is one.
    pub fn remove(&mut self, key: &K)
        requires
            old(self).wf(),
        ensures
            final(self).wf(),
            final(self)@ == old(self)@.remove(*key),
    {
        let ghost before = self.entries@;
        match self.position(key) {
            Some(i) => {
                let _ = self.entries.remove(i);
                proof {
                    lemma_contents_remove(before, i as int);
                }
            },
            None => {
                assert(self@ =~= old(self)@.remove(*key));
            },
        }
    }
}

/// What stands at a position is what the map holds under its key.
proof fn lemma_contents_at<K, V>(entries: Seq<(K, V)>, i: int)
    requires
        distinct_keys(entries),
        0 <= i < entries.len(),
    ensures
        contents(entries).contains_key(entries[i].0),
        contents(entries)[entries[i].0] == entries[i].1,
{
    assert(holds_key(entries, entries[i].0));
}

proof fn lemma_contents_update<K, V>(entries: Seq<(K, V)>, i: int, key: K, value: V)
    requires
        distinct_keys(entries),
        0 <= i < entries.len(),
        entries[i].0 == key,
    ensures
        distinct_keys(entries.update(i, (key, value))),
        contents(entries.update(i, (key, value))) == contents(entries).insert(key, value),
{
    let after = entries.update(i, (key, value));
    assert(distinct_keys(after));
    assert forall|k: K| #[trigger] contents(after).contains_key(k) == contents(entries).insert(
        key,
        value,
    ).contains_key(k) by {
        if holds_key(entries, k) {
            let j = choose|j: int| 0 <= j < entries.len() && (#[trigger] entries[j]).0 == k;
            assert(after[j].0 == k);
        }
        if holds_key(after, k) {
            let j = choose|j: int| 0 <= j < after.len() && (#[trigger] after[j]).0 == k;
            assert(entries[j].0 == k);
        }
        assert(after[i].0 == key);
    }
    assert forall|k: K| #[trigger] contents(after).contains_key(k) implies contents(after)[k]
        == contents(entries).insert(key, value)[k] by {
        let j = choose|j: int| 0 <= j < after.len() && (#[trigger] after[j]).0 == k;
        lemma_contents_at(after, j);
        lemma_contents_at(entries, j);
    }
    assert(contents(after) =~= contents(entries).insert(key, value));
}

proof fn lemma_contents_push<K, V>(entries: Seq<(K, V)>, key: K, value: V)
    requires
        distinct_keys(entries),
        !holds_key(entries, key),
    ensures
        distinct_keys(entries.push((key, value))),
        contents(entries.push((key, value))) == contents(entries).insert(key, value),
{
    let after = entries.push((key, value));
    assert(distinct_keys(after));
    assert(after[entries.len() as int] == (key, value));
    assert forall|k: K| #[trigger] contents(after).contains_key(k) == contents(entries).insert(
        key,
        value,
    ).contains_key(k) by {
        if holds_key(entries, k) {
            let j = choose|j: int| 0 <= j < entries.len() && (#[trigger] entries[j]).0 == k;
            assert(after[j].0 == k);
        }
        if holds_key(after, k) && k != key {
            let j = choose|j: int| 0 <= j < after.len() && (#[trigger] after[j]).0 == k;
            assert(entries[j].0 == k);
        }
    }
    assert forall|k: K| #[trigger] contents(after).contains_key(k) implies contents(after)[k]
        == contents(entries).insert(key, value)[k] by {
        let j = choose|j: int| 0 <= j < after.len() && (#[trigger] after[j]).0 == k;
        lemma_contents_at(after, j);
        if j < entries.len() {
            assert(after[j] == entries[j]);
            lemma_contents_at(entries, j);
        }
    }
    assert(contents(after) =~= contents(entries).insert(key, value));
}

proof fn lemma_contents_remove<K, V>(entries: Seq<(K, V)>, i: int)
    requires
        distinct_keys(entries),
        0 <= i < entries.len(),
    ensures
        distinct_keys(entries.remove(i)),
        contents(entries.remove(i)) == contents(entries).remove(entries[i].0),
{
    let after = entries.remove(i);
    let key = entries[i].0;
    assert forall|a: int, b: int| 0 <= a < b < after.len() implies (#[trigger] after[a]).0 != (
    #[trigger] after[b]).0 by {
        let a0 = if a < i { a } else { a + 1 };
        let b0 = if b < i { b } else { b + 1 };
        assert(after[a] == entries[a0] && after[b] == entries[b0]);
    }
    assert forall|k: K| #[trigger] contents(after).contains_key(k) == contents(entries).remove(
        key,
    ).contains_key(k) by {
        if holds_key(entries, k) && k != key {
            let j = choose|j: int| 0 <= j < entries.len() && (#[trigger] entries[j]).0 == k;
            assert(after[if j < i { j } else { j - 1 }].0 == k);
        }
        if holds_key(after, k) {
            let j = choose|j: int| 0 <= j < after.len() && (#[trigger] after[j]).0 == k;
            assert(entries[if j < i { j } else { j + 1 }].0 == k);
        }
    }
    assert forall|k: K| #[trigger] contents(after).contains_key(k) implies contents(after)[k]
        == contents(entries).remove(key)[k] by {
        let j = choose|j: int| 0 <= j < after.len() && (#[trigger] after[j]).0 == k;
        lemma_contents_at(after, j);
        let j0 = if j < i { j } else { j + 1 };
        assert(after[j] == entries[j0]);
        lemma_contents_at(entries, j0);
    }
    assert(contents(after) =~= contents(entries).remove(key));
}

} // verus!
