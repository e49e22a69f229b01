use vstd::prelude::*;

verus! {

/// A map that keeps its entries in the order in which their keys were first inserted.
#[derive(Debug, PartialEq)]
pub struct MapType<K, V> {
    pub map: Vec<(K, V)>,
}


impl<K, V> MapType<K, V> {
    /// An empty map.
    pub fn new() -> (r: Self)
        ensures
            r.map@ == Seq::<(K, V)>::empty(),
    {
        MapType { map: Vec::new() }
    }

    /// The number of entries.
    pub fn len(&self) -> (r: usize)
        ensures
            r == self.map@.len(),
    {
        self.map.len()
    }

    /// The value of the entry at position `index`, if there is one.
    pub fn get_index(&self, index: usize) -> (r: Option<&V>)
        ensures
            r is Some <==> index < self.map@.len(),
            r matches Some(x) ==> *x == self.map@[index as int].1,
    {
        if index < self.map.len() {
            Some(&self.map[index].1)
        } else {
            None
        }
    }
}


impl<K, V> MapType<K, V> {
    /// The value of the entry at position `index`, for change, if there is one.
    pub fn get_index_mut(&mut self, index: usize) -> (r: Option<&mut V>)
        ensures
            r is Some <==> index < old(self).map@.len(),
            r matches Some(x) ==> *x == old(self).map@[index as int].1 && final(self).map@
                == old(self).map@.update(index as int, (old(self).map@[index as int].0, *final(x))),
            r is None ==> *final(self) == *old(self),
    {
        if index < self.map.len() {
            Some(&mut self.map[index].1)
        } else {
            None
        }
    }
}


/// Position of the first entry whose key is the string `key`, searching from `from` on.
pub open spec fn key_position_from<V>(entries: Seq<(String, V)>, key: Seq<char>, from: int) -> Option<int>
    decreases entries.len() - from,
{
    if from < 0 || from >= entries.len() {
        None
    } else if entries[from].0@ == key {
        Some(from)
    } else {
        key_position_from(entries, key, from + 1)
    }
}

/// Position of the first entry whose key is the string `key`.
pub open spec fn key_position<V>(entries: Seq<(String, V)>, key: Seq<char>) -> Option<int> {
    key_position_from(entries, key, 0)
}

/// The entries after inserting `value` under `key`: the value of the entry with that key is
/// replaced where there is one; otherwise the entry is added at the end.
pub open spec fn string_insert<V>(entries: Seq<(String, V)>, key: String, value: V) -> Seq<(String, V)> {
    match key_position(entries, key@) {
        Some(p) => entries.update(p, (entries[p].0, value)),
        None => entries.push((key, value)),
    }
}

/// The entries after inserting each value under its key, in order, into an empty map.
pub open spec fn string_insert_all<V>(keys: Seq<String>, values: Seq<V>) -> Seq<(String, V)>
    decreases keys.len(),
{
    if keys.len() == 0 {
        Seq::empty()
    } else {
        string_insert(
            string_insert_all(keys.subrange(0, keys.len() - 1), values.subrange(0, keys.len() - 1)),
            keys[keys.len() - 1],
            values[keys.len() - 1],
        )
    }
}

/// A hit is a position whose key is the string searched for, and no earlier position from
/// `from` on holds that key.
pub proof fn lemma_key_position_from<V>(entries: Seq<(String, V)>, key: Seq<char>, from: int)
    requires
        0 <= from,
    ensures
        key_position_from(entries, key, from) matches Some(p) ==> from <= p < entries.len()
            && entries[p].0@ == key,
        key_position_from(entries, key, from) is None ==> forall|k: int|
            from <= k < entries.len() ==> #[trigger] entries[k].0@ != key,
    decreases entries.len() - from,
{
    if from < entries.len() {
        lemma_key_position_from(entries, key, from + 1);
    }
}

impl<V> MapType<String, V> {
    /// Inserts `value` under `key`: replaces the value of the entry with that key where there
    /// is one, and adds an entry at the end otherwise.
    pub fn insert(&mut self, key: String, value: V)
        ensures
            final(self).map@ == string_insert(old(self).map@, key, value),
    {
        let mut j: usize = 0;
        while j < self.map.len()
            invariant
                j <= self.map@.len(),
                self.map@ == old(self).map@,
                key_position(self.map@, key@) == key_position_from(self.map@, key@, j as int),
            decreases self.map@.len() - j,
        {
            if self.map[j].0 == key {
                let existing = self.map[j].0.clone();
                self.map.set(j, (existing, value));
                return;
            }
            j += 1;
        }
        self.map.push((key, value));
    }
}


/// Whether no two entries have keys that read the same.
pub open spec fn keys_distinct<V>(entries: Seq<(String, V)>) -> bool {
    forall|i: int, j: int|
        0 <= i < j < entries.len() ==> #[trigger] entries[i].0@ != #[trigger] entries[j].0@
}

/// Inserting keeps the keys distinct.
pub proof fn lemma_string_insert_distinct<V>(entries: Seq<(String, V)>, key: String, value: V)
    requires
        keys_distinct(entries),
    ensures
        keys_distinct(string_insert(entries, key, value)),
{
    lemma_key_position_from(entries, key@, 0);
    let r = string_insert(entries, key, value);
    match key_position(entries, key@) {
        Some(p) => {
            assert forall|i: int, j: int| 0 <= i < j < r.len() implies #[trigger] r[i].0@
                != #[trigger] r[j].0@ by {
                assert(r[i].0 == entries[i].0);
                assert(r[j].0 == entries[j].0);
            }
        },
        None => {
            assert forall|i: int, j: int| 0 <= i < j < r.len() implies #[trigger] r[i].0@
                != #[trigger] r[j].0@ by {
                if j < entries.len() {
                    assert(r[i] == entries[i]);
                    assert(r[j] == entries[j]);
                } else {
                    assert(r[i] == entries[i]);
                    assert(entries[i].0@ != key@);
                }
            }
        },
    }
}

} // verus!
