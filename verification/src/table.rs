//! A map from string keys to values, kept as a list of keys in which nothing
//! occurs twice and a list of values of the same length.

use vstd::prelude::*;
use crate::text::str_eq;

verus! {

/// A finite map keyed by strings. Its view is the map from each key's
/// characters to the value stored under it.
#[derive(Debug)]
pub struct Table<V> {
    keys: Vec<String>,
    values: Vec<V>,
}

/// Whether no two positions of `keys` carry the same characters.
pub open spec fn keys_distinct(keys: Seq<String>) -> bool {
    forall|i: int, j: int|
        0 <= i < keys.len() && 0 <= j < keys.len() && i != j ==> #[trigger] keys[i]@
            != #[trigger] keys[j]@
}

/// Whether `key` occurs in `keys`.
pub open spec fn has_key(keys: Seq<String>, key: Seq<char>) -> bool {
    exists|i: int| 0 <= i < keys.len() && #[trigger] keys[i]@ == key
}

/// A position of `keys` that carries `key`.
pub open spec fn position_of(keys: Seq<String>, key: Seq<char>) -> int {
    choose|i: int| 0 <= i < keys.len() && #[trigger] keys[i]@ == key
}

/// The map that a list of keys and the list of their values stand for.
pub open spec fn entries_view<V>(keys: Seq<String>, values: Seq<V>) -> Map<Seq<char>, V> {
    Map::new(|key: Seq<char>| has_key(keys, key), |key: Seq<char>| values[position_of(keys, key)])
}

/// Under distinct keys, the value at position `i` is what the map holds
/// under the key at that position.
pub proof fn lemma_entry_in_view<V>(keys: Seq<String>, values: Seq<V>, i: int)
    requires
        keys_distinct(keys),
        0 <= i < keys.len(),
    ensures
        entries_view(keys, values).contains_key(keys[i]@),
        entries_view(keys, values)[keys[i]@] == values[i],
{
    let key = keys[i]@;
    assert(has_key(keys, key));
    assert(position_of(keys, key) == i);
}

/// Appending a fresh key and its value inserts the pair into the map.
pub proof fn lemma_push_fresh<V>(keys: Seq<String>, values: Seq<V>, key: String, value: V)
    requires
        keys_distinct(keys),
        keys.len() == values.len(),
        !has_key(keys, key@),
    ensures
        keys_distinct(keys.push(key)),
        entries_view(keys.push(key), values.push(value)) == entries_view(keys, values).insert(
            key@,
            value,
        ),
{
    let grown = keys.push(key);
    assert forall|i: int, j: int|
        0 <= i < grown.len() && 0 <= j < grown.len() && i != j implies #[trigger] grown[i]@
        != #[trigger] grown[j]@ by {
        if i < keys.len() && j < keys.len() {
            assert(keys[i]@ != keys[j]@);
        } else if i < keys.len() {
            assert(keys[i]@ == grown[i]@);
        } else {
            assert(keys[j]@ == grown[j]@);
        }
    }
    let after = entries_view(grown, values.push(value));
    let want = entries_view(keys, values).insert(key@, value);
    assert forall|k: Seq<char>| after.contains_key(k) == want.contains_key(k) by {
        if has_key(grown, k) {
            let p = position_of(grown, k);
            if p < keys.len() {
                assert(keys[p]@ == k);
            }
        }
        if has_key(keys, k) {
            let p = position_of(keys, k);
            assert(grown[p]@ == k);
        }
        if k == key@ {
            assert(grown[keys.len() as int]@ == k);
        }
    }
    assert forall|k: Seq<char>| after.contains_key(k) implies after[k] == want[k] by {
        let p = position_of(grown, k);
        lemma_entry_in_view(grown, values.push(value), p);
        if p < keys.len() {
            assert(keys[p]@ == k);
            lemma_entry_in_view(keys, values, p);
        }
    }
    assert(after =~= want);
}

/// Replacing the value at position `i` inserts the new value under the key
/// at that position.
pub proof fn lemma_replace<V>(keys: Seq<String>, values: Seq<V>, i: int, value: V)
    requires
        keys_distinct(keys),
        keys.len() == values.len(),
        0 <= i < keys.len(),
    ensures
        entries_view(keys, values.update(i, value)) == entries_view(keys, values).insert(
            keys[i]@,
            value,
        ),
{
    let after = entries_view(keys, values.update(i, value));
    let want = entries_view(keys, values).insert(keys[i]@, value);
    assert forall|k: Seq<char>| after.contains_key(k) == want.contains_key(k) by {
        if k == keys[i]@ {
            assert(has_key(keys, k));
        }
    }
    assert forall|k: Seq<char>| after.contains_key(k) implies after[k] == want[k] by {
        let p = position_of(keys, k);
        lemma_entry_in_view(keys, values.update(i, value), p);
        lemma_entry_in_view(keys, values, p);
    }
    assert(after =~= want);
}

/// Under distinct keys, the map has as many keys as the list has.
pub proof fn lemma_view_len<V>(keys: Seq<String>, values: Seq<V>)
    requires
        keys_distinct(keys),
        keys.len() == values.len(),
    ensures
        entries_view(keys, values).dom().finite(),
        entries_view(keys, values).dom().len() == keys.len(),
    decreases keys.len(),
{
    if keys.len() == 0 {
        assert(entries_view(keys, values).dom() =~= Set::<Seq<char>>::empty());
    } else {
        let front = keys.drop_last();
        assert forall|i: int, j: int|
            0 <= i < front.len() && 0 <= j < front.len() && i != j implies #[trigger] front[i]@
            != #[trigger] front[j]@ by {
            assert(keys[i]@ != keys[j]@);
        }
        lemma_view_len(front, values.drop_last());
        if has_key(front, keys.last()@) {
            let p = position_of(front, keys.last()@);
            assert(keys[p]@ == keys[keys.len() - 1]@);
        }
        lemma_push_fresh(front, values.drop_last(), keys.last(), values.last());
        assert(front.push(keys.last()) =~= keys);
        assert(values.drop_last().push(values.last()) =~= values);
    }
}

impl<V> View for Table<V> {
    type V = Map<Seq<char>, V>;

    closed spec fn view(&self) -> Map<Seq<char>, V> {
        entries_view(self.keys@, self.values@)
    }
}

impl<V> Table<V> {
    #[verifier::type_invariant]
    spec fn well_formed(&self) -> bool {
        &&& self.keys@.len() == self.values@.len()
        &&& keys_distinct(self.keys@)
    }

    /// The empty table.
    pub fn new() -> (table: Self)
        ensures
            table@ == Map::<Seq<char>, V>::empty(),
    {
        let table = Table { keys: Vec::new(), values: Vec::new() };
        assert(table@ =~= Map::<Seq<char>, V>::empty());
        table
    }

    /// The position of `key` among the keys, if it is there.
    fn find(&self, key: &str) -> (found: Option<usize>)
        ensures
            match found {
                Some(i) => i < self.keys@.len() && self.keys@[i as int]@ == key@,
                None => !has_key(self.keys@, key@),
            },
    {
        let mut i: usize = 0;
        while i < self.keys.len()
            invariant
                i <= self.keys@.len(),
                forall|j: int| 0 <= j < i ==> (#[trigger] self.keys@[j])@ != key@,
            decreases self.keys@.len() - i,
        {
            if str_eq(self.keys[i].as_str(), key) {
                return Some(i);
            }
            i += 1;
        }
        None
    }

    /// Whether the table holds a value under `key`.
    pub fn contains_key(&self, key: &str) -> (present: bool)
        ensures
            present == self@.contains_key(key@),
    {
        self.find(key).is_some()
    }

    /// The value under `key`, if there is one.
    pub fn get(&self, key: &str) -> (value: Option<&V>)
        ensures
            match value {
                Some(v) => self@.contains_key(key@) && *v == self@[key@],
                None => !self@.contains_key(key@),
            },
    {
        proof {
            use_type_invariant(self);
        }
        match self.find(key) {
            Some(i) => {
                proof {
                    lemma_entry_in_view(self.keys@, self.values@, i as int);
                }
                Some(&self.values[i])
            },
            None => None,
        }
    }

    /// A mutable reference to the value under `key`, if there is one. What
    /// is written through it is what the table then holds under `key`.
    pub fn get_mut(&mut self, key: &str) -> (value: Option<&mut V>)
        ensures
            match value {
                Some(v) => old(self)@.contains_key(key@) && *v == old(self)@[key@] && final(self)@
                    == old(self)@.insert(key@, *final(v)),
                None => !old(self)@.contains_key(key@) && final(self)@ == old(self)@,
            },
    {
        proof {
            use_type_invariant(&*self);
        }
        match self.find(key) {
            Some(i) => {
                proof {
                    lemma_entry_in_view(self.keys@, self.values@, i as int);
                    assert forall|w: V| #[trigger]
                        entries_view(self.keys@, self.values@.update(i as int, w)) == entries_view(
                            self.keys@,
                            self.values@,
                        ).insert(key@, w) by {
                        lemma_replace(self.keys@, self.values@, i as int, w);
                    }
                }
                Some(&mut self.values[i])
            },
            None => None,
        }
    }

    /// Stores `value` under `key`, in place of any value that was there.
    pub fn insert(&mut self, key: String, value: V)
        ensures
            final(self)@ == old(self)@.insert(key@, value),
    {
        proof {
            use_type_invariant(&*self);
        }
        let found = self.find(key.as_str());
        let mut emptied: Table<V> = Table { keys: Vec::new(), values: Vec::new() };
        std::mem::swap(&mut emptied, self);
        let Table { mut keys, mut values } = emptied;
        match found {
            Some(i) => {
                proof {
                    lemma_replace(keys@, values@, i as int, value);
                }
                values.set(i, value);
            },
            None => {
                proof {
                    lemma_push_fresh(keys@, values@, key, value);
                }
                keys.push(key);
                values.push(value);
            },
        }
        *self = Table { keys, values };
    }

    /// The keys, each once, in no order that callers may rely on.
    pub fn keys(&self) -> (keys: &Vec<String>)
        ensures
            keys_distinct(keys@),
            forall|key: Seq<char>| has_key(keys@, key) <==> self@.contains_key(key),
    {
        proof {
            use_type_invariant(self);
        }
        &self.keys
    }

    /// The number of keys.
    pub fn len(&self) -> (n: usize)
        ensures
            n == self@.len(),
            self@.dom().finite(),
    {
        proof {
            use_type_invariant(self);
            lemma_view_len(self.keys@, self.values@);
        }
        self.keys.len()
    }
}

impl<V: Clone> Clone for Table<V> {
    /// A table with the same keys, each with a clone of its value.
    fn clone(&self) -> (copy: Self)
        ensures
            copy@.dom() == self@.dom(),
            forall|key: Seq<char>| #[trigger]
                self@.contains_key(key) ==> cloned(self@[key], copy@[key]),
    {
        proof {
            use_type_invariant(self);
        }
        let keys = self.keys.clone();
        let values = self.values.clone();
        proof {
            assert forall|i: int| 0 <= i < keys@.len() implies #[trigger] keys@[i] == self.keys@[i] by {
                assert(cloned(self.keys@[i], keys@[i]));
            }
            assert(keys@ =~= self.keys@);
        }
        let copy = Table { keys, values };
        proof {
            assert(copy@.dom() =~= self@.dom());
            assert forall|key: Seq<char>| #[trigger] self@.contains_key(key) implies cloned(
                self@[key],
                copy@[key],
            ) by {
                let p = position_of(self.keys@, key);
                lemma_entry_in_view(self.keys@, self.values@, p);
                lemma_entry_in_view(copy.keys@, copy.values@, p);
            }
        }
        copy
    }
}

} // verus!
