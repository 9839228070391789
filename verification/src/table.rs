//! A map from texts to values that keeps its entries in insertion order.

use crate::text::same_text;
use vstd::prelude::*;

verus! {

/// A map from texts to values. No key occurs twice, and an entry keeps its place when its value
/// is replaced.
#[verifier::reject_recursive_types(V)]
pub struct Table<V> {
    entries: Vec<(String, V)>,
}

/// Whether some entry has the key `k`.
pub open spec fn has_key<V>(entries: Seq<(String, V)>, k: Seq<char>) -> bool {
    exists|i: int| 0 <= i < entries.len() && #[trigger] entries[i].0@ == k
}

/// The position of an entry with the key `k`.
pub open spec fn position<V>(entries: Seq<(String, V)>, k: Seq<char>) -> int {
    choose|i: int| 0 <= i < entries.len() && #[trigger] entries[i].0@ == k
}

/// Whether all keys differ from each other.
pub open spec fn distinct_keys<V>(entries: Seq<(String, V)>) -> bool {
    forall|i: int, j: int|
        0 <= i < entries.len() && 0 <= j < entries.len() && i != j ==> #[trigger] entries[i].0@
            != #[trigger] entries[j].0@
}

/// The map that a list of entries stands for.
pub open spec fn as_map<V: View>(entries: Seq<(String, V)>) -> Map<Seq<char>, V::V> {
    Map::new(|k: Seq<char>| has_key(entries, k), |k: Seq<char>| entries[position(entries, k)].1@)
}

impl<V: View> View for Table<V> {
    type V = Map<Seq<char>, V::V>;

    closed spec fn view(&self) -> Map<Seq<char>, V::V> {
        as_map(self.entries@)
    }
}

impl<V> Table<V> {
    #[verifier::type_invariant]
    spec fn well_formed(self) -> bool {
        distinct_keys(self.entries@)
    }

    /// The keys, in the order of the entries.
    pub closed spec fn keys(&self) -> Seq<Seq<char>> {
        self.entries@.map_values(|e: (String, V)| e.0@)
    }
}

impl<V: View> Table<V> {
    /// An empty table.
    pub fn new() -> (r: Self)
        ensures
            r@ == Map::<Seq<char>, V::V>::empty(),
            r.keys() == Seq::<Seq<char>>::empty(),
    {
        let r = Table { entries: Vec::new() };
        assert(r@ =~= Map::<Seq<char>, V::V>::empty());
        r
    }

    /// The position of the entry for `key`, if there is one.
    fn find(&self, key: &str) -> (r: Option<usize>)
        ensures
            match r {
                Some(i) => i < self.entries@.len() && self.entries@[i as int].0@ == key@ && position(
                    self.entries@,
                    key@,
                ) == i && self@.contains_key(key@),
                None => !has_key(self.entries@, key@) && !self@.contains_key(key@),
            },
    {
        proof {
            use_type_invariant(self);
        }
        let mut i: usize = 0;
        while i < self.entries.len()
            invariant
                i <= self.entries@.len(),
                distinct_keys(self.entries@),
                forall|j: int| 0 <= j < i ==> #[trigger] self.entries@[j].0@ != key@,
            decreases self.entries@.len() - i,
        {
            if same_text(self.entries[i].0.as_str(), key) {
                assert(has_key(self.entries@, key@));
                return Some(i);
            }
            i = i + 1;
        }
        None
    }

    /// The value stored for `key`.
    pub fn get(&self, key: &str) -> (r: Option<&V>)
        ensures
            match r {
                Some(v) => self@.contains_key(key@) && v@ == self@[key@],
                None => !self@.contains_key(key@),
            },
    {
        match self.find(key) {
            Some(i) => Some(&self.entries[i].1),
            None => None,
        }
    }

    /// Whether a value is stored for `key`.
    pub fn contains_key(&self, key: &str) -> (r: bool)
        ensures
            r == self@.contains_key(key@),
    {
        self.find(key).is_some()
    }

    /// The number of entries. Each key of the table occurs exactly once among them.
    pub fn len(&self) -> (r: usize)
        ensures
            r == self.keys().len(),
            self.keys().no_duplicates(),
            forall|k: Seq<char>| self@.contains_key(k) <==> #[trigger] self.keys().contains(k),
    {
        proof {
            use_type_invariant(self);
            assert forall|k: Seq<char>| self@.contains_key(k) <==> #[trigger] self.keys().contains(k) by {
                if self.keys().contains(k) {
                    let i = choose|i: int| 0 <= i < self.keys().len() && self.keys()[i] == k;
                    assert(self.entries@[i].0@ == k);
                }
                if has_key(self.entries@, k) {
                    assert(self.keys()[position(self.entries@, k)] == k);
                }
            }
        }
        self.entries.len()
    }

    /// The entry at position `i`.
    pub fn entry(&self, i: usize) -> (r: (&String, &V))
        requires
            i < self.keys().len(),
        ensures
            r.0@ == self.keys()[i as int],
            self@.contains_key(r.0@),
            r.1@ == self@[r.0@],
    {
        proof {
            use_type_invariant(self);
            let k = self.entries@[i as int].0@;
            assert(has_key(self.entries@, k));
            assert(position(self.entries@, k) == i);
        }
        (&self.entries[i].0, &self.entries[i].1)
    }

    /// Stores `value` for `key`, in place of a value stored for it before. A new key comes last.
    pub fn insert(&mut self, key: String, value: V)
        ensures
            final(self)@ == old(self)@.insert(key@, value@),
            final(self).keys() == (if old(self)@.contains_key(key@) {
                old(self).keys()
            } else {
                old(self).keys().push(key@)
            }),
    {
        let found = self.find(key.as_str());
        proof {
            use_type_invariant(&*self);
        }
        let mut entries: Vec<(String, V)> = Vec::new();
        core::mem::swap(&mut entries, &mut self.entries);
        let ghost before = entries@;
        let ghost new_entry = (key, value);
        match found {
            Some(i) => {
                entries.set(i, (key, value));
                proof {
                    assert(distinct_keys(entries@)) by {
                        assert forall|a: int, b: int| 0 <= a < entries@.len() && 0 <= b < entries@.len() && a != b implies #[trigger] entries@[a].0@ != #[trigger] entries@[b].0@ by {
                            assert(before[a].0@ != before[b].0@);
                        }
                    }
                    assert forall|k: Seq<char>| has_key(entries@, k) == has_key(before, k) by {
                        if has_key(before, k) {
                            assert(entries@[position(before, k)].0@ == k);
                        }
                        if has_key(entries@, k) {
                            assert(before[position(entries@, k)].0@ == k);
                        }
                    }
                    assert forall|k: Seq<char>| has_key(before, k) implies position(entries@, k) == position(before, k) by {
                        assert(entries@[position(before, k)].0@ == k);
                        assert(before[position(entries@, k)].0@ == k);
                    }
                }
            },
            None => {
                entries.push((key, value));
                proof {
                    assert(entries@[before.len() as int].0@ == new_entry.0@);
                    assert(distinct_keys(entries@)) by {
                        assert forall|a: int, b: int| 0 <= a < entries@.len() && 0 <= b < entries@.len() && a != b implies #[trigger] entries@[a].0@ != #[trigger] entries@[b].0@ by {
                            if a < before.len() && b < before.len() {
                                assert(before[a].0@ != before[b].0@);
                            } else if a < before.len() {
                                assert(before[a].0@ != new_entry.0@);
                            } else {
                                assert(before[b].0@ != new_entry.0@);
                            }
                        }
                    }
                    assert forall|k: Seq<char>| has_key(entries@, k) == (has_key(before, k) || k == new_entry.0@) by {
                        if has_key(before, k) {
                            assert(entries@[position(before, k)].0@ == k);
                        }
                        if has_key(entries@, k) && k != new_entry.0@ {
                            assert(before[position(entries@, k)].0@ == k);
                        }
                    }
                    assert forall|k: Seq<char>| has_key(before, k) implies position(entries@, k) == position(before, k) by {
                        assert(entries@[position(before, k)].0@ == k);
                    }
                }
            },
        }
        assert(as_map(entries@) =~= as_map(before).insert(new_entry.0@, new_entry.1@));
        self.entries = entries;
    }

    /// Drops the entry for `key`, if there is one. The others keep their order.
    pub fn remove(&mut self, key: &str)
        ensures
            final(self)@ == old(self)@.remove(key@),
            final(self).keys() == old(self).keys().remove_value(key@),
    {
        let found = self.find(key);
        let ghost keys_before = self.keys();
        proof {
            use_type_invariant(&*self);
            keys_before.index_of_first_ensures(key@);
            if let Some(i) = found {
                assert(keys_before[i as int] == key@);
            }
        }
        if let Some(i) = found {
            let mut entries: Vec<(String, V)> = Vec::new();
            core::mem::swap(&mut entries, &mut self.entries);
            let ghost before = entries@;
            entries.remove(i);
            proof {
                let after = entries@;
                assert(after =~= before.remove(i as int));
                assert forall|k: Seq<char>| has_key(after, k) == (has_key(before, k) && k != key@) by {
                    if has_key(before, k) && k != key@ {
                        let p = position(before, k);
                        assert(after[if p < i { p } else { p - 1 }].0@ == k);
                    }
                    if has_key(after, k) {
                        let p = position(after, k);
                        assert(before[if p < i { p } else { p + 1 }].0@ == k);
                    }
                }
                assert(distinct_keys(after)) by {
                    assert forall|a: int, b: int| 0 <= a < after.len() && 0 <= b < after.len() && a != b implies #[trigger] after[a].0@ != #[trigger] after[b].0@ by {
                        let a1 = if a < i { a } else { a + 1 };
                        let b1 = if b < i { b } else { b + 1 };
                        assert(before[a1].0@ != before[b1].0@);
                    }
                }
                assert forall|k: Seq<char>| has_key(after, k) implies after[position(after, k)].1@ == before[position(before, k)].1@ by {
                    let p = position(after, k);
                    let q = if p < i { p } else { p + 1 };
                    assert(before[q].0@ == k);
                    assert(q == position(before, k));
                }
                assert(as_map(after) =~= as_map(before).remove(key@));
                let first = keys_before.index_of_first(key@)->0;
                assert(before[first].0@ == key@);
                assert(first == i);
            }
            self.entries = entries;
            assert(self.keys() =~= keys_before.remove(i as int));
        } else {
            assert(self@ =~= old(self)@.remove(key@));
            assert(!keys_before.contains(key@)) by {
                if keys_before.contains(key@) {
                    let j = choose|j: int| 0 <= j < keys_before.len() && keys_before[j] == key@;
                    assert(self.entries@[j].0@ == key@);
                }
            }
        }
    }
}

} // verus!
