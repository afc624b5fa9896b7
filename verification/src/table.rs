//! A small map for contract state, searched by verified key comparison.

use vstd::prelude::*;

use crate::types::Key;

verus! {

/// A map from keys to values, at most one value per key.
#[derive(Debug)]
#[verifier::reject_recursive_types(K)]
pub struct Table<K, V> {
    rows: Vec<(K, V)>,
}

/// Whether `rows` holds a value for `key`.
spec fn holds<K, V>(rows: Seq<(K, V)>, key: K) -> bool {
    exists|i: int| 0 <= i < rows.len() && (#[trigger] rows[i]).0 == key
}

/// The position of `key` in `rows`.
spec fn position<K, V>(rows: Seq<(K, V)>, key: K) -> int {
    choose|i: int| 0 <= i < rows.len() && (#[trigger] rows[i]).0 == key
}

/// The map that `rows` stand for.
spec fn as_map<K, V>(rows: Seq<(K, V)>) -> Map<K, V> {
    Map::new(|key: K| holds(rows, key), |key: K| rows[position(rows, key)].1)
}

/// Whether no key occurs twice.
spec fn distinct_keys<K, V>(rows: Seq<(K, V)>) -> bool {
    forall|i: int, j: int|
        0 <= i < j < rows.len() ==> (#[trigger] rows[i]).0 != (#[trigger] rows[j]).0
}

impl<K, V> View for Table<K, V> {
    type V = Map<K, V>;

    closed spec fn view(&self) -> Map<K, V> {
        as_map(self.rows@)
    }
}

impl<K, V> Table<K, V> {
    #[verifier::type_invariant]
    spec fn one_value_per_key(self) -> bool {
        distinct_keys(self.rows@)
    }
}

impl<K: Key, V: Copy> Table<K, V> {
    /// A table without entries.
    pub fn new() -> (r: Self)
        ensures
            r@ == Map::<K, V>::empty(),
    {
        let r: Table<K, V> = Table { rows: Vec::new() };
        assert(r@ =~= Map::<K, V>::empty());
        r
    }

    /// The position of `key`, if it has a value.
    fn find(&self, key: &K) -> (r: Option<usize>)
        ensures
            match r {
                Some(i) => i < self.rows@.len() && self.rows@[i as int].0 == *key,
                None => !holds(self.rows@, *key),
            },
    {
        let mut i: usize = 0;
        while i < self.rows.len()
            invariant
                i <= self.rows@.len(),
                forall|j: int| 0 <= j < i ==> (#[trigger] self.rows@[j]).0 != *key,
            decreases self.rows@.len() - i,
        {
            if self.rows[i].0.same(key) {
                return Some(i);
            }
            i = i + 1;
        }
        None
    }

    /// The value of `key`, if it has one.
    pub fn get(&self, key: &K) -> (r: Option<V>)
        ensures
            r == (if self@.contains_key(*key) {
                Some(self@[*key])
            } else {
                None
            }),
    {
        proof {
            use_type_invariant(self);
        }
        match self.find(key) {
            Some(i) => {
                assert(holds(self.rows@, *key));
                Some(self.rows[i].1)
            },
            None => None,
        }
    }

    /// Gives `key` the value `value`, in place of any it had.
    pub fn set(&mut self, key: K, value: V)
        ensures
            final(self)@ == old(self)@.insert(key, value),
    {
        proof {
            use_type_invariant(&*self);
        }
        let ghost before = self.rows@;
        let found: Option<usize> = self.find(&key);
        let mut rows: Vec<(K, V)> = Vec::new();
        std::mem::swap(&mut rows, &mut self.rows);
        match found {
            Some(i) => {
                rows.set(i, (key, value));
            },
            None => {
                rows.push((key, value));
            },
        }
        proof {
            assert(distinct_keys(rows@));
            assert forall|k: K| #[trigger] holds(rows@, k) <==> holds(before, k) || k == key by {
                if holds(before, k) && k != key {
                    let j = position(before, k);
                    assert(rows@[j].0 == k);
                }
                if k == key {
                    assert(match found {
                        Some(i) => rows@[i as int].0 == key,
                        None => rows@[rows@.len() - 1].0 == key,
                    });
                }
                if holds(rows@, k) && k != key {
                    let j = position(rows@, k);
                    assert(before[j].0 == k);
                }
            }
            assert(as_map(rows@) =~= as_map(before).insert(key, value));
        }
        self.rows = rows;
    }

    /// Takes away the value of `key`, if it has one.
    pub fn remove(&mut self, key: &K)
        ensures
            final(self)@ == old(self)@.remove(*key),
    {
        proof {
            use_type_invariant(&*self);
        }
        let ghost before = self.rows@;
        match self.find(key) {
            Some(i) => {
                let mut rows: Vec<(K, V)> = Vec::new();
                std::mem::swap(&mut rows, &mut self.rows);
                let removed: (K, V) = rows.remove(i);
                proof {
                    assert(distinct_keys(rows@));
                    assert forall|k: K| #[trigger] holds(rows@, k) <==> holds(before, k) && k
                        != *key by {
                        if holds(before, k) && k != *key {
                            let j = position(before, k);
                            assert(rows@[if j < i { j } else { j - 1 }].0 == k);
                        }
                        if holds(rows@, k) {
                            let j = position(rows@, k);
                            assert(before[if j < i { j } else { j + 1 }].0 == k);
                        }
                    }
                    assert forall|k: K| holds(rows@, k) implies rows@[position(rows@, k)].1
                        == before[position(before, k)].1 by {
                        let j = position(rows@, k);
                        let b = if j < i { j } else { j + 1 };
                        assert(before[b].0 == k && before[b] == rows@[j]);
                        assert(holds(before, k));
                        assert(position(before, k) == b);
                    }
                    assert(as_map(rows@) =~= as_map(before).remove(*key));
                }
                self.rows = rows;
            },
            None => {
                assert(self@ =~= old(self)@.remove(*key));
            },
        }
    }
}

} // verus!
