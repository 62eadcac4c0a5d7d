//! The key-value store of batch timestamps.
//!
//! The durable storage engine is a host concern: an opaque persistent map.
//! Here it is modelled as an injected, in-memory store with the same
//! `set`/`get` contract, so the whole submission pipeline can be verified
//! and exercised against it. The store is a list of distinct keys with
//! their values, viewed as a `Map` from identifier characters to timestamp.

use vstd::prelude::*;

verus! {

/// A persistent mapping from batch identifier to submission timestamp.
/// Entries are created or overwritten by `set`, never deleted.
pub struct BatchStore {
    keys: Vec<String>,
    vals: Vec<u64>,
}

/// The map spelled by parallel key and value lists, later entries
/// overriding earlier ones.
spec fn map_of(keys: Seq<String>, vals: Seq<u64>) -> Map<Seq<char>, u64>
    decreases keys.len(),
{
    if keys.len() == 0 || vals.len() == 0 {
        Map::empty()
    } else {
        map_of(keys.drop_last(), vals.drop_last()).insert(keys.last()@, vals.last())
    }
}

impl View for BatchStore {
    type V = Map<Seq<char>, u64>;

    closed spec fn view(&self) -> Map<Seq<char>, u64> {
        map_of(self.keys@, self.vals@)
    }
}

/// A key is in the spelled map exactly when it is in the key list.
proof fn lemma_map_of_contains(keys: Seq<String>, vals: Seq<u64>, k: Seq<char>)
    requires
        keys.len() == vals.len(),
    ensures
        map_of(keys, vals).contains_key(k) <==> exists|i: int|
            0 <= i < keys.len() && keys[i]@ == k,
    decreases keys.len(),
{
    if keys.len() > 0 {
        lemma_map_of_contains(keys.drop_last(), vals.drop_last(), k);
        if map_of(keys, vals).contains_key(k) {
            if keys.last()@ == k {
                assert(keys[keys.len() - 1]@ == k);
            } else {
                let i = choose|i: int| 0 <= i < keys.len() - 1 && keys.drop_last()[i]@ == k;
                assert(keys[i]@ == k);
            }
        }
        if exists|i: int| 0 <= i < keys.len() && keys[i]@ == k {
            let i = choose|i: int| 0 <= i < keys.len() && keys[i]@ == k;
            if i < keys.len() - 1 {
                assert(keys.drop_last()[i]@ == k);
            }
        }
    }
}

/// With distinct keys, the spelled map sends each listed key to its value.
proof fn lemma_map_of_get(keys: Seq<String>, vals: Seq<u64>, i: int)
    requires
        keys.len() == vals.len(),
        forall|p: int, q: int| 0 <= p < q < keys.len() ==> keys[p]@ != keys[q]@,
        0 <= i < keys.len(),
    ensures
        map_of(keys, vals).contains_key(keys[i]@),
        map_of(keys, vals)[keys[i]@] == vals[i],
    decreases keys.len(),
{
    if i < keys.len() - 1 {
        lemma_map_of_get(keys.drop_last(), vals.drop_last(), i);
        assert(keys.drop_last()[i]@ == keys[i]@);
        assert(keys[i]@ != keys.last()@);
    }
}

/// Updating the value at a listed key spells the map with that key
/// re-inserted.
proof fn lemma_map_of_update(keys: Seq<String>, vals: Seq<u64>, i: int, v: u64)
    requires
        keys.len() == vals.len(),
        forall|p: int, q: int| 0 <= p < q < keys.len() ==> keys[p]@ != keys[q]@,
        0 <= i < keys.len(),
    ensures
        map_of(keys, vals.update(i, v)) == map_of(keys, vals).insert(keys[i]@, v),
    decreases keys.len(),
{
    let updated = vals.update(i, v);
    if i == keys.len() - 1 {
        assert(updated.drop_last() =~= vals.drop_last());
        assert(updated.last() == v);
        assert(map_of(keys.drop_last(), vals.drop_last()).insert(keys.last()@, v) =~= map_of(
            keys,
            vals,
        ).insert(keys.last()@, v));
    } else {
        lemma_map_of_update(keys.drop_last(), vals.drop_last(), i, v);
        assert(updated.drop_last() =~= vals.drop_last().update(i, v));
        assert(updated.last() == vals.last());
        assert(keys.drop_last()[i]@ == keys[i]@);
        assert(keys[i]@ != keys.last()@);
        assert(map_of(keys.drop_last(), vals.drop_last()).insert(keys[i]@, v).insert(
            keys.last()@,
            vals.last(),
        ) =~= map_of(keys, vals).insert(keys[i]@, v));
    }
}

/// Appending a fresh key and value spells the map with that pair inserted.
proof fn lemma_map_of_push(keys: Seq<String>, vals: Seq<u64>, k: String, v: u64)
    requires
        keys.len() == vals.len(),
    ensures
        map_of(keys.push(k), vals.push(v)) == map_of(keys, vals).insert(k@, v),
{
    assert(keys.push(k).drop_last() =~= keys);
    assert(vals.push(v).drop_last() =~= vals);
}

impl BatchStore {
    /// Distinct keys, one value per key.
    pub closed spec fn wf(&self) -> bool {
        &&& self.keys@.len() == self.vals@.len()
        &&& forall|p: int, q: int| 0 <= p < q < self.keys@.len() ==> self.keys@[p]@ != self.keys@[q]@
    }

    /// An empty store.
    pub fn new() -> (r: BatchStore)
        ensures
            r.wf(),
            r@ == Map::<Seq<char>, u64>::empty(),
    {
        BatchStore { keys: Vec::new(), vals: Vec::new() }
    }

    /// Writes `val` under `key`, overwriting any entry already there.
    pub fn set(&mut self, key: String, val: u64)
        requires
            old(self).wf(),
        ensures
            final(self).wf(),
            final(self)@ == old(self)@.insert(key@, val),
    {
        let n = self.keys.len();
        let mut i: usize = 0;
        while i < n
            invariant
                *self == *old(self),
                self.wf(),
                n == self.keys@.len(),
                i <= n,
                forall|j: int| 0 <= j < i ==> self.keys@[j]@ != key@,
            decreases n - i,
        {
            if self.keys[i] == key {
                proof {
                    lemma_map_of_update(self.keys@, self.vals@, i as int, val);
                }
                self.vals[i] = val;
                return ;
            }
            i = i + 1;
        }
        proof {
            lemma_map_of_push(self.keys@, self.vals@, key, val);
        }
        self.keys.push(key);
        self.vals.push(val);
        proof {
            assert forall|p: int, q: int|
                0 <= p < q < self.keys@.len() implies self.keys@[p]@ != self.keys@[q]@ by {
                if q == self.keys@.len() - 1 {
                    assert(self.keys@[p]@ != key@);
                }
            }
        }
    }

    /// Reads the value under `key`; `None` when the key is absent.
    pub fn get(&self, key: &String) -> (r: Option<u64>)
        requires
            self.wf(),
        ensures
            r == if self@.contains_key(key@) {
                Some(self@[key@])
            } else {
                None::<u64>
            },
    {
        let n = self.keys.len();
        let mut i: usize = 0;
        while i < n
            invariant
                self.wf(),
                n == self.keys@.len(),
                i <= n,
                forall|j: int| 0 <= j < i ==> self.keys@[j]@ != key@,
            decreases n - i,
        {
            if self.keys[i] == *key {
                proof {
                    lemma_map_of_get(self.keys@, self.vals@, i as int);
                }
                return Some(self.vals[i]);
            }
            i = i + 1;
        }
        proof {
            lemma_map_of_contains(self.keys@, self.vals@, key@);
        }
        None
    }
}

} // verus!
