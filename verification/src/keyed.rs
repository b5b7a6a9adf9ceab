//! A finite map keyed by 32-byte strings, kept as a vector of entries with
//! distinct keys.
use vstd::prelude::*;

use crate::bytes::bytes32_eq;

verus! {

/// The entries hold each key once, and hold exactly the keys and values of `m`.
spec fn entries_match<V>(e: Seq<([u8; 32], V)>, m: Map<[u8; 32], V>) -> bool {
    &&& forall|i: int, j: int| 0 <= i < j < e.len() ==> #[trigger] e[i].0 != #[trigger] e[j].0
    &&& forall|i: int|
        0 <= i < e.len() ==> {
            &&& m.contains_key(#[trigger] e[i].0)
            &&& m[e[i].0] == e[i].1
        }
    &&& forall|k: [u8; 32]|
        #[trigger] m.contains_key(k) ==> exists|i: int| 0 <= i < e.len() && #[trigger] e[i].0 == k
}

/// Overwriting the entry of a key that is there overwrites its value in the map.
proof fn lemma_entries_update<V>(
    e: Seq<([u8; 32], V)>,
    m: Map<[u8; 32], V>,
    i: int,
    key: [u8; 32],
    value: V,
)
    requires
        entries_match(e, m),
        0 <= i < e.len(),
        e[i].0 == key,
    ensures
        entries_match(e.update(i, (key, value)), m.insert(key, value)),
{
    let e1 = e.update(i, (key, value));
    let m1 = m.insert(key, value);
    assert forall|k: [u8; 32]| #[trigger] m1.contains_key(k) implies exists|j: int|
        0 <= j < e1.len() && #[trigger] e1[j].0 == k by {
        if k == key {
            assert(e1[i].0 == k);
        } else {
            let j = choose|j: int| 0 <= j < e.len() && #[trigger] e[j].0 == k;
            assert(e1[j].0 == k);
        }
    }
}

/// Appending an entry for a key that is not there adds the key to the map.
proof fn lemma_entries_push<V>(e: Seq<([u8; 32], V)>, m: Map<[u8; 32], V>, key: [u8; 32], value: V)
    requires
        entries_match(e, m),
        !m.contains_key(key),
    ensures
        entries_match(e.push((key, value)), m.insert(key, value)),
{
    let e1 = e.push((key, value));
    let m1 = m.insert(key, value);
    assert forall|k: [u8; 32]| #[trigger] m1.contains_key(k) implies exists|j: int|
        0 <= j < e1.len() && #[trigger] e1[j].0 == k by {
        if k == key {
            assert(e1[e.len() as int].0 == k);
        } else {
            let j = choose|j: int| 0 <= j < e.len() && #[trigger] e[j].0 == k;
            assert(e1[j].0 == k);
        }
    }
}

/// Taking out the entry of a key takes the key out of the map.
proof fn lemma_entries_remove<V>(e: Seq<([u8; 32], V)>, m: Map<[u8; 32], V>, i: int)
    requires
        entries_match(e, m),
        0 <= i < e.len(),
    ensures
        entries_match(e.remove(i), m.remove(e[i].0)),
{
    let key = e[i].0;
    let e1 = e.remove(i);
    let m1 = m.remove(key);
    assert forall|j: int| 0 <= j < e1.len() implies #[trigger] e1[j] == (if j < i {
        e[j]
    } else {
        e[j + 1]
    }) by {}
    assert forall|k: [u8; 32]| #[trigger] m1.contains_key(k) implies exists|j: int|
        0 <= j < e1.len() && #[trigger] e1[j].0 == k by {
        let j = choose|j: int| 0 <= j < e.len() && #[trigger] e[j].0 == k;
        assert(j != i);
        if j < i {
            assert(e1[j].0 == k);
        } else {
            assert(e1[j - 1].0 == k);
        }
    }
    assert forall|a: int, b: int| 0 <= a < b < e1.len() implies #[trigger] e1[a].0
        != #[trigger] e1[b].0 by {
        let a0 = if a < i { a } else { a + 1 };
        let b0 = if b < i { b } else { b + 1 };
        assert(e1[a] == e[a0]);
        assert(e1[b] == e[b0]);
        assert(e[a0].0 != e[b0].0);
    }
    assert forall|j: int| 0 <= j < e1.len() implies m1.contains_key(#[trigger] e1[j].0) && m1[e1[j].0]
        == e1[j].1 by {
        let j0 = if j < i { j } else { j + 1 };
        assert(e1[j] == e[j0]);
        assert(e[j0].0 != e[i].0);
    }
}

/// A map from 32-byte keys to values.
pub struct ByteKeyMap<V> {
    entries: Vec<([u8; 32], V)>,
    model: Ghost<Map<[u8; 32], V>>,
}

impl<V> View for ByteKeyMap<V> {
    type V = Map<[u8; 32], V>;

    closed spec fn view(&self) -> Map<[u8; 32], V> {
        self.model@
    }
}

impl<V> ByteKeyMap<V> {
    #[verifier::type_invariant]
    spec fn inv(self) -> bool {
        entries_match(self.entries@, self.model@)
    }
}

impl<V: Copy> ByteKeyMap<V> {
    /// An empty map.
    pub fn new() -> (m: Self)
        ensures
            m@ == Map::<[u8; 32], V>::empty(),
    {
        ByteKeyMap { entries: Vec::new(), model: Ghost(Map::empty()) }
    }

    /// The position of `key` among the entries, if it is there.
    fn find(&self, key: &[u8; 32]) -> (r: Option<usize>)
        ensures
            match r {
                Some(i) => i < self.entries@.len() && self.entries@[i as int].0 == *key,
                None => !self@.contains_key(*key),
            },
    {
        proof {
            use_type_invariant(self);
        }
        let n = self.entries.len();
        for i in 0..n
            invariant
                n == self.entries@.len(),
                forall|j: int| 0 <= j < i ==> self.entries@[j].0 != *key,
        {
            if bytes32_eq(&self.entries[i].0, key) {
                return Some(i);
            }
        }
        None
    }

    /// Whether `key` is in the map.
    pub fn contains_key(&self, key: &[u8; 32]) -> (r: bool)
        ensures
            r == self@.contains_key(*key),
    {
        proof {
            use_type_invariant(self);
        }
        match self.find(key) {
            Some(_) => true,
            None => false,
        }
    }

    /// The value under `key`, if there is one.
    pub fn get(&self, key: &[u8; 32]) -> (r: Option<V>)
        ensures
            r == (if self@.contains_key(*key) {
                Some(self@[*key])
            } else {
                None
            }),
    {
        proof {
            use_type_invariant(self);
        }
        match self.find(key) {
            Some(i) => Some(self.entries[i].1),
            None => None,
        }
    }

    /// Puts `value` under `key`, replacing what was there.
    pub fn insert(&mut self, key: [u8; 32], value: V)
        ensures
            final(self)@ == old(self)@.insert(key, value),
    {
        proof {
            use_type_invariant(&*self);
        }
        let pos = self.find(&key);
        let mut taken = ByteKeyMap::new();
        std::mem::swap(&mut taken, self);
        let ByteKeyMap { mut entries, model } = taken;
        match pos {
            Some(i) => {
                proof {
                    lemma_entries_update(entries@, model@, i as int, key, value);
                }
                entries.set(i, (key, value));
            },
            None => {
                proof {
                    lemma_entries_push(entries@, model@, key, value);
                }
                entries.push((key, value));
            },
        }
        *self = ByteKeyMap { entries, model: Ghost(model@.insert(key, value)) };
    }

    /// Takes `key` and its value out of the map.
    pub fn remove(&mut self, key: &[u8; 32])
        ensures
            final(self)@ == old(self)@.remove(*key),
    {
        proof {
            use_type_invariant(&*self);
        }
        match self.find(key) {
            Some(i) => {
                let mut taken = ByteKeyMap::new();
                std::mem::swap(&mut taken, self);
                let ByteKeyMap { mut entries, model } = taken;
                proof {
                    lemma_entries_remove(entries@, model@, i as int);
                }
                entries.remove(i);
                *self = ByteKeyMap { entries, model: Ghost(model@.remove(*key)) };
            },
            None => {
                assert(old(self)@.remove(*key) =~= old(self)@);
            },
        }
    }

    /// Every entry of the map, each key once.
    pub fn to_vec(&self) -> (r: Vec<([u8; 32], V)>)
        ensures
            forall|i: int| 0 <= i < r@.len() ==> self@.contains_key(#[trigger] r@[i].0) && self@[r@[i].0] == r@[i].1,
            forall|k: [u8; 32]| #[trigger] self@.contains_key(k) ==> exists|i: int|
                0 <= i < r@.len() && #[trigger] r@[i].0 == k,
            forall|i: int, j: int| 0 <= i < j < r@.len() ==> #[trigger] r@[i].0 != #[trigger] r@[j].0,
    {
        proof {
            use_type_invariant(self);
        }
        let mut r: Vec<([u8; 32], V)> = Vec::new();
        let n = self.entries.len();
        for i in 0..n
            invariant
                n == self.entries@.len(),
                r@ == self.entries@.subrange(0, i as int),
        {
            r.push(self.entries[i]);
            assert(r@ =~= self.entries@.subrange(0, i + 1));
        }
        assert(r@ =~= self.entries@);
        r
    }
}

} // verus!
