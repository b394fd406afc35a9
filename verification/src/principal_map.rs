//! A finite map keyed by principal.
//!
//! Keys and values sit in two parallel vectors, in the order in which the keys
//! were first inserted, and no key occurs twice. Lookups are linear scans that
//! compare principals one by one.

use crate::principal::principal_eq;
use candid::Principal;
use vstd::prelude::*;

verus! {

/// A finite map from principals to values of type `V`.
pub struct PrincipalMap<V> {
    keys: Vec<Principal>,
    values: Vec<V>,
}

/// The position of `p` in `keys`; meaningful only where `keys` contains `p`.
pub open spec fn slot_of(keys: Seq<Principal>, p: Principal) -> int {
    choose|i: int| 0 <= i < keys.len() && keys[i] == p
}

impl<V> PrincipalMap<V> {
    /// The keys, in insertion order.
    pub closed spec fn key_seq(&self) -> Seq<Principal> {
        self.keys@
    }

    /// The values, each at the position of its key.
    pub closed spec fn value_seq(&self) -> Seq<V> {
        self.values@
    }

    /// There is one value for each key, and no key occurs twice.
    pub open spec fn wf(&self) -> bool {
        &&& self.key_seq().len() == self.value_seq().len()
        &&& self.key_seq().no_duplicates()
    }

    /// The map that the two vectors stand for.
    pub open spec fn view(&self) -> Map<Principal, V> {
        Map::new(
            |p: Principal| self.key_seq().contains(p),
            |p: Principal| self.value_seq()[slot_of(self.key_seq(), p)],
        )
    }

    /// In a well-formed map the key at position `i` is bound to the value at
    /// position `i`.
    pub proof fn lemma_slot(&self, i: int)
        requires
            self.wf(),
            0 <= i < self.key_seq().len(),
        ensures
            slot_of(self.key_seq(), self.key_seq()[i]) == i,
            self@.contains_key(self.key_seq()[i]),
            self@[self.key_seq()[i]] == self.value_seq()[i],
    {
        let keys = self.key_seq();
        let j = slot_of(keys, keys[i]);
        assert(keys[j] == keys[i]);
    }

    /// Every key of the map sits at some position.
    pub proof fn lemma_key_has_slot(&self, p: Principal)
        requires
            self.wf(),
            self@.contains_key(p),
        ensures
            0 <= slot_of(self.key_seq(), p) < self.key_seq().len(),
            self.key_seq()[slot_of(self.key_seq(), p)] == p,
            self@[p] == self.value_seq()[slot_of(self.key_seq(), p)],
    {
        let keys = self.key_seq();
        let i = choose|i: int| 0 <= i < keys.len() && keys[i] == p;
        self.lemma_slot(i);
    }

    /// The empty map.
    pub fn new() -> (m: Self)
        ensures
            m.wf(),
            m.key_seq() == Seq::<Principal>::empty(),
            m@ == Map::<Principal, V>::empty(),
    {
        PrincipalMap { keys: Vec::new(), values: Vec::new() }
    }

    /// The number of keys.
    pub fn len(&self) -> (n: usize)
        requires
            self.wf(),
        ensures
            n == self.key_seq().len(),
    {
        self.keys.len()
    }

    /// The key at position `i` of the key order.
    pub fn key_at(&self, i: usize) -> (k: Principal)
        requires
            self.wf(),
            i < self.key_seq().len(),
        ensures
            k == self.key_seq()[i as int],
            self@.contains_key(k),
    {
        proof {
            self.lemma_slot(i as int);
        }
        self.keys[i]
    }

    /// The value bound to the key at position `i` of the key order.
    pub fn value_at(&self, i: usize) -> (v: &V)
        requires
            self.wf(),
            i < self.key_seq().len(),
        ensures
            *v == self.value_seq()[i as int],
            *v == self@[self.key_seq()[i as int]],
    {
        proof {
            self.lemma_slot(i as int);
        }
        &self.values[i]
    }

    /// Where `k` sits, if it is a key.
    pub fn position(&self, k: &Principal) -> (r: Option<usize>)
        requires
            self.wf(),
        ensures
            match r {
                Some(i) => i < self.key_seq().len() && self.key_seq()[i as int] == *k,
                None => !self.key_seq().contains(*k),
            },
            r is Some <==> self@.contains_key(*k),
    {
        let mut i: usize = 0;
        while i < self.keys.len()
            invariant
                i <= self.keys.len(),
                forall|j: int| 0 <= j < i ==> self.keys@[j] != *k,
            decreases self.keys.len() - i,
        {
            if principal_eq(&self.keys[i], k) {
                return Some(i);
            }
            i += 1;
        }
        None
    }

    /// Whether `k` is a key.
    pub fn contains_key(&self, k: &Principal) -> (found: bool)
        requires
            self.wf(),
        ensures
            found == self@.contains_key(*k),
    {
        self.position(k).is_some()
    }

    /// The value bound to `k`, if `k` is a key.
    pub fn get(&self, k: &Principal) -> (r: Option<&V>)
        requires
            self.wf(),
        ensures
            match r {
                Some(v) => self@.contains_key(*k) && *v == self@[*k],
                None => !self@.contains_key(*k),
            },
    {
        match self.position(k) {
            Some(i) => {
                proof {
                    self.lemma_slot(i as int);
                }
                Some(&self.values[i])
            },
            None => None,
        }
    }

    /// Binds `k` to `v`, and hands back the value that `k` was bound to before.
    /// A new key goes to the end of the key order; a key that was present keeps
    /// its place.
    pub fn insert(&mut self, k: Principal, v: V) -> (previous: Option<V>)
        requires
            old(self).wf(),
        ensures
            final(self).wf(),
            final(self)@ == old(self)@.insert(k, v),
            previous == if old(self)@.contains_key(k) {
                Some(old(self)@[k])
            } else {
                None
            },
            final(self).key_seq() == if old(self)@.contains_key(k) {
                old(self).key_seq()
            } else {
                old(self).key_seq().push(k)
            },
    {
        match self.position(&k) {
            Some(i) => {
                proof {
                    self.lemma_slot(i as int);
                }
                self.values.push(v);
                let previous = self.values.swap_remove(i);
                assert(self@ =~= old(self)@.insert(k, v)) by {
                    assert forall|p: Principal| self.key_seq().contains(p) implies #[trigger] self@[p]
                        == old(self)@.insert(k, v)[p] by {
                        old(self).lemma_key_has_slot(p);
                    }
                }
                Some(previous)
            },
            None => {
                self.keys.push(k);
                self.values.push(v);
                let ghost n = old(self).key_seq().len() as int;
                assert(self@ =~= old(self)@.insert(k, v)) by {
                    assert forall|p: Principal| self@.contains_key(p) <==> old(self)@.insert(
                        k,
                        v,
                    ).contains_key(p) by {
                        if old(self).key_seq().contains(p) {
                            let j = old(self).key_seq().index_of(p);
                            assert(self.key_seq()[j] == p);
                        }
                        if p == k {
                            assert(self.key_seq()[n] == p);
                        }
                    }
                    assert forall|p: Principal| self@.contains_key(p) implies #[trigger] self@[p]
                        == old(self)@.insert(k, v)[p] by {
                        self.lemma_key_has_slot(p);
                        if p != k {
                            old(self).lemma_key_has_slot(p);
                            let j = slot_of(old(self).key_seq(), p);
                            self.lemma_slot(j);
                        } else {
                            self.lemma_slot(n);
                        }
                    }
                }
                None
            },
        }
    }
}

} // verus!
