//! Verified key-value storage.
//!
//! The ledger host offers durable key-value maps; any store with the same
//! key spaces and query surface is acceptable, so the registries keep their
//! state in this verified association map instead. `KvMap` is viewed as a
//! mathematical `Map` from key views to value views; keys are never removed
//! (the registries only ever insert and overwrite), so no removal is offered.

use vstd::prelude::*;

use crate::host::AccountId;

verus! {

/// Exec-level keys: equality and cloning that agree with the key's view.
pub trait MapKey: View + Sized {
    fn key_eq(&self, other: &Self) -> (r: bool)
        ensures
            r == (self@ == other@),
    ;

    fn key_clone(&self) -> (r: Self)
        ensures
            r@ == self@,
    ;
}

impl MapKey for String {
    fn key_eq(&self, other: &Self) -> (r: bool) {
        self.eq(other)
    }

    fn key_clone(&self) -> (r: Self) {
        self.clone()
    }
}

impl MapKey for AccountId {
    fn key_eq(&self, other: &Self) -> (r: bool) {
        *self == *other
    }

    fn key_clone(&self) -> (r: Self) {
        *self
    }
}

impl MapKey for [u8; 32] {
    fn key_eq(&self, other: &Self) -> (r: bool) {
        let mut i: usize = 0;
        while i < 32
            invariant
                0 <= i <= 32,
                forall|j: int| 0 <= j < i ==> self@[j] == other@[j],
            decreases 32 - i,
        {
            if self[i] != other[i] {
                return false;
            }
            i = i + 1;
        }
        proof {
            assert(self@ =~= other@);
        }
        true
    }

    fn key_clone(&self) -> (r: Self) {
        *self
    }
}

/// No two keys of the sequence share a view.
spec fn distinct_keys<K: View>(keys: Seq<K>) -> bool {
    forall|i: int, j: int| 0 <= i < j < keys.len() ==> keys[i]@ != keys[j]@
}

/// The map described by parallel key and value sequences; on repeated
/// keys the later pair wins.
spec fn map_of<K: View, V: View>(keys: Seq<K>, vals: Seq<V>) -> Map<K::V, V::V>
    decreases keys.len(),
{
    if keys.len() == 0 || vals.len() == 0 {
        Map::empty()
    } else {
        map_of(keys.drop_last(), vals.drop_last()).insert(keys.last()@, vals.last()@)
    }
}

proof fn lemma_map_of_props<K: View, V: View>(keys: Seq<K>, vals: Seq<V>)
    requires
        keys.len() == vals.len(),
        distinct_keys(keys),
    ensures
        map_of(keys, vals).dom().finite(),
        map_of(keys, vals).dom().len() == keys.len(),
        forall|i: int| 0 <= i < keys.len() ==> map_of(keys, vals).contains_key(#[trigger] keys[i]@),
        forall|i: int| 0 <= i < keys.len() ==> map_of(keys, vals)[#[trigger] keys[i]@] == vals[i]@,
        forall|kv: K::V| #[trigger] map_of(keys, vals).contains_key(kv) ==> exists|i: int|
            0 <= i < keys.len() && keys[i]@ == kv,
    decreases keys.len(),
{
    if keys.len() == 0 {
    } else {
        let ks = keys.drop_last();
        let vs = vals.drop_last();
        let last = keys.last()@;
        lemma_map_of_props(ks, vs);
        assert(!map_of(ks, vs).contains_key(last)) by {
            if map_of(ks, vs).contains_key(last) {
                let i = choose|i: int| 0 <= i < ks.len() && ks[i]@ == last;
                assert(keys[i]@ == keys[keys.len() - 1]@);
            }
        }
        assert forall|i: int| 0 <= i < keys.len() implies map_of(keys, vals).contains_key(
            #[trigger] keys[i]@,
        ) && map_of(keys, vals)[keys[i]@] == vals[i]@ by {
            if i < keys.len() - 1 {
                assert(ks[i]@ == keys[i]@ && vs[i]@ == vals[i]@);
                assert(keys[i]@ != last);
            }
        }
        assert forall|kv: K::V| #[trigger] map_of(keys, vals).contains_key(kv) implies exists|i: int|
            0 <= i < keys.len() && keys[i]@ == kv by {
            if kv == last {
                assert(keys[keys.len() - 1]@ == kv);
            } else {
                assert(map_of(ks, vs).contains_key(kv));
                let i = choose|i: int| 0 <= i < ks.len() && ks[i]@ == kv;
                assert(keys[i]@ == kv);
            }
        }
    }
}

/// A verified association map: the registries' replacement for the host's
/// durable key-value mapping. Lookups scan; entries are inserted or
/// overwritten, never removed.
pub struct KvMap<K, V> {
    keys: Vec<K>,
    vals: Vec<V>,
}

impl<K: MapKey, V: View> View for KvMap<K, V> {
    type V = Map<K::V, V::V>;

    closed spec fn view(&self) -> Map<K::V, V::V> {
        map_of(self.keys@, self.vals@)
    }
}

impl<K: MapKey, V: View> KvMap<K, V> {
    /// Internal well-formedness: parallel columns and no duplicate keys.
    pub closed spec fn wf(self) -> bool {
        &&& self.keys@.len() == self.vals@.len()
        &&& distinct_keys(self.keys@)
    }

    pub proof fn lemma_dom(self)
        requires
            self.wf(),
        ensures
            self@.dom().finite(),
    {
        lemma_map_of_props(self.keys@, self.vals@);
    }

    pub fn new() -> (r: Self)
        ensures
            r.wf(),
            r@ == Map::<K::V, V::V>::empty(),
    {
        let r = KvMap { keys: Vec::new(), vals: Vec::new() };
        proof {
            assert(r@ =~= Map::<K::V, V::V>::empty());
        }
        r
    }

    /// Index of the key with view `k@`, if one is stored.
    fn index_of(&self, k: &K) -> (r: Option<usize>)
        requires
            self.wf(),
        ensures
            match r {
                Some(i) => i < self.keys@.len() && self.keys@[i as int]@ == k@
                    && self@.contains_key(k@) && self@[k@] == self.vals@[i as int]@,
                None => !self@.contains_key(k@),
            },
    {
        proof {
            lemma_map_of_props(self.keys@, self.vals@);
        }
        let mut i: usize = 0;
        let n = self.keys.len();
        while i < n
            invariant
                n == self.keys@.len(),
                0 <= i <= n,
                self.wf(),
                forall|j: int| 0 <= j < i ==> self.keys@[j]@ != k@,
            decreases n - i,
        {
            if self.keys[i].key_eq(k) {
                proof {
                    lemma_map_of_props(self.keys@, self.vals@);
                    assert(self.keys@[i as int]@ == k@);
                }
                return Some(i);
            }
            i = i + 1;
        }
        proof {
            lemma_map_of_props(self.keys@, self.vals@);
            if self@.contains_key(k@) {
                let j = choose|j: int| 0 <= j < self.keys@.len() && self.keys@[j]@ == k@;
                assert(self.keys@[j]@ == k@);
            }
        }
        None
    }

    pub fn contains(&self, k: &K) -> (r: bool)
        requires
            self.wf(),
        ensures
            r == self@.contains_key(k@),
    {
        match self.index_of(k) {
            Some(_) => true,
            None => false,
        }
    }

    pub fn get(&self, k: &K) -> (r: Option<&V>)
        requires
            self.wf(),
        ensures
            match r {
                Some(v) => self@.contains_key(k@) && v@ == self@[k@],
                None => !self@.contains_key(k@),
            },
    {
        match self.index_of(k) {
            Some(i) => Some(&self.vals[i]),
            None => None,
        }
    }

    /// Insert or overwrite.
    pub fn insert(&mut self, k: K, v: V)
        requires
            old(self).wf(),
        ensures
            final(self).wf(),
            final(self)@ == old(self)@.insert(k@, v@),
    {
        match self.index_of(&k) {
            Some(i) => {
                self.vals.set(i, v);
                proof {
                    lemma_map_of_update::<K, V>(old(self).keys@, old(self).vals@, i as int, v);
                    assert(final(self)@ =~= old(self)@.insert(k@, v@));
                }
            },
            None => {
                self.keys.push(k);
                self.vals.push(v);
                proof {
                    lemma_map_of_props(old(self).keys@, old(self).vals@);
                    assert(self.keys@.drop_last() =~= old(self).keys@);
                    assert(self.vals@.drop_last() =~= old(self).vals@);
                    assert(final(self)@ =~= old(self)@.insert(k@, v@));
                    assert forall|i: int, j: int|
                        0 <= i < j < self.keys@.len() implies self.keys@[i]@ != self.keys@[j]@ by {
                        if j == self.keys@.len() - 1 {
                            assert(old(self).keys@[i]@ != k@);
                        }
                    }
                }
            },
        }
    }
}

/// Updating the value column at the index of a stored key updates the map
/// at that key.
proof fn lemma_map_of_update<K: View, V: View>(keys: Seq<K>, vals: Seq<V>, i: int, v: V)
    requires
        keys.len() == vals.len(),
        distinct_keys(keys),
        0 <= i < keys.len(),
    ensures
        map_of(keys, vals.update(i, v)) == map_of(keys, vals).insert(keys[i]@, v@),
    decreases keys.len(),
{
    let vals2 = vals.update(i, v);
    lemma_map_of_props(keys, vals);
    lemma_map_of_props(keys, vals2);
    if i == keys.len() - 1 {
        assert(keys.drop_last() =~= keys.drop_last());
        assert(vals2.drop_last() =~= vals.drop_last());
        assert(vals2.last() == v);
        assert(map_of(keys, vals2) =~= map_of(keys, vals).insert(keys[i]@, v@));
    } else {
        lemma_map_of_update(keys.drop_last(), vals.drop_last(), i, v);
        assert(vals2.drop_last() =~= vals.drop_last().update(i, v));
        assert(vals2.last() == vals.last());
        assert(keys.drop_last()[i]@ == keys[i]@);
        assert(map_of(keys, vals2) =~= map_of(keys, vals).insert(keys[i]@, v@));
    }
}

} // verus!
