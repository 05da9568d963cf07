//! A verified multimap: each key owns an ordered list of values.
//!
//! Delegated-authorization lists and the owner/operator/sensor indices are
//! dynamic memberships over an id; they are kept here as a map from key to
//! value list, viewed as `Map<key view, Seq<value view>>`.

use vstd::prelude::*;

use crate::kv::{KvMap, MapKey};

verus! {

/// The views of the elements of `s`, in order.
pub open spec fn seq_view<V: View>(s: Seq<V>) -> Seq<V::V> {
    Seq::new(s.len(), |i: int| s[i]@)
}

/// `s` with every occurrence of `x` removed, order otherwise kept.
pub open spec fn seq_remove_all<T>(s: Seq<T>, x: T) -> Seq<T>
    decreases s.len(),
{
    if s.len() == 0 {
        Seq::empty()
    } else if s.last() == x {
        seq_remove_all(s.drop_last(), x)
    } else {
        seq_remove_all(s.drop_last(), x).push(s.last())
    }
}

/// The list held under `k`, the empty list when `k` is absent: a missing
/// key and an empty list are the same business state.
pub open spec fn list_at<KV, VV>(m: Map<KV, Seq<VV>>, k: KV) -> Seq<VV> {
    if m.contains_key(k) {
        m[k]
    } else {
        Seq::empty()
    }
}

/// A value list, viewed as the sequence of its elements' views.
struct ValueList<V>(Vec<V>);

impl<V: View> View for ValueList<V> {
    type V = Seq<V::V>;

    closed spec fn view(&self) -> Seq<V::V> {
        seq_view(self.0@)
    }
}

/// A map from keys to ordered value lists.
pub struct ListMap<K, V> {
    inner: KvMap<K, ValueList<V>>,
}

impl<K: MapKey, V: MapKey> View for ListMap<K, V> {
    type V = Map<K::V, Seq<V::V>>;

    closed spec fn view(&self) -> Map<K::V, Seq<V::V>> {
        self.inner@
    }
}

impl<K: MapKey, V: MapKey> ListMap<K, V> {
    pub closed spec fn wf(self) -> bool {
        self.inner.wf()
    }

    pub fn new() -> (r: Self)
        ensures
            r.wf(),
            r@ == Map::<K::V, Seq<V::V>>::empty(),
    {
        ListMap { inner: KvMap::new() }
    }

    /// The list stored under `k`, cloned; empty when `k` is absent.
    pub fn values(&self, k: &K) -> (r: Vec<V>)
        requires
            self.wf(),
        ensures
            seq_view(r@) == list_at(self@, k@),
    {
        match self.inner.get(k) {
            Some(l) => clone_values(&l.0),
            None => {
                let r = Vec::new();
                proof {
                    assert(seq_view(r@) =~= list_at(self@, k@));
                }
                r
            },
        }
    }

    /// Append `v` to the list under `k`, creating the list if needed.
    pub fn push_value(&mut self, k: K, v: V)
        requires
            old(self).wf(),
        ensures
            final(self).wf(),
            final(self)@ == old(self)@.insert(k@, list_at(old(self)@, k@).push(v@)),
    {
        let mut l = self.values(&k);
        let ghost old_view = seq_view(l@);
        l.push(v);
        proof {
            assert(seq_view(l@) =~= old_view.push(v@));
        }
        self.inner.insert(k, ValueList(l));
    }

    /// Remove every occurrence of `v` from the list under `k`; an absent
    /// key is left as an (empty) list.
    pub fn remove_value(&mut self, k: &K, v: &V)
        requires
            old(self).wf(),
        ensures
            final(self).wf(),
            final(self)@ == old(self)@.insert(
                k@,
                seq_remove_all(list_at(old(self)@, k@), v@),
            ),
    {
        let l = self.values(k);
        let n = l.len();
        let mut kept: Vec<V> = Vec::new();
        let mut i: usize = 0;
        proof {
            assert(seq_view(l@).subrange(0, 0) =~= Seq::<V::V>::empty());
            assert(seq_view(kept@) =~= seq_remove_all(seq_view(l@).subrange(0, 0), v@));
        }
        while i < n
            invariant
                n == l@.len(),
                0 <= i <= n,
                seq_view(kept@) == seq_remove_all(seq_view(l@).subrange(0, i as int), v@),
            decreases n - i,
        {
            let ghost prefix = seq_view(l@).subrange(0, i as int);
            let ghost kept_view = seq_view(kept@);
            if !l[i].key_eq(v) {
                kept.push(l[i].key_clone());
                proof {
                    assert(seq_view(kept@) =~= kept_view.push(l@[i as int]@));
                }
            }
            i = i + 1;
            proof {
                let longer = seq_view(l@).subrange(0, i as int);
                assert(longer.drop_last() =~= prefix);
                assert(longer.last() == l@[i - 1]@);
            }
        }
        proof {
            assert(seq_view(l@).subrange(0, n as int) =~= seq_view(l@));
        }
        self.inner.insert(k.key_clone(), ValueList(kept));
    }

    /// Whether the list under `k` holds a value with `v`'s view.
    pub fn contains_value(&self, k: &K, v: &V) -> (r: bool)
        requires
            self.wf(),
        ensures
            r == list_at(self@, k@).contains(v@),
    {
        match self.inner.get(k) {
            Some(l) => {
                proof {
                    assert(list_at(self@, k@) == seq_view(l.0@));
                }
                let n = l.0.len();
                let mut i: usize = 0;
                while i < n
                    invariant
                        n == l.0@.len(),
                        0 <= i <= n,
                        list_at(self@, k@) == seq_view(l.0@),
                        forall|j: int| 0 <= j < i ==> l.0@[j]@ != v@,
                    decreases n - i,
                {
                    if l.0[i].key_eq(v) {
                        proof {
                            assert(seq_view(l.0@)[i as int] == v@);
                        }
                        return true;
                    }
                    i = i + 1;
                }
                proof {
                    if list_at(self@, k@).contains(v@) {
                        let j = choose|j: int|
                            0 <= j < list_at(self@, k@).len() && list_at(self@, k@)[j] == v@;
                        assert(l.0@[j]@ == v@);
                    }
                }
                false
            },
            None => {
                proof {
                    assert(!list_at(self@, k@).contains(v@));
                }
                false
            },
        }
    }
}

/// Clone a list element by element, keeping every element's view.
fn clone_values<V: MapKey>(src: &Vec<V>) -> (r: Vec<V>)
    ensures
        seq_view(r@) == seq_view(src@),
{
    let n = src.len();
    let mut r: Vec<V> = Vec::new();
    let mut i: usize = 0;
    while i < n
        invariant
            n == src@.len(),
            0 <= i <= n,
            r@.len() == i,
            forall|j: int| 0 <= j < i ==> r@[j]@ == src@[j]@,
        decreases n - i,
    {
        r.push(src[i].key_clone());
        i = i + 1;
    }
    proof {
        assert(seq_view(r@) =~= seq_view(src@));
    }
    r
}

} // verus!
