//! A keyed store: the model of a contract's persistent storage for one kind
//! of key, with no two entries under the same key.

use crate::ids::{Address, Hash32};
use vstd::prelude::*;

verus! {

/// A value that can serve as a storage key: it can be compared and copied
/// by its view.
pub trait StoreKey: View + Sized {
    fn same_key(&self, other: &Self) -> (r: bool)
        ensures
            r == (self@ == other@),
    ;

    fn copy_key(&self) -> (r: Self)
        ensures
            r@ == self@,
    ;
}

/// A value that can be stored and read back by copy.
pub trait StoreValue: View + Sized {
    fn copy_value(&self) -> (r: Self)
        ensures
            r@ == self@,
    ;
}

/// The view of an optional value.
pub open spec fn opt_view<T: View>(o: Option<T>) -> Option<T::V> {
    match o {
        Some(t) => Some(t@),
        None => None,
    }
}

impl StoreKey for Hash32 {
    fn same_key(&self, other: &Self) -> (r: bool) {
        self.same(other)
    }

    fn copy_key(&self) -> (r: Self) {
        *self
    }
}

impl StoreKey for Address {
    fn same_key(&self, other: &Self) -> (r: bool) {
        self.same(other)
    }

    fn copy_key(&self) -> (r: Self) {
        self.clone()
    }
}

impl StoreKey for u32 {
    fn same_key(&self, other: &Self) -> (r: bool) {
        *self == *other
    }

    fn copy_key(&self) -> (r: Self) {
        *self
    }
}

impl StoreValue for Address {
    fn copy_value(&self) -> (r: Self) {
        self.clone()
    }
}

impl StoreValue for Hash32 {
    fn copy_value(&self) -> (r: Self) {
        *self
    }
}

impl StoreValue for u64 {
    fn copy_value(&self) -> (r: Self) {
        *self
    }
}

impl StoreValue for bool {
    fn copy_value(&self) -> (r: Self) {
        *self
    }
}

impl StoreValue for Vec<u8> {
    fn copy_value(&self) -> (r: Self) {
        self.clone()
    }
}

/// Entries under distinct keys. Its view is a finite map from the keys'
/// views to the values' views.
#[verifier::reject_recursive_types(K)]
#[verifier::reject_recursive_types(V)]
pub struct Store<K: StoreKey, V: StoreValue> {
    entries: Vec<(K, V)>,
}

impl<K: StoreKey, V: StoreValue> View for Store<K, V> {
    type V = Map<K::V, V::V>;

    open spec fn view(&self) -> Map<K::V, V::V> {
        self.contents()
    }
}

impl<K: StoreKey, V: StoreValue> Store<K, V> {
    /// No key occurs twice.
    #[verifier::type_invariant]
    closed spec fn keys_distinct(self) -> bool {
        forall|i: int, j: int|
            0 <= i < self.entries@.len() && 0 <= j < self.entries@.len() && i != j
                ==> #[trigger] self.entries@[i].0@ != #[trigger] self.entries@[j].0@
    }

    closed spec fn holds_key(self, k: K::V) -> bool {
        exists|i: int| 0 <= i < self.entries@.len() && #[trigger] self.entries@[i].0@ == k
    }

    closed spec fn index_of(self, k: K::V) -> int {
        choose|i: int| 0 <= i < self.entries@.len() && #[trigger] self.entries@[i].0@ == k
    }

    /// The stored contents.
    pub closed spec fn contents(self) -> Map<K::V, V::V> {
        Map::new(|k: K::V| self.holds_key(k), |k: K::V| self.entries@[self.index_of(k)].1@)
    }

    /// An empty store.
    pub fn new() -> (r: Self)
        ensures
            r.contents() == Map::<K::V, V::V>::empty(),
    {
        let r = Store { entries: Vec::new() };
        assert(r.contents() =~= Map::<K::V, V::V>::empty());
        r
    }

    fn position(&self, k: &K) -> (r: Option<usize>)
        ensures
            match r {
                Some(i) => i < self.entries@.len() && self.entries@[i as int].0@ == k@,
                None => !self.holds_key(k@),
            },
    {
        let n = self.entries.len();
        let mut i: usize = 0;
        while i < n
            invariant
                n == self.entries@.len(),
                i <= n,
                forall|j: int| 0 <= j < i ==> #[trigger] self.entries@[j].0@ != k@,
            decreases n - i,
        {
            if self.entries[i].0.same_key(k) {
                return Some(i);
            }
            i = i + 1;
        }
        None
    }

    proof fn lemma_index_of(self, i: int)
        requires
            self.keys_distinct(),
            0 <= i < self.entries@.len(),
        ensures
            self.holds_key(self.entries@[i].0@),
            self.index_of(self.entries@[i].0@) == i,
    {
        let k = self.entries@[i].0@;
        assert(self.entries@[i].0@ == k);
        let j = self.index_of(k);
        assert(0 <= j < self.entries@.len() && self.entries@[j].0@ == k);
    }

    /// Whether a value is stored under `k`.
    pub fn has(&self, k: &K) -> (r: bool)
        ensures
            r == self.contents().contains_key(k@),
    {
        self.position(k).is_some()
    }

    /// A copy of the value stored under `k`, if any.
    pub fn get(&self, k: &K) -> (r: Option<V>)
        ensures
            opt_view(r) == (if self.contents().contains_key(k@) {
                Some(self.contents()[k@])
            } else {
                None
            }),
    {
        proof {
            use_type_invariant(self);
        }
        match self.position(k) {
            Some(i) => {
                proof {
                    self.lemma_index_of(i as int);
                }
                Some(self.entries[i].1.copy_value())
            },
            None => None,
        }
    }

    /// Stores `v` under `k`, replacing what was there.
    pub fn set(&mut self, k: K, v: V)
        ensures
            final(self).contents() == old(self).contents().insert(k@, v@),
    {
        proof {
            use_type_invariant(&*self);
        }
        let ghost before = *self;
        let ghost kv = k@;
        let ghost vv = v@;
        let pos = self.position(&k);
        let ghost at: int = match pos {
            Some(i) => i as int,
            None => before.entries@.len() as int,
        };
        let mut entries: Vec<(K, V)> = Vec::new();
        std::mem::swap(&mut entries, &mut self.entries);
        match pos {
            Some(i) => {
                entries.set(i, (k, v));
                self.entries = entries;
                proof {
                    assert forall|a: int, b: int|
                        0 <= a < self.entries@.len() && 0 <= b < self.entries@.len() && a != b
                            implies #[trigger] self.entries@[a].0@ != #[trigger] self.entries@[b].0@ by {
                        if a != i && b != i {
                            assert(before.entries@[a] == self.entries@[a]);
                            assert(before.entries@[b] == self.entries@[b]);
                        } else if a == i {
                            assert(before.entries@[b] == self.entries@[b]);
                            assert(before.entries@[a].0@ == kv);
                        } else {
                            assert(before.entries@[a] == self.entries@[a]);
                            assert(before.entries@[b].0@ == kv);
                        }
                    }
                }
            },
            None => {
                entries.push((k, v));
                self.entries = entries;
                proof {
                    assert forall|a: int, b: int|
                        0 <= a < self.entries@.len() && 0 <= b < self.entries@.len() && a != b
                            implies #[trigger] self.entries@[a].0@ != #[trigger] self.entries@[b].0@ by {
                        let n = before.entries@.len() as int;
                        if a < n && b < n {
                            assert(before.entries@[a] == self.entries@[a]);
                            assert(before.entries@[b] == self.entries@[b]);
                        } else if a == n {
                            assert(before.entries@[b] == self.entries@[b]);
                            if before.entries@[b].0@ == kv {
                                assert(before.holds_key(kv));
                            }
                        } else {
                            assert(before.entries@[a] == self.entries@[a]);
                            if before.entries@[a].0@ == kv {
                                assert(before.holds_key(kv));
                            }
                        }
                    }
                }
            },
        }
        proof {
            let after = *self;
            assert forall|key: K::V| #[trigger] after.holds_key(key) == (before.holds_key(key) || key == kv) by {
                if before.holds_key(key) {
                    let j = before.index_of(key);
                    if key != kv {
                        assert(after.entries@[j] == before.entries@[j]);
                    }
                }
                if after.holds_key(key) && key != kv {
                    let j = after.index_of(key);
                    assert(after.entries@[j] == before.entries@[j]);
                }
                if key == kv {
                    assert(after.entries@[at].0@ == kv);
                }
            }
            assert(after.contents() =~= before.contents().insert(kv, vv));
        }
    }
}

} // verus!
