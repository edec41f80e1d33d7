//! Densely numbered entity references as mapping keys.

use vstd::prelude::*;
use core::marker::PhantomData;

verus! {

/// An entity reference: a small typed index into a dense space.
pub trait EntityRef: Sized + Copy {
    /// The index this reference stands for.
    spec fn spec_index(self) -> usize;

    /// Wrap an index.
    fn new(i: usize) -> (r: Self)
        ensures
            r.spec_index() == i,
    ;

    /// The index this reference stands for.
    fn index(self) -> (r: usize)
        ensures
            r == self.spec_index(),
    ;
}

/// A mapping `K -> V` over a dense index space, backed by a vector.
///
/// The map does not track whether an entry was ever set: every key not
/// backed by the vector reads as the default value.
pub struct SecondaryMap<K, V> where K: EntityRef, V: Clone {
    /// The stored entries.
    pub elems: Vec<V>,
    /// The value every unstored key maps to.
    pub default: V,
    /// The key type, which carries no data.
    pub unused: PhantomData<K>,
}

impl<K, V> SecondaryMap<K, V> where K: EntityRef, V: Clone {
    /// The value the map holds at index `i`: a stored entry, or the default.
    pub open spec fn spec_at(&self, i: usize) -> V {
        if i < self.elems@.len() {
            self.elems@[i as int]
        } else {
            self.default
        }
    }

    /// An empty map over a defaulted value type: every key reads as the
    /// value `V::default()` returns.
    pub fn new() -> (r: Self) where V: Default
        ensures
            r.elems@.len() == 0,
            call_ensures(V::default, (), r.default),
    {
        SecondaryMap { elems: Vec::new(), default: Default::default(), unused: PhantomData }
    }

    /// An empty map with room for `capacity` entries; every key reads as
    /// the value `V::default()` returns.
    pub fn with_capacity(capacity: usize) -> (r: Self) where V: Default
        ensures
            r.elems@.len() == 0,
            call_ensures(V::default, (), r.default),
    {
        SecondaryMap {
            elems: Vec::with_capacity(capacity),
            default: Default::default(),
            unused: PhantomData,
        }
    }

    /// An empty map whose unstored keys read as `default`.
    pub fn with_default(default: V) -> (r: Self)
        ensures
            r.elems@.len() == 0,
            r.default == default,
    {
        SecondaryMap { elems: Vec::new(), default, unused: PhantomData }
    }

    /// The number of entries the map can hold without reallocating.
    pub fn capacity(&self) -> (r: usize)
        ensures
            r >= self.elems@.len(),
    {
        vec_capacity(&self.elems)
    }

    /// The stored entry at `k`, if one exists.
    pub fn get(&self, k: K) -> (r: Option<&V>)
        ensures
            k.spec_index() < self.elems@.len() ==> r == Some(
                &self.elems@[k.spec_index() as int],
            ),
            k.spec_index() >= self.elems@.len() ==> r is None,
    {
        let i = k.index();
        if i < self.elems.len() {
            Some(&self.elems[i])
        } else {
            None
        }
    }

    /// Whether the map stores no entry at all.
    pub fn is_empty(&self) -> (r: bool)
        ensures
            r == (self.elems@.len() == 0),
    {
        self.elems.is_empty()
    }

    /// Remove every stored entry; all keys then read as the default.
    pub fn clear(&mut self)
        ensures
            final(self).elems@.len() == 0,
            final(self).default == old(self).default,
    {
        self.elems.clear()
    }

    /// The value at `k`: a stored entry, or the default. All keys are
    /// permitted.
    pub fn index(&self, k: K) -> (r: &V)
        ensures
            *r == self.spec_at(k.spec_index()),
    {
        let i = k.index();
        if i < self.elems.len() {
            &self.elems[i]
        } else {
            &self.default
        }
    }

    /// Store `v` at `k`, growing the map with cloned defaults as needed.
    pub fn set(&mut self, k: K, v: V)
        requires
            k.spec_index() < usize::MAX,
        ensures
            final(self).default == old(self).default,
            final(self).elems@.len() == (if k.spec_index() < old(self).elems@.len() {
                old(self).elems@.len() as int
            } else {
                k.spec_index() + 1
            }),
            final(self).elems@[k.spec_index() as int] == v,
            forall|i: int| 0 <= i < old(self).elems@.len() && i != k.spec_index()
                ==> final(self).elems@[i] == old(self).elems@[i],
            forall|i: int| old(self).elems@.len() <= i < final(self).elems@.len() && i
                != k.spec_index() ==> vstd::pervasive::cloned::<V>(
                old(self).default,
                final(self).elems@[i],
            ),
    {
        let i = k.index();
        if i >= self.elems.len() {
            self.resize_for_index(i);
        }
        self.elems.set(i, v);
    }

    /// Grow the backing vector with cloned defaults so that index `i` is
    /// stored.
    fn resize_for_index(&mut self, i: usize)
        requires
            i < usize::MAX,
            i >= old(self).elems@.len(),
        ensures
            final(self).default == old(self).default,
            final(self).elems@.len() == i + 1,
            forall|j: int| 0 <= j < old(self).elems@.len() ==> final(self).elems@[j] == old(
                self,
            ).elems@[j],
            forall|j: int| old(self).elems@.len() <= j <= i ==> vstd::pervasive::cloned::<V>(
                old(self).default,
                final(self).elems@[j],
            ),
    {
        while self.elems.len() < i + 1
            invariant
                i < usize::MAX,
                old(self).elems@.len() <= self.elems@.len() <= i + 1,
                self.default == old(self).default,
                forall|j: int| 0 <= j < old(self).elems@.len() ==> self.elems@[j] == old(
                    self,
                ).elems@[j],
                forall|j: int| old(self).elems@.len() <= j < self.elems@.len()
                    ==> vstd::pervasive::cloned::<V>(old(self).default, self.elems@[j]),
            decreases i + 1 - self.elems@.len(),
        {
            let d = self.default.clone();
            self.elems.push(d);
        }
    }

    /// The stored entries, each with its key, in index order.
    pub fn iter(&self) -> (r: Vec<(K, V)>)
        ensures
            r@.len() == self.elems@.len(),
            forall|i: int| 0 <= i < r@.len() ==> (#[trigger] r@[i].0).spec_index() == i
                && vstd::pervasive::cloned::<V>(self.elems@[i], r@[i].1),
    {
        let mut out: Vec<(K, V)> = Vec::new();
        let mut i: usize = 0;
        while i < self.elems.len()
            invariant
                i <= self.elems@.len(),
                out@.len() == i,
                forall|j: int| 0 <= j < i ==> (#[trigger] out@[j].0).spec_index() == j
                    && vstd::pervasive::cloned::<V>(self.elems@[j], out@[j].1),
            decreases self.elems@.len() - i,
        {
            let v = self.elems[i].clone();
            out.push((K::new(i), v));
            i = i + 1;
        }
        out
    }

    /// The stored entries, in index order; rewriting one rewrites the map.
    pub fn iter_mut(&mut self) -> (r: &mut Vec<V>)
        ensures
            *r == old(self).elems,
            final(self).elems == *final(r),
            final(self).default == old(self).default,
    {
        &mut self.elems
    }

    /// Every key with a stored entry, in index order.
    pub fn keys(&self) -> (r: Vec<K>)
        ensures
            r@.len() == self.elems@.len(),
            forall|i: int| 0 <= i < r@.len() ==> (#[trigger] r@[i]).spec_index() == i,
    {
        let mut out: Vec<K> = Vec::new();
        let mut i: usize = 0;
        while i < self.elems.len()
            invariant
                i <= self.elems@.len(),
                out@.len() == i,
                forall|j: int| 0 <= j < i ==> (#[trigger] out@[j]).spec_index() == j,
            decreases self.elems@.len() - i,
        {
            out.push(K::new(i));
            i = i + 1;
        }
        out
    }

    /// The stored values, in index order.
    pub fn values(&self) -> (r: &Vec<V>)
        ensures
            r == &self.elems,
    {
        &self.elems
    }

    /// The stored values, in index order; rewriting one rewrites the map.
    pub fn values_mut(&mut self) -> (r: &mut Vec<V>)
        ensures
            *r == old(self).elems,
            final(self).elems == *final(r),
            final(self).default == old(self).default,
    {
        &mut self.elems
    }

    /// Resize the map to exactly `n` stored entries, dropping entries past
    /// `n` and adding cloned defaults as needed.
    pub fn resize(&mut self, n: usize)
        ensures
            final(self).default == old(self).default,
            final(self).elems@.len() == n,
            forall|j: int| 0 <= j < old(self).elems@.len() && j < n ==> final(self).elems@[j]
                == old(self).elems@[j],
            forall|j: int| old(self).elems@.len() <= j < n ==> vstd::pervasive::cloned::<V>(
                old(self).default,
                final(self).elems@[j],
            ),
    {
        if n <= self.elems.len() {
            self.elems.truncate(n);
            proof {
                assert forall|j: int| 0 <= j < old(self).elems@.len() && j < n implies final(self).elems@[j] == old(self).elems@[j] by {
                    assert(old(self).elems@.subrange(0, n as int)[j] == old(self).elems@[j]);
                }
            }
        } else {
            let last = n - 1;
            self.resize_for_index(last);
        }
    }
}

/// Relies on `Vec::capacity`: a vector's capacity is at least its length.
#[verifier::external_body]
fn vec_capacity<T>(v: &Vec<T>) -> (r: usize)
    ensures
        r >= v@.len(),
{
    v.capacity()
}

} // verus!

verus! {

/// A plain entity reference: a numbered handle.
#[derive(Clone, Copy, Debug, PartialEq, Eq, Structural)]
pub struct Entity(pub usize);

impl EntityRef for Entity {
    open spec fn spec_index(self) -> usize {
        self.0
    }

    fn new(i: usize) -> (r: Self) {
        Entity(i)
    }

    fn index(self) -> (r: usize) {
        self.0
    }
}

} // verus!
