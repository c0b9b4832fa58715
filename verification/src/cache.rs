//! A bounded least-recently-used cache from photo identity to a decoded,
//! ready-to-paint value, fronting the thumbnail store for a renderer.
//!
//! The entries stand in recency order, least recently used first. Capacity
//! is a fixed entry count chosen to bound memory, not bytes: entries are not
//! weighted by decoded size. The eviction policy is explicit and verified:
//! a full cache drops exactly its least recently used entry.

use vstd::prelude::*;
use crate::photodb::PhotoId;

verus! {

/// No two entries share a key.
pub open spec fn distinct_keys<V>(s: Seq<(PhotoId, V)>) -> bool {
    forall|i: int, j: int| 0 <= i < j < s.len() ==> s[i].0 != s[j].0
}

proof fn lemma_only_occurrence<V>(s: Seq<(PhotoId, V)>, i: int)
    requires
        distinct_keys(s),
        0 <= i < s.len(),
    ensures
        forall|j: int| 0 <= j < s.len() && j != i ==> s[j].0 != s[i].0,
{
}

proof fn lemma_push_fresh_key<V>(s: Seq<(PhotoId, V)>, key: PhotoId, value: V)
    requires
        distinct_keys(s),
        forall|j: int| 0 <= j < s.len() ==> s[j].0 != key,
    ensures
        distinct_keys(s.push((key, value))),
{
    let t = s.push((key, value));
    assert forall|i: int, j: int| 0 <= i < j < t.len() implies t[i].0 != t[j].0 by {
        if j == t.len() - 1 {
            assert(t[i] == s[i]);
        } else {
            assert(t[i] == s[i] && t[j] == s[j]);
        }
    }
}

proof fn lemma_remove_keeps_distinct<V>(s: Seq<(PhotoId, V)>, i: int)
    requires
        distinct_keys(s),
        0 <= i < s.len(),
    ensures
        distinct_keys(s.remove(i)),
        forall|j: int| 0 <= j < s.remove(i).len() ==> s.remove(i)[j].0 != s[i].0,
{
    let t = s.remove(i);
    assert forall|j1: int, j2: int| 0 <= j1 < j2 < t.len() implies t[j1].0 != t[j2].0 by {
        let o1: int = if j1 < i { j1 } else { j1 + 1 };
        let o2: int = if j2 < i { j2 } else { j2 + 1 };
        assert(t[j1] == s[o1] && t[j2] == s[o2]);
    }
    assert forall|j: int| 0 <= j < t.len() implies t[j].0 != s[i].0 by {
        let o: int = if j < i { j } else { j + 1 };
        assert(t[j] == s[o]);
    }
}

/// The render-path fallback in front of the cache: a value that failed to
/// load or decode becomes the fixed placeholder, never an error, so the
/// rendering path never blocks on a single bad photo.
pub fn loaded_or_placeholder<V>(loaded: Option<V>, placeholder: V) -> (r: V)
    ensures
        loaded matches Some(v) ==> r == v,
        loaded is None ==> r == placeholder,
{
    match loaded {
        Some(v) => v,
        None => placeholder,
    }
}

/// Bounded LRU cache from a photo's identity to a decoded value, evicting
/// the least recently used entry under capacity pressure.
pub struct SurfaceCache<V> {
    entries: Vec<(PhotoId, V)>,
    capacity: usize,
}

impl<V> SurfaceCache<V> {
    /// The cached entries, least recently used first.
    pub closed spec fn entries(&self) -> Seq<(PhotoId, V)> {
        self.entries@
    }

    /// The fixed entry count this cache never exceeds.
    pub closed spec fn spec_capacity(&self) -> usize {
        self.capacity
    }

    /// Whether a key is cached.
    pub open spec fn spec_contains(&self, key: PhotoId) -> bool {
        exists|i: int| 0 <= i < self.entries().len() && self.entries()[i].0 == key
    }

    /// At most `capacity` entries, pairwise distinct keys.
    pub open spec fn wf(&self) -> bool {
        &&& self.spec_capacity() >= 1
        &&& self.entries().len() <= self.spec_capacity()
        &&& distinct_keys(self.entries())
    }

    /// An empty cache that will never hold more than `capacity` entries.
    pub fn new(capacity: usize) -> (r: SurfaceCache<V>)
        requires
            capacity >= 1,
        ensures
            r.wf(),
            r.entries() == Seq::<(PhotoId, V)>::empty(),
            r.spec_capacity() == capacity,
    {
        SurfaceCache { entries: Vec::new(), capacity }
    }

    /// The number of cached entries.
    pub fn len(&self) -> (r: usize)
        ensures
            r == self.entries().len(),
    {
        self.entries.len()
    }

    /// The fixed capacity.
    pub fn capacity(&self) -> (r: usize)
        ensures
            r == self.spec_capacity(),
    {
        self.capacity
    }

    fn find(&self, key: PhotoId) -> (r: Option<usize>)
        ensures
            r matches Some(i) ==> i < self.entries().len() && self.entries()[i as int].0 == key,
            r is None ==> !self.spec_contains(key),
    {
        let mut i: usize = 0;
        while i < self.entries.len()
            invariant
                i <= self.entries().len(),
                forall|j: int| 0 <= j < i ==> self.entries()[j].0 != key,
            decreases self.entries().len() - i,
        {
            if self.entries[i].0 == key {
                return Some(i);
            }
            i += 1;
        }
        None
    }

    /// Look a key up: on a hit the entry becomes the most recently used and
    /// its value is returned; a miss changes nothing.
    pub fn get(&mut self, key: PhotoId) -> (r: Option<&V>)
        requires
            old(self).wf(),
        ensures
            final(self).wf(),
            final(self).spec_capacity() == old(self).spec_capacity(),
            r is Some <==> old(self).spec_contains(key),
            r is None ==> final(self).entries() == old(self).entries(),
            r matches Some(v) ==> exists|i: int|
                0 <= i < old(self).entries().len() && old(self).entries()[i].0 == key && *v == old(
                    self,
                ).entries()[i].1 && final(self).entries() == old(self).entries().remove(i).push(
                    old(self).entries()[i],
                ),
    {
        match self.find(key) {
            Some(i) => {
                proof {
                    lemma_only_occurrence(self.entries@, i as int);
                    lemma_remove_keeps_distinct(self.entries@, i as int);
                    lemma_push_fresh_key(
                        self.entries@.remove(i as int),
                        self.entries@[i as int].0,
                        self.entries@[i as int].1,
                    );
                }
                let entry = self.entries.remove(i);
                self.entries.push(entry);
                let n = self.entries.len();
                Some(&self.entries[n - 1].1)
            },
            None => None,
        }
    }

    /// Look a key up without touching the recency order.
    pub fn peek(&self, key: PhotoId) -> (r: Option<&V>)
        ensures
            r is Some <==> self.spec_contains(key),
            r matches Some(v) ==> exists|i: int|
                0 <= i < self.entries().len() && self.entries()[i].0 == key && *v == self.entries(
                )[i].1,
    {
        match self.find(key) {
            Some(i) => Some(&self.entries[i].1),
            None => None,
        }
    }

    /// Store a value as the most recently used entry for a key. A key
    /// already cached is re-bound in place of its old entry; a fresh key in
    /// a full cache evicts exactly the least recently used entry.
    pub fn put(&mut self, key: PhotoId, value: V)
        requires
            old(self).wf(),
        ensures
            final(self).wf(),
            final(self).spec_capacity() == old(self).spec_capacity(),
            final(self).spec_contains(key),
            old(self).spec_contains(key) ==> exists|i: int|
                0 <= i < old(self).entries().len() && old(self).entries()[i].0 == key && final(self).entries() == old(self).entries().remove(i).push((key, value)),
            !old(self).spec_contains(key) && old(self).entries().len() < old(
                self,
            ).spec_capacity() ==> final(self).entries() == old(self).entries().push((key, value)),
            !old(self).spec_contains(key) && old(self).entries().len() == old(
                self,
            ).spec_capacity() ==> final(self).entries() == old(self).entries().remove(0).push(
                (key, value),
            ),
    {
        match self.find(key) {
            Some(i) => {
                proof {
                    lemma_only_occurrence(self.entries@, i as int);
                    lemma_remove_keeps_distinct(self.entries@, i as int);
                    lemma_push_fresh_key(self.entries@.remove(i as int), key, value);
                }
                let _ = self.entries.remove(i);
                self.entries.push((key, value));
                proof {
                    assert(self.entries@[self.entries@.len() - 1].0 == key);
                }
            },
            None => {
                if self.entries.len() == self.capacity {
                    proof {
                        lemma_remove_keeps_distinct(self.entries@, 0);
                    }
                    let _ = self.entries.remove(0);
                }
                proof {
                    lemma_push_fresh_key(self.entries@, key, value);
                }
                self.entries.push((key, value));
                proof {
                    assert(self.entries@[self.entries@.len() - 1].0 == key);
                }
            },
        }
    }
}

} // verus!
