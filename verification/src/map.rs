//! The registration table: an ordered association from topic identity to
//! topic record, with unique keys and insertion order preserved.

use vstd::prelude::*;

verus! {

use crate::backend::Registered;
use crate::event::{topic_id_eq, TopicId};

/// An ordered list of `(topic identity, topic record)` pairs with unique
/// keys. Insertion order is preserved, so whole-table operations visit every
/// record exactly once in a fixed order.
pub struct RegisteredMap<const SIZE: usize> {
    inner: Vec<(TopicId, Registered<SIZE>)>,
}

impl<const SIZE: usize> RegisteredMap<SIZE> {
    /// The table's entries in insertion order.
    pub closed spec fn entries(self) -> Seq<(TopicId, Registered<SIZE>)> {
        self.inner@
    }

    /// True when some entry has this key.
    pub open spec fn contains_key(self, key: TopicId) -> bool {
        exists|i: int| 0 <= i < self.entries().len() && self.entries()[i].0 == key
    }

    /// The position of the entry with this key, when one exists.
    pub open spec fn index_of(self, key: TopicId) -> int {
        choose|i: int| 0 <= i < self.entries().len() && self.entries()[i].0 == key
    }

    /// Keys are unique: no two entries share one.
    pub open spec fn wf(self) -> bool {
        forall|i: int, j: int|
            0 <= i < j < self.entries().len() ==> self.entries()[i].0 != self.entries()[j].0
    }

    /// An empty table.
    pub fn new() -> (r: Self)
        ensures
            r.entries() == Seq::<(TopicId, Registered<SIZE>)>::empty(),
            r.wf(),
    {
        Self { inner: Vec::new() }
    }

    /// The position of the entry with this key, or `None` when the key has
    /// no entry.
    fn find(&self, key: &TopicId) -> (r: Option<usize>)
        requires
            self.wf(),
        ensures
            match r {
                Some(i) => self.contains_key(*key) && i == self.index_of(*key) && i
                    < self.entries().len() && self.entries()[i as int].0 == *key,
                None => !self.contains_key(*key),
            },
    {
        let mut i: usize = 0;
        while i < self.inner.len()
            invariant
                self.wf(),
                i <= self.inner.len(),
                forall|j: int| 0 <= j < i ==> self.inner@[j].0 != *key,
            decreases self.inner.len() - i,
        {
            if topic_id_eq(&self.inner[i].0, key) {
                proof {
                    assert(self.entries()[i as int].0 == *key);
                    assert(self.contains_key(*key));
                    let c = self.index_of(*key);
                    assert(0 <= c < self.entries().len() && self.entries()[c].0 == *key);
                    if c < i as int {
                        assert(self.entries()[c].0 != self.entries()[i as int].0);
                    } else if c > i as int {
                        assert(self.entries()[i as int].0 != self.entries()[c].0);
                    }
                }
                return Some(i);
            }
            i += 1;
        }
        None
    }

    /// The record registered under this key, if any.
    pub fn get(&self, key: &TopicId) -> (r: Option<&Registered<SIZE>>)
        requires
            self.wf(),
        ensures
            match r {
                Some(v) => self.contains_key(*key) && *v == self.entries()[self.index_of(*key)].1,
                None => !self.contains_key(*key),
            },
    {
        match self.find(key) {
            Some(i) => Some(&self.inner[i].1),
            None => None,
        }
    }

    /// Mutable access to the record registered under this key, if any.
    pub fn get_mut(&mut self, key: &TopicId) -> (r: Option<&mut Registered<SIZE>>)
        requires
            old(self).wf(),
        ensures
            final(self).wf(),
            final(self).entries().len() == old(self).entries().len(),
            forall|j: int|
                0 <= j < old(self).entries().len() ==> (#[trigger] final(self).entries()[j]).0
                    == old(self).entries()[j].0,
            match r {
                Some(m) => old(self).contains_key(*key) && *m == old(self).entries()[old(
                    self,
                ).index_of(*key)].1 && final(self).entries() == old(self).entries().update(
                    old(self).index_of(*key),
                    (*key, *final(m)),
                ),
                None => *final(self) == *old(self) && !old(self).contains_key(*key),
            },
    {
        match self.find(key) {
            Some(i) => Some(&mut self.inner[i].1),
            None => None,
        }
    }

    /// Installs a record under a key: replaces and returns the previous
    /// record when the key already has an entry, else appends a new entry.
    pub fn insert(&mut self, key: TopicId, value: Registered<SIZE>) -> (r: Option<
        Registered<SIZE>,
    >)
        requires
            old(self).wf(),
        ensures
            final(self).wf(),
            match r {
                Some(prev) => old(self).contains_key(key) && prev == old(self).entries()[old(
                    self,
                ).index_of(key)].1 && final(self).entries() == old(self).entries().update(
                    old(self).index_of(key),
                    (key, value),
                ),
                None => !old(self).contains_key(key) && final(self).entries() == old(
                    self,
                ).entries().push((key, value)),
            },
    {
        match self.find(&key) {
            Some(i) => {
                let mut entry = (key, value);
                vstd::pervasive::VecAdditionalExecFns::set_and_swap(&mut self.inner, i, &mut entry);
                proof {
                    assert forall|p: int, q: int|
                        0 <= p < q < self.entries().len() implies (self.entries()[p].0
                        != self.entries()[q].0) by {
                        assert(old(self).entries()[p].0 != old(self).entries()[q].0);
                    }
                }
                Some(entry.1)
            },
            None => {
                self.inner.push((key, value));
                proof {
                    assert forall|p: int, q: int|
                        0 <= p < q < self.entries().len() implies (self.entries()[p].0
                        != self.entries()[q].0) by {
                        if q < old(self).entries().len() {
                            assert(old(self).entries()[p].0 != old(self).entries()[q].0);
                        } else {
                            assert(!(exists|m: int|
                                0 <= m < old(self).entries().len() && old(self).entries()[m].0
                                    == key));
                            assert(old(self).entries()[p].0 != key);
                        }
                    }
                }
                None
            },
        }
    }

    /// The records in insertion order.
    pub fn values(&self) -> (r: Vec<&Registered<SIZE>>)
        ensures
            r@.len() == self.entries().len(),
            forall|i: int| 0 <= i < r@.len() ==> *r@[i] == self.entries()[i].1,
    {
        let mut out: Vec<&Registered<SIZE>> = Vec::new();
        let mut i: usize = 0;
        while i < self.inner.len()
            invariant
                i <= self.inner.len(),
                out@.len() == i,
                forall|j: int| 0 <= j < i ==> *out@[j] == self.entries()[j].1,
            decreases self.inner.len() - i,
        {
            out.push(&self.inner[i].1);
            i += 1;
        }
        out
    }

    /// Mutable access to the record at a position, for whole-table
    /// operations that visit every record once.
    pub fn values_mut(&mut self, i: usize) -> (r: &mut Registered<SIZE>)
        requires
            old(self).wf(),
            i < old(self).entries().len(),
        ensures
            final(self).wf(),
            *r == old(self).entries()[i as int].1,
            final(self).entries() == old(self).entries().update(
                i as int,
                (old(self).entries()[i as int].0, *final(r)),
            ),
    {
        proof {
            assert forall|p: int, q: int|
                0 <= p < q < old(self).entries().update(
                    i as int,
                    (old(self).entries()[i as int].0, after_borrow(self).entries()[i as int].1),
                ).len() implies (old(self).entries().update(
                i as int,
                (old(self).entries()[i as int].0, after_borrow(self).entries()[i as int].1),
            )[p].0 != old(self).entries().update(
                i as int,
                (old(self).entries()[i as int].0, after_borrow(self).entries()[i as int].1),
            )[q].0) by {
                assert(old(self).entries()[p].0 != old(self).entries()[q].0);
            }
        }
        &mut self.inner[i].1
    }

    /// How many topics are registered.
    pub fn len(&self) -> (r: usize)
        ensures
            r == self.entries().len(),
    {
        self.inner.len()
    }
}

} // verus!
