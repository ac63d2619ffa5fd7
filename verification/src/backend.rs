//! The topic records and the public facade of the event system.
//!
//! A topic record carries what one payload type registered: an optional
//! retention policy, the ordered list of listeners, and an enabled flag. The
//! facade owns the registration table and implements register, publish,
//! query, enable, disable and cleanup over it.

use vstd::prelude::*;

verus! {

use std::collections::VecDeque;
use crate::err::{EventError, EventSizeError, RawErr, Value};
use crate::event::{
    erase, fit_requirement, spec_size_requirement, topic_id_of, Event, Listener, TopicId,
};
use crate::map::RegisteredMap;
use crate::query::{Query, UnblockingQuery};
use crate::slot::{Slot, SlotType};
use crate::DEFAULT_EVENT_SIZE;

/// Per-topic state: an optional retention policy, the listeners in
/// registration order, and whether publishes to the topic are processed.
pub struct Registered<const SIZE: usize> {
    slot: Option<Slot<SIZE>>,
    listener: Vec<Listener<SIZE>>,
    enabled: bool,
}

impl<const SIZE: usize> Registered<SIZE> {
    /// The retention policy installed on this topic, if any.
    pub closed spec fn slot_spec(self) -> Option<Slot<SIZE>> {
        self.slot
    }

    /// The listeners of this topic, in registration order.
    pub closed spec fn listeners_spec(self) -> Seq<Listener<SIZE>> {
        self.listener@
    }

    /// Whether publishes to this topic are processed.
    pub closed spec fn enabled_spec(self) -> bool {
        self.enabled
    }

    /// The values the topic's retention policy currently stores; empty when
    /// no policy is installed.
    pub open spec fn stored(self) -> Seq<Event<SIZE>> {
        match self.slot_spec() {
            Some(s) => s.buf(),
            None => Seq::empty(),
        }
    }

    /// The record's retention policy, when present, respects its bound.
    pub open spec fn wf(self) -> bool {
        self.slot_spec() matches Some(s) ==> s.wf()
    }

    /// A fresh topic record: no retention policy, no listeners, enabled.
    pub fn new() -> (r: Self)
        ensures
            r.slot_spec() is None,
            r.listeners_spec() == Seq::<Listener<SIZE>>::empty(),
            r.enabled_spec(),
            r.wf(),
    {
        Self { slot: None, listener: Vec::new(), enabled: true }
    }

    /// What one publish may make of a topic record: a disabled record is
    /// left untouched; an enabled one keeps its listeners and flag, and its
    /// policy, if any, absorbs the value under its push rule.
    pub open spec fn handled(self, post: Self, event: Event<SIZE>) -> bool {
        &&& post.wf()
        &&& post.enabled_spec() == self.enabled_spec()
        &&& post.listeners_spec() == self.listeners_spec()
        &&& (!self.enabled_spec() ==> post == self)
        &&& (self.enabled_spec() && self.slot_spec() is None ==> post == self)
        &&& (self.enabled_spec() && self.slot_spec() is Some ==> post.slot_spec() is Some
            && self.slot_spec()->0.pushed(post.slot_spec()->0, event))
    }

    /// Processes one published value: when the topic is enabled, calls every
    /// listener in registration order on a read-only view of the value, then
    /// hands the value to the retention policy, if one is installed. A
    /// disabled topic drops the value without any effect.
    pub fn handle_event(&mut self, event: Event<SIZE>)
        requires
            old(self).wf(),
        ensures
            old(self).handled(*final(self), event),
    {
        if !self.enabled {
            return ;
        }
        let mut i: usize = 0;
        while i < self.listener.len()
            invariant
                *self == *old(self),
            decreases self.listener.len() - i,
        {
            self.listener[i].call(&event);
            i += 1;
        }
        if let Some(slot) = &mut self.slot {
            slot.push(event);
        }
    }

    /// Detaches the stored values: hands back everything the retention
    /// policy kept, oldest first, leaving it empty; `None` when the topic
    /// has no retention policy.
    pub fn events_clone(&mut self) -> (r: Option<VecDeque<Event<SIZE>>>)
        requires
            old(self).wf(),
        ensures
            old(self).drained(*final(self), r),
    {
        match &mut self.slot {
            Some(slot) => Some(slot.events_clone()),
            None => None,
        }
    }

    /// Detaches the stored values, exactly as [`Registered::events_clone`]
    /// does.
    pub fn events(&mut self) -> (r: Option<VecDeque<Event<SIZE>>>)
        requires
            old(self).wf(),
        ensures
            old(self).drained(*final(self), r),
    {
        match &mut self.slot {
            Some(slot) => Some(slot.events()),
            None => None,
        }
    }

    /// What a drain makes of a topic record: listeners and flag are kept; a
    /// record without a policy is untouched and yields nothing; one with a
    /// policy keeps the policy, now empty, and yields exactly what it held.
    pub open spec fn drained(self, post: Self, r: Option<VecDeque<Event<SIZE>>>) -> bool {
        &&& post.wf()
        &&& post.enabled_spec() == self.enabled_spec()
        &&& post.listeners_spec() == self.listeners_spec()
        &&& (self.slot_spec() is None ==> post == self && r is None)
        &&& (self.slot_spec() is Some ==> r is Some && r->0@ == self.stored()
            && post.slot_spec() is Some && post.slot_spec()->0.same_policy(self.slot_spec()->0)
            && post.stored() == Seq::<Event<SIZE>>::empty())
    }

    /// Discards all listeners and empties the retention buffer, releasing
    /// held memory; the policy itself and the enabled flag are kept.
    pub fn cleanup(&mut self)
        requires
            old(self).wf(),
        ensures
            final(self).wf(),
            final(self).enabled_spec() == old(self).enabled_spec(),
            final(self).listeners_spec() == Seq::<Listener<SIZE>>::empty(),
            final(self).stored() == Seq::<Event<SIZE>>::empty(),
            old(self).slot_spec() is None ==> final(self).slot_spec() is None,
            old(self).slot_spec() is Some ==> final(self).slot_spec() is Some
                && final(self).slot_spec()->0.same_policy(old(self).slot_spec()->0),
    {
        self.listener = Vec::new();
        if let Some(slot) = &mut self.slot {
            slot.cleanup();
        }
    }

    /// Lets publishes to this topic be processed again.
    pub fn enable(&mut self)
        ensures
            final(self).enabled_spec(),
            final(self).slot_spec() == old(self).slot_spec(),
            final(self).listeners_spec() == old(self).listeners_spec(),
            final(self).wf() == old(self).wf(),
    {
        self.enabled = true;
    }

    /// Makes publishes to this topic silent no-ops.
    pub fn disable(&mut self)
        ensures
            !final(self).enabled_spec(),
            final(self).slot_spec() == old(self).slot_spec(),
            final(self).listeners_spec() == old(self).listeners_spec(),
            final(self).wf() == old(self).wf(),
    {
        self.enabled = false;
    }
}

/// The public facade: owns the registration table and implements register,
/// publish, query, enable, disable and cleanup.
///
/// Every operation is parameterized by the payload type `T`; the whole
/// instance shares the fixed per-value storage capacity `EVENT_SIZE`. A type
/// whose representation does not fit that capacity is rejected with a size
/// error before any mutation.
///
/// Every operation takes `&mut self`: the system is used from one thread at
/// a time, and callers that share it across threads put it behind a lock of
/// their own. The stored values are not thread-safe to begin with (see
/// [`Event`]).
pub struct EventBackend<const EVENT_SIZE: usize> {
    pub(crate) registered: RegisteredMap<EVENT_SIZE>,
}

/// True when the error reports that the type needs more than the capacity
/// `cap`: the sizes are named, the required one exceeds the available one.
pub open spec fn oversize<T: 'static>(raw: RawErr<T>, cap: usize) -> bool {
    raw matches RawErr::EventSize { max, is, .. } && max == cap && is > cap
}

/// True when the record holds a just-installed retention policy for the
/// given selection: present, of that policy, and storing nothing yet.
pub open spec fn fresh_store<T: 'static, const SIZE: usize>(
    r: Registered<SIZE>,
    typ: SlotType<T>,
) -> bool {
    &&& r.slot_spec() is Some
    &&& r.slot_spec()->0.buf() == Seq::<Event<SIZE>>::empty()
    &&& r.slot_spec()->0.of_type(typ)
    &&& r.slot_spec()->0.wf()
}

impl<const EVENT_SIZE: usize> EventBackend<EVENT_SIZE> {
    /// The registration table's entries, in insertion order.
    pub closed spec fn entries(self) -> Seq<(TopicId, Registered<EVENT_SIZE>)> {
        self.registered.entries()
    }

    /// True when some entry is registered under this key.
    pub open spec fn has_topic(self, k: TopicId) -> bool {
        exists|i: int| 0 <= i < self.entries().len() && self.entries()[i].0 == k
    }

    /// The position of the entry registered under this key, when one is.
    pub open spec fn topic_index(self, k: TopicId) -> int {
        choose|i: int| 0 <= i < self.entries().len() && self.entries()[i].0 == k
    }

    /// The facade's view of a topic lookup agrees with the table's own.
    proof fn lemma_topic_lookup(self, k: TopicId)
        requires
            self.registered.wf(),
        ensures
            self.has_topic(k) == self.registered.contains_key(k),
            self.registered.contains_key(k) ==> self.topic_index(k) == self.registered.index_of(k),
    {
        if self.registered.contains_key(k) {
            let i = self.registered.index_of(k);
            assert(0 <= i < self.entries().len() && self.entries()[i].0 == k);
            assert(self.has_topic(k));
            let j = self.topic_index(k);
            assert(0 <= j < self.entries().len() && self.entries()[j].0 == k);
            if i < j {
                assert(self.entries()[i].0 != self.entries()[j].0);
            } else if j < i {
                assert(self.entries()[j].0 != self.entries()[i].0);
            }
        } else {
            if self.has_topic(k) {
                let j = self.topic_index(k);
                assert(0 <= j < self.registered.entries().len() && self.registered.entries()[j].0
                    == k);
                assert(self.registered.contains_key(k));
            }
        }
    }

    /// Topic keys are unique and every record respects its policy's bound.
    pub closed spec fn wf(self) -> bool {
        &&& self.registered.wf()
        &&& forall|i: int| 0 <= i < self.entries().len() ==> (#[trigger] self.entries()[i].1).wf()
    }

    /// Creates a new `EventBackend` with no topics registered.
    pub fn new() -> (r: Self)
        ensures
            r.entries() == Seq::<(TopicId, Registered<EVENT_SIZE>)>::empty(),
            r.wf(),
    {
        Self { registered: RegisteredMap::new() }
    }

    /// What a successful `register_store` for key `k` makes of the table: a
    /// fresh, empty retention policy for the selection is installed, either
    /// into `k`'s existing record — whose listeners and flag are kept and
    /// whose previously buffered values are dropped — or into a new record
    /// appended for `k`. Every other entry is untouched.
    pub open spec fn store_installed<T: 'static>(
        self,
        post: Self,
        k: TopicId,
        typ: SlotType<T>,
    ) -> bool {
        if self.has_topic(k) {
            let i = self.topic_index(k);
            &&& post.entries().len() == self.entries().len()
            &&& (forall|j: int|
                0 <= j < self.entries().len() && j != i ==> post.entries()[j] == self.entries()[j])
            &&& post.entries()[i].0 == k
            &&& post.entries()[i].1.listeners_spec() == self.entries()[i].1.listeners_spec()
            &&& post.entries()[i].1.enabled_spec() == self.entries()[i].1.enabled_spec()
            &&& fresh_store(post.entries()[i].1, typ)
        } else {
            &&& post.entries().len() == self.entries().len() + 1
            &&& (forall|j: int|
                0 <= j < self.entries().len() ==> post.entries()[j] == self.entries()[j])
            &&& post.entries().last().0 == k
            &&& post.entries().last().1.listeners_spec() == Seq::<Listener<EVENT_SIZE>>::empty()
            &&& post.entries().last().1.enabled_spec()
            &&& fresh_store(post.entries().last().1, typ)
        }
    }

    /// Registers a type of event for storage under the given retention
    /// policy. Registering a second time for the same type replaces the
    /// policy and drops the previously buffered values.
    ///
    /// Succeeds exactly when `T` fits the capacity; otherwise fails with a
    /// size error naming the required and the available size, mutating
    /// nothing.
    #[verifier::rlimit(50)]
    pub fn register_store<T: 'static>(&mut self, typ: SlotType<T>) -> (r: Result<
        (),
        EventError<T>,
    >)
        requires
            old(self).wf(),
        ensures
            final(self).wf(),
            r is Ok <==> spec_size_requirement::<T>() <= EVENT_SIZE as nat,
            r matches Err(e) ==> final(self).entries() == old(self).entries() && e.value_spec()
                is None && oversize(e.raw_spec(), EVENT_SIZE) && (e.raw_spec() matches
                RawErr::EventSize { is, .. } && is as nat == spec_size_requirement::<T>()),
            r is Ok ==> exists|k: TopicId|
                #[trigger] old(self).store_installed(*final(self), k, typ),
    {
        match fit_requirement::<T, EVENT_SIZE>() {
            Some(req) => {
                return Err(EventError::event_size_empty(EventSizeError::new(EVENT_SIZE, req)));
            },
            None => {},
        }
        let ghost gtyp = typ;
        let id = topic_id_of::<T>();
        let slot = Slot::new(typ);
        if let Some(registered) = self.registered.get_mut(&id) {
            registered.slot = Some(slot);
            proof {
                old(self).lemma_topic_lookup(id);
                assert(old(self).store_installed(*self, id, gtyp));
            }
            return Ok(());
        }
        let mut registered = Registered::new();
        registered.slot = Some(slot);
        let _ = self.registered.insert(id, registered);
        proof {
            old(self).lemma_topic_lookup(id);
            assert(old(self).store_installed(*self, id, gtyp));
        }
        Ok(())
    }

    /// What a successful `register_listener` for key `k` makes of the
    /// table: one listener is appended, after all already registered ones,
    /// either to `k`'s existing record — everything else in it kept — or to
    /// a new record appended for `k`; `n` is the topic's listener count
    /// afterwards. Every other entry is untouched.
    #[verifier::opaque]
    pub open spec fn listener_added(self, post: Self, k: TopicId, n: usize) -> bool {
        if self.has_topic(k) {
            let i = self.topic_index(k);
            &&& post.entries().len() == self.entries().len()
            &&& (forall|j: int|
                0 <= j < self.entries().len() && j != i ==> post.entries()[j] == self.entries()[j])
            &&& post.entries()[i].0 == k
            &&& post.entries()[i].1.slot_spec() == self.entries()[i].1.slot_spec()
            &&& post.entries()[i].1.enabled_spec() == self.entries()[i].1.enabled_spec()
            &&& post.entries()[i].1.listeners_spec().len() == self.entries()[
                i
            ].1.listeners_spec().len() + 1
            &&& (forall|m: int|
                0 <= m < self.entries()[i].1.listeners_spec().len() ==> post.entries()[
                    i
                ].1.listeners_spec()[m] == self.entries()[i].1.listeners_spec()[m])
            &&& n == post.entries()[i].1.listeners_spec().len()
        } else {
            &&& post.entries().len() == self.entries().len() + 1
            &&& (forall|j: int|
                0 <= j < self.entries().len() ==> post.entries()[j] == self.entries()[j])
            &&& post.entries().last().0 == k
            &&& post.entries().last().1.slot_spec() is None
            &&& post.entries().last().1.enabled_spec()
            &&& post.entries().last().1.listeners_spec().len() == 1
            &&& n == 1
        }
    }

    /// Registers a function that gets called on a read-only view of every
    /// value published for this event type, after all listeners registered
    /// earlier. Returns the topic's listener count, the new listener
    /// included.
    ///
    /// Succeeds exactly when `T` fits the capacity; otherwise fails with a
    /// size error naming the required and the available size, mutating
    /// nothing.
    #[verifier::rlimit(100)]
    #[verifier::spinoff_prover]
    pub fn register_listener<T: 'static, F: Fn(&T) + Send + Sync + 'static>(
        &mut self,
        listener: F,
    ) -> (r: Result<usize, EventSizeError>)
        requires
            old(self).wf(),
        ensures
            final(self).wf(),
            r is Ok <==> spec_size_requirement::<T>() <= EVENT_SIZE as nat,
            r matches Err(e) ==> final(self).entries() == old(self).entries() && e.max_spec()
                == EVENT_SIZE && e.is_spec() > EVENT_SIZE && e.is_spec() as nat
                == spec_size_requirement::<T>(),
            r matches Ok(n) ==> old(self).some_listener_added(*final(self), n),
    {
        match fit_requirement::<T, EVENT_SIZE>() {
            Some(req) => {
                return Err(EventSizeError::new(EVENT_SIZE, req));
            },
            None => {},
        }
        let id = topic_id_of::<T>();
        let l = Listener::new::<T, F>(listener);
        if let Some(registered) = self.registered.get_mut(&id) {
            proof {
                old(self).lemma_topic_lookup(id);
                let gi = old(self).topic_index(id);
                assert(old(self).has_topic(id));
                assert(0 <= gi < old(self).entries().len() && old(self).entries()[gi].0 == id);
                assert(old(self).entries()[gi].1.wf());
            }
            registered.listener.push(l);
            let n = registered.listener.len();
            proof {
                old(self).lemma_topic_lookup(id);
                reveal(EventBackend::listener_added);
                assert(old(self).listener_added(*self, id, n));
                assert(old(self).some_listener_added(*self, n));
            }
            return Ok(n);
        }
        let mut registered = Registered::new();
        registered.listener.push(l);
        let _ = self.registered.insert(id, registered);
        proof {
            old(self).lemma_topic_lookup(id);
            reveal(EventBackend::listener_added);
            assert(old(self).listener_added(*self, id, 1));
            assert(old(self).some_listener_added(*self, 1));
        }
        Ok(1)
    }

    /// What a successful publish for key `k` makes of the table: `k`'s
    /// record absorbs one erased value under [`Registered::handled`], and
    /// every other entry is untouched.
    #[verifier::opaque]
    pub open spec fn published(self, post: Self, k: TopicId, event: Event<EVENT_SIZE>) -> bool {
        &&& self.has_topic(k)
        &&& post.entries().len() == self.entries().len()
        &&& (forall|j: int|
            0 <= j < self.entries().len() && j != self.topic_index(k) ==> post.entries()[j]
                == self.entries()[j])
        &&& post.entries()[self.topic_index(k)].0 == k
        &&& self.entries()[self.topic_index(k)].1.handled(
            post.entries()[self.topic_index(k)].1,
            event,
        )
    }

    /// Publishes a new event: calls every listener of the matching topic in
    /// registration order on a read-only view, then hands the value to the
    /// topic's retention policy, if one is installed. A disabled topic
    /// drops the value silently and the call still succeeds.
    ///
    /// On failure — the type does not fit, or has no topic record — the
    /// value is handed back inside the error and nothing is mutated. A type
    /// that does not fit always fails with a size error naming the required
    /// and the available size; for a fitting type the only failure is the
    /// unregistered error.
    #[verifier::rlimit(100)]
    #[verifier::spinoff_prover]
    pub fn new_event<T: 'static>(&mut self, value: T) -> (r: Result<(), EventError<T, Value>>)
        requires
            old(self).wf(),
        ensures
            final(self).wf(),
            r matches Err(e) ==> final(self).entries() == old(self).entries() && e.value_spec()
                == Some(value),
            spec_size_requirement::<T>() > EVENT_SIZE as nat ==> (r matches Err(e) && (
            e.raw_spec() matches RawErr::EventSize { max, is, .. } && max == EVENT_SIZE && is
                as nat == spec_size_requirement::<T>())),
            spec_size_requirement::<T>() <= EVENT_SIZE as nat ==> (r matches Err(e)
                ==> e.raw_spec() matches RawErr::UnregisteredEventType(_)),
            r is Ok ==> old(self).some_published(*final(self)),
    {
        match fit_requirement::<T, EVENT_SIZE>() {
            Some(req) => {
                return Err(EventError::event_size(value, EventSizeError::new(EVENT_SIZE, req)));
            },
            None => {},
        }
        let id = topic_id_of::<T>();
        match self.registered.get_mut(&id) {
            Some(registered) => {
                proof {
                    old(self).lemma_topic_lookup(id);
                    let gi = old(self).topic_index(id);
                    assert(old(self).has_topic(id));
                    assert(0 <= gi < old(self).entries().len() && old(self).entries()[gi].0 == id);
                    assert(old(self).entries()[gi].1.wf());
                    assert(registered.wf());
                }
                match erase::<T, EVENT_SIZE>(value) {
                    Ok(event) => {
                        let ghost gevent = event;
                        registered.handle_event(event);
                        proof {
                            old(self).lemma_topic_lookup(id);
                            reveal(EventBackend::published);
                            assert(old(self).published(*self, id, gevent));
                            assert(old(self).some_published(*self));
                        }
                        Ok(())
                    },
                    Err(returned) => {
                        // cannot happen: the fit check above admitted `T`
                        proof {
                            assert(false);
                        }
                        Err(EventError::unregisted_event(returned))
                    },
                }
            },
            None => Err(EventError::unregisted_event(value)),
        }
    }

    /// What a record yields to a successful query: the topic had a policy,
    /// the cursor receives exactly what it stored, oldest first, and the
    /// policy stays installed, now empty. Listeners and flag are kept.
    #[verifier::opaque]
    pub open spec fn queried(self, post: Self, k: TopicId, out: Seq<Event<EVENT_SIZE>>) -> bool {
        let i = self.topic_index(k);
        &&& self.has_topic(k)
        &&& post.entries().len() == self.entries().len()
        &&& (forall|j: int|
            0 <= j < self.entries().len() && j != i ==> post.entries()[j] == self.entries()[j])
        &&& post.entries()[i].0 == k
        &&& self.entries()[i].1.slot_spec() is Some
        &&& out == self.entries()[i].1.stored()
        &&& post.entries()[i].1.enabled_spec() == self.entries()[i].1.enabled_spec()
        &&& post.entries()[i].1.listeners_spec() == self.entries()[i].1.listeners_spec()
        &&& post.entries()[i].1.slot_spec() is Some
        &&& post.entries()[i].1.slot_spec()->0.same_policy(self.entries()[i].1.slot_spec()->0)
        &&& post.entries()[i].1.stored() == Seq::<Event<EVENT_SIZE>>::empty()
    }

    /// Returns a cursor over the stored events of the matching topic. The
    /// topic's buffer is detached whole: the cursor owns exactly what was
    /// stored, nothing is lost or duplicated, and the topic's policy keeps
    /// storing subsequent publishes into a fresh, empty buffer.
    ///
    /// Fails with a size error when `T` does not fit, with an unregistered
    /// error when `T` has no record, and with a without-store error when
    /// the record has no retention policy; nothing is mutated on failure.
    #[verifier::rlimit(100)]
    #[verifier::spinoff_prover]
    pub fn query<T: 'static>(&mut self) -> (r: Result<
        UnblockingQuery<T, EVENT_SIZE>,
        EventError<T>,
    >)
        requires
            old(self).wf(),
        ensures
            final(self).wf(),
            r matches Err(e) ==> final(self).entries() == old(self).entries() && e.value_spec()
                is None,
            spec_size_requirement::<T>() > EVENT_SIZE as nat ==> (r matches Err(e) && (
            e.raw_spec() matches RawErr::EventSize { max, is, .. } && max == EVENT_SIZE && is
                as nat == spec_size_requirement::<T>())),
            spec_size_requirement::<T>() <= EVENT_SIZE as nat ==> (r matches Err(e) ==> (
            e.raw_spec() matches RawErr::UnregisteredEventType(_) || e.raw_spec()
                is RegisteredWithoutStore)),
            r matches Ok(q) ==> old(self).some_queried(*final(self), q.remaining()),
    {
        match fit_requirement::<T, EVENT_SIZE>() {
            Some(req) => {
                return Err(EventError::event_size_empty(EventSizeError::new(EVENT_SIZE, req)));
            },
            None => {},
        }
        let id = topic_id_of::<T>();
        match self.registered.get_mut(&id) {
            None => Err(EventError::unregisted_event_empty()),
            Some(registered) => {
                proof {
                    old(self).lemma_topic_lookup(id);
                    let gi = old(self).topic_index(id);
                    assert(old(self).has_topic(id));
                    assert(0 <= gi < old(self).entries().len() && old(self).entries()[gi].0 == id);
                    assert(old(self).entries()[gi].1.wf());
                    assert(registered.wf());
                }
                match registered.events_clone() {
                    None => {
                        proof {
                            assert(self.entries() =~= old(self).entries());
                        }
                        Err(EventError::registered_without_store())
                    },
                    Some(events) => {
                        let q = UnblockingQuery::new(events);
                        proof {
                            old(self).lemma_topic_lookup(id);
                            reveal(EventBackend::queried);
                            assert(old(self).queried(*self, id, q.remaining()));
                            assert(old(self).some_queried(*self, q.remaining()));
                        }
                        Ok(q)
                    },
                }
            },
        }
    }

    /// Returns a cursor over the stored events of the matching topic, with
    /// the same detaching contract as [`EventBackend::query`]: the cursor
    /// owns the detached buffer and retains no lock or borrow on the topic,
    /// which stays usable while the cursor lives.
    ///
    /// Fails exactly as [`EventBackend::query`] does; nothing is mutated on
    /// failure.
    #[verifier::rlimit(100)]
    #[verifier::spinoff_prover]
    pub fn query_blocking<T: 'static>(&mut self) -> (r: Result<
        Query<T, EVENT_SIZE>,
        EventError<T>,
    >)
        requires
            old(self).wf(),
        ensures
            final(self).wf(),
            r matches Err(e) ==> final(self).entries() == old(self).entries() && e.value_spec()
                is None,
            spec_size_requirement::<T>() > EVENT_SIZE as nat ==> (r matches Err(e) && (
            e.raw_spec() matches RawErr::EventSize { max, is, .. } && max == EVENT_SIZE && is
                as nat == spec_size_requirement::<T>())),
            spec_size_requirement::<T>() <= EVENT_SIZE as nat ==> (r matches Err(e) ==> (
            e.raw_spec() matches RawErr::UnregisteredEventType(_) || e.raw_spec()
                is RegisteredWithoutStore)),
            r matches Ok(q) ==> old(self).some_queried(*final(self), q.remaining()),
    {
        match fit_requirement::<T, EVENT_SIZE>() {
            Some(req) => {
                return Err(EventError::event_size_empty(EventSizeError::new(EVENT_SIZE, req)));
            },
            None => {},
        }
        let id = topic_id_of::<T>();
        match self.registered.get_mut(&id) {
            None => Err(EventError::unregisted_event_empty()),
            Some(registered) => {
                proof {
                    old(self).lemma_topic_lookup(id);
                    let gi = old(self).topic_index(id);
                    assert(old(self).has_topic(id));
                    assert(0 <= gi < old(self).entries().len() && old(self).entries()[gi].0 == id);
                    assert(old(self).entries()[gi].1.wf());
                    assert(registered.wf());
                }
                match registered.events() {
                    None => {
                        proof {
                            assert(self.entries() =~= old(self).entries());
                        }
                        Err(EventError::registered_without_store())
                    },
                    Some(events) => {
                        let q = Query::new(events);
                        proof {
                            old(self).lemma_topic_lookup(id);
                            reveal(EventBackend::queried);
                            assert(old(self).queried(*self, id, q.remaining()));
                            assert(old(self).some_queried(*self, q.remaining()));
                        }
                        Ok(q)
                    },
                }
            },
        }
    }

    /// True when some topic gained one listener, with count `n` after.
    pub open spec fn some_listener_added(self, post: Self, n: usize) -> bool {
        exists|k: TopicId| #[trigger] self.listener_added(post, k, n)
    }

    /// True when some topic absorbed one published erased value.
    pub open spec fn some_published(self, post: Self) -> bool {
        exists|k: TopicId, event: Event<EVENT_SIZE>| #[trigger] self.published(post, k, event)
    }

    /// True when some topic was drained into the sequence `out`.
    pub open spec fn some_queried(self, post: Self, out: Seq<Event<EVENT_SIZE>>) -> bool {
        exists|k: TopicId| #[trigger] self.queried(post, k, out)
    }

    /// What flipping one topic's flag to `value` makes of the table: only
    /// that record's flag changes; its policy, its stored values and its
    /// listeners, and every other entry, are untouched.
    pub open spec fn flag_set(self, post: Self, k: TopicId, value: bool) -> bool {
        let i = self.topic_index(k);
        &&& self.has_topic(k)
        &&& post.entries().len() == self.entries().len()
        &&& (forall|j: int|
            0 <= j < self.entries().len() && j != i ==> post.entries()[j] == self.entries()[j])
        &&& post.entries()[i].0 == k
        &&& post.entries()[i].1.enabled_spec() == value
        &&& post.entries()[i].1.slot_spec() == self.entries()[i].1.slot_spec()
        &&& post.entries()[i].1.listeners_spec() == self.entries()[i].1.listeners_spec()
    }

    /// Disables the matching topic: subsequent publishes for it become
    /// silent no-ops until it is enabled again. Stored values and listeners
    /// are kept.
    ///
    /// The only failure is the unregistered error, when `T` has no topic
    /// record; a type that does not fit the capacity can never have one.
    /// Nothing is mutated on failure.
    pub fn disable<T: 'static>(&mut self) -> (r: Result<(), EventError<T>>)
        requires
            old(self).wf(),
        ensures
            final(self).wf(),
            r matches Err(e) ==> final(self).entries() == old(self).entries() && e.value_spec()
                is None && e.raw_spec() matches RawErr::UnregisteredEventType(_),
            r is Ok ==> exists|k: TopicId| #[trigger] old(self).flag_set(*final(self), k, false),
    {
        let id = topic_id_of::<T>();
        match self.registered.get_mut(&id) {
            Some(registered) => {
                registered.disable();
                proof {
                    old(self).lemma_topic_lookup(id);
                    assert(old(self).flag_set(*self, id, false));
                }
                Ok(())
            },
            None => Err(EventError::unregisted_event_empty()),
        }
    }

    /// Enables the matching topic: subsequent publishes for it are
    /// processed again.
    ///
    /// Fails exactly as [`EventBackend::disable`] does; nothing is mutated
    /// on failure.
    pub fn enable<T: 'static>(&mut self) -> (r: Result<(), EventError<T>>)
        requires
            old(self).wf(),
        ensures
            final(self).wf(),
            r matches Err(e) ==> final(self).entries() == old(self).entries() && e.value_spec()
                is None && e.raw_spec() matches RawErr::UnregisteredEventType(_),
            r is Ok ==> exists|k: TopicId| #[trigger] old(self).flag_set(*final(self), k, true),
    {
        let id = topic_id_of::<T>();
        match self.registered.get_mut(&id) {
            Some(registered) => {
                registered.enable();
                proof {
                    old(self).lemma_topic_lookup(id);
                    assert(old(self).flag_set(*self, id, true));
                }
                Ok(())
            },
            None => Err(EventError::unregisted_event_empty()),
        }
    }

    /// Disables every registered topic. Cannot fail; visits every record
    /// exactly once.
    pub fn disable_all(&mut self)
        requires
            old(self).wf(),
        ensures
            final(self).wf(),
            final(self).entries().len() == old(self).entries().len(),
            forall|i: int|
                0 <= i < old(self).entries().len() ==> (#[trigger] final(self).entries()[i]).0
                    == old(self).entries()[i].0 && !final(self).entries()[i].1.enabled_spec()
                    && final(self).entries()[i].1.slot_spec() == old(self).entries()[i].1.slot_spec()
                    && final(self).entries()[i].1.listeners_spec() == old(self).entries()[
                    i
                ].1.listeners_spec(),
    {
        let n = self.registered.len();
        let mut i: usize = 0;
        while i < n
            invariant
                i <= n,
                n == self.registered.entries().len(),
                self.registered.entries().len() == old(self).entries().len(),
                old(self).wf(),
                self.registered.wf(),
                forall|j: int|
                    0 <= j < i ==> (#[trigger] self.registered.entries()[j]).0 == old(
                        self,
                    ).entries()[j].0 && !self.registered.entries()[j].1.enabled_spec()
                        && self.registered.entries()[j].1.slot_spec() == old(self).entries()[
                        j
                    ].1.slot_spec() && self.registered.entries()[j].1.listeners_spec() == old(
                        self,
                    ).entries()[j].1.listeners_spec() && self.registered.entries()[j].1.wf(),
                forall|j: int|
                    i <= j < n ==> #[trigger] self.registered.entries()[j] == old(self).entries()[j],
            decreases n - i,
        {
            proof {
                assert(self.registered.entries()[i as int] == old(self).entries()[i as int]);
                assert(old(self).entries()[i as int].1.wf());
            }
            let record = self.registered.values_mut(i);
            record.disable();
            i += 1;
        }
    }

    /// Enables every registered topic. Cannot fail; visits every record
    /// exactly once.
    pub fn enable_all(&mut self)
        requires
            old(self).wf(),
        ensures
            final(self).wf(),
            final(self).entries().len() == old(self).entries().len(),
            forall|i: int|
                0 <= i < old(self).entries().len() ==> (#[trigger] final(self).entries()[i]).0
                    == old(self).entries()[i].0 && final(self).entries()[i].1.enabled_spec()
                    && final(self).entries()[i].1.slot_spec() == old(self).entries()[i].1.slot_spec()
                    && final(self).entries()[i].1.listeners_spec() == old(self).entries()[
                    i
                ].1.listeners_spec(),
    {
        let n = self.registered.len();
        let mut i: usize = 0;
        while i < n
            invariant
                i <= n,
                n == self.registered.entries().len(),
                self.registered.entries().len() == old(self).entries().len(),
                old(self).wf(),
                self.registered.wf(),
                forall|j: int|
                    0 <= j < i ==> (#[trigger] self.registered.entries()[j]).0 == old(
                        self,
                    ).entries()[j].0 && self.registered.entries()[j].1.enabled_spec()
                        && self.registered.entries()[j].1.slot_spec() == old(self).entries()[
                        j
                    ].1.slot_spec() && self.registered.entries()[j].1.listeners_spec() == old(
                        self,
                    ).entries()[j].1.listeners_spec() && self.registered.entries()[j].1.wf(),
                forall|j: int|
                    i <= j < n ==> #[trigger] self.registered.entries()[j] == old(self).entries()[j],
            decreases n - i,
        {
            proof {
                assert(self.registered.entries()[i as int] == old(self).entries()[i as int]);
                assert(old(self).entries()[i as int].1.wf());
            }
            let record = self.registered.values_mut(i);
            record.enable();
            i += 1;
        }
    }

    /// Frees the memory held for batched events: every record drops all its
    /// listeners and empties its retention buffer. All values that were not
    /// consumed are discarded; registrations and flags are kept.
    pub fn cleanup(&mut self)
        requires
            old(self).wf(),
        ensures
            final(self).wf(),
            final(self).entries().len() == old(self).entries().len(),
            forall|i: int|
                0 <= i < old(self).entries().len() ==> (#[trigger] final(self).entries()[i]).0
                    == old(self).entries()[i].0 && final(self).entries()[i].1.enabled_spec() == old(
                    self,
                ).entries()[i].1.enabled_spec() && final(self).entries()[i].1.listeners_spec()
                    == Seq::<Listener<EVENT_SIZE>>::empty() && final(self).entries()[i].1.stored()
                    == Seq::<Event<EVENT_SIZE>>::empty() && (old(self).entries()[i].1.slot_spec()
                    is None ==> final(self).entries()[i].1.slot_spec() is None) && (old(
                    self,
                ).entries()[i].1.slot_spec() is Some ==> final(self).entries()[i].1.slot_spec()
                    is Some && final(self).entries()[i].1.slot_spec()->0.same_policy(
                    old(self).entries()[i].1.slot_spec()->0,
                )),
    {
        let n = self.registered.len();
        let mut i: usize = 0;
        while i < n
            invariant
                i <= n,
                n == self.registered.entries().len(),
                self.registered.entries().len() == old(self).entries().len(),
                old(self).wf(),
                self.registered.wf(),
                forall|j: int|
                    0 <= j < i ==> (#[trigger] self.registered.entries()[j]).0 == old(
                        self,
                    ).entries()[j].0 && self.registered.entries()[j].1.enabled_spec() == old(
                        self,
                    ).entries()[j].1.enabled_spec() && self.registered.entries()[
                        j
                    ].1.listeners_spec() == Seq::<Listener<EVENT_SIZE>>::empty()
                        && self.registered.entries()[j].1.stored() == Seq::<
                        Event<EVENT_SIZE>,
                    >::empty() && self.registered.entries()[j].1.wf() && (old(
                        self,
                    ).entries()[j].1.slot_spec() is None ==> self.registered.entries()[
                        j
                    ].1.slot_spec() is None) && (old(self).entries()[j].1.slot_spec() is Some
                        ==> self.registered.entries()[j].1.slot_spec() is Some
                        && self.registered.entries()[j].1.slot_spec()->0.same_policy(
                        old(self).entries()[j].1.slot_spec()->0,
                    )),
                forall|j: int|
                    i <= j < n ==> #[trigger] self.registered.entries()[j] == old(self).entries()[j],
            decreases n - i,
        {
            proof {
                assert(self.registered.entries()[i as int] == old(self).entries()[i as int]);
                assert(old(self).entries()[i as int].1.wf());
            }
            let record = self.registered.values_mut(i);
            record.cleanup();
            i += 1;
        }
    }
}

impl Default for EventBackend<DEFAULT_EVENT_SIZE> {
    /// Creates a new `EventBackend` with the default storage capacity.
    fn default() -> (r: Self)
        ensures
            r.entries() == Seq::<(TopicId, Registered<DEFAULT_EVENT_SIZE>)>::empty(),
            r.wf(),
    {
        Self::new()
    }
}

/// Law: registering a listener preserves registration order. Every listener
/// the topic already had keeps its position, and the new one stands after
/// all of them; dispatch walks that list front to back.
pub proof fn lemma_listener_order_preserved<const SIZE: usize>(
    pre: EventBackend<SIZE>,
    post: EventBackend<SIZE>,
    k: TopicId,
    n: usize,
)
    requires
        pre.listener_added(post, k, n),
        pre.has_topic(k),
    ensures
        post.entries()[pre.topic_index(k)].1.listeners_spec().len() == pre.entries()[pre.topic_index(
            k,
        )].1.listeners_spec().len() + 1,
        forall|m: int|
            0 <= m < pre.entries()[pre.topic_index(k)].1.listeners_spec().len()
                ==> post.entries()[pre.topic_index(k)].1.listeners_spec()[m] == pre.entries()[pre.topic_index(
                k,
            )].1.listeners_spec()[m],
{
    reveal(EventBackend::listener_added);
}

/// Law: a query detaches the buffer whole. The cursor receives exactly the
/// stored values — none lost, none duplicated — and the topic afterwards
/// stores nothing, so a subsequent query yields only what is published
/// after the detach.
pub proof fn lemma_query_detaches_exactly<const SIZE: usize>(
    pre: EventBackend<SIZE>,
    post: EventBackend<SIZE>,
    k: TopicId,
    out: Seq<Event<SIZE>>,
)
    requires
        pre.queried(post, k, out),
    ensures
        out == pre.entries()[pre.topic_index(k)].1.stored(),
        post.entries()[pre.topic_index(k)].1.stored() == Seq::<Event<SIZE>>::empty(),
{
    reveal(EventBackend::queried);
}

/// Law: installing a retention policy on a topic that already has one
/// replaces the policy and drops the previously buffered values: afterwards
/// the topic stores nothing, while its listeners and flag are kept.
pub proof fn lemma_register_store_replaces<T: 'static, const SIZE: usize>(
    pre: EventBackend<SIZE>,
    post: EventBackend<SIZE>,
    k: TopicId,
    typ: SlotType<T>,
)
    requires
        pre.store_installed(post, k, typ),
        pre.has_topic(k),
    ensures
        post.entries()[pre.topic_index(k)].1.stored() == Seq::<Event<SIZE>>::empty(),
        post.entries()[pre.topic_index(k)].1.slot_spec()->0.of_type(typ),
        post.entries()[pre.topic_index(k)].1.listeners_spec() == pre.entries()[pre.topic_index(
            k,
        )].1.listeners_spec(),
        post.entries()[pre.topic_index(k)].1.enabled_spec() == pre.entries()[pre.topic_index(
            k,
        )].1.enabled_spec(),
{
}

/// Law: a publish that lands on a disabled topic is a silent no-op. The call
/// succeeds, but no listener is invoked and no value is stored: the table is
/// exactly what it was.
pub proof fn lemma_disabled_publish_is_noop<const SIZE: usize>(
    pre: EventBackend<SIZE>,
    post: EventBackend<SIZE>,
    k: TopicId,
    event: Event<SIZE>,
)
    requires
        pre.published(post, k, event),
        !pre.entries()[pre.topic_index(k)].1.enabled_spec(),
    ensures
        post.entries() == pre.entries(),
{
    reveal(EventBackend::published);
    let i = pre.topic_index(k);
    assert(post.entries()[i] == pre.entries()[i]);
    assert(post.entries() =~= pre.entries());
}

} // verus!
