//! Query cursors: single-consumer, forward-only sequences of typed values,
//! drained oldest-first from a detached retention buffer.
//!
//! Both cursor kinds own the values they will produce: the buffer was
//! detached from the topic when the cursor was built, so consuming or
//! dropping a cursor never puts values back.

use vstd::prelude::*;

verus! {

use core::marker::PhantomData;
use std::collections::VecDeque;
use crate::event::{extract, Event};

/// A cursor over the events of type `T` that a blocking query detached.
#[derive(Debug)]
pub struct Query<T: 'static, const EVENT_SIZE: usize> {
    events: VecDeque<Event<EVENT_SIZE>>,
    _t: PhantomData<T>,
}

impl<T: 'static, const EVENT_SIZE: usize> Query<T, EVENT_SIZE> {
    /// The erased values the cursor has not yet produced, oldest first.
    pub closed spec fn remaining(self) -> Seq<Event<EVENT_SIZE>> {
        self.events@
    }

    /// Builds a cursor over a detached buffer.
    pub(crate) fn new(events: VecDeque<Event<EVENT_SIZE>>) -> (r: Self)
        ensures
            r.remaining() == events@,
    {
        Self { events, _t: PhantomData }
    }

    /// How many events this cursor can still produce.
    pub fn len(&self) -> (r: usize)
        ensures
            r == self.remaining().len(),
    {
        self.events.len()
    }

    /// Takes the oldest remaining event out of the cursor. `None` once the
    /// cursor is exhausted; the produced value is the extracted content of
    /// the consumed erased value.
    pub fn next(&mut self) -> (r: Option<T>)
        ensures
            old(self).remaining().len() == 0 ==> r is None && final(self).remaining() == old(
                self,
            ).remaining(),
            old(self).remaining().len() > 0 ==> final(self).remaining() == old(
                self,
            ).remaining().drop_first(),
    {
        match self.events.pop_front() {
            Some(event) => extract(event),
            None => None,
        }
    }
}

/// A cursor over the events of type `T` that a non-blocking query detached.
#[derive(Debug)]
pub struct UnblockingQuery<T: 'static, const EVENT_SIZE: usize> {
    events: VecDeque<Event<EVENT_SIZE>>,
    _t: PhantomData<T>,
}

impl<T: 'static, const EVENT_SIZE: usize> UnblockingQuery<T, EVENT_SIZE> {
    /// The erased values the cursor has not yet produced, oldest first.
    pub closed spec fn remaining(self) -> Seq<Event<EVENT_SIZE>> {
        self.events@
    }

    /// Builds a cursor over a detached buffer.
    pub(crate) fn new(events: VecDeque<Event<EVENT_SIZE>>) -> (r: Self)
        ensures
            r.remaining() == events@,
    {
        Self { events, _t: PhantomData }
    }

    /// How many events this cursor can still produce.
    pub fn len(&self) -> (r: usize)
        ensures
            r == self.remaining().len(),
    {
        self.events.len()
    }

    /// Takes the oldest remaining event out of the cursor. `None` once the
    /// cursor is exhausted; the produced value is the extracted content of
    /// the consumed erased value.
    pub fn next(&mut self) -> (r: Option<T>)
        ensures
            old(self).remaining().len() == 0 ==> r is None && final(self).remaining() == old(
                self,
            ).remaining(),
            old(self).remaining().len() > 0 ==> final(self).remaining() == old(
                self,
            ).remaining().drop_first(),
    {
        match self.events.pop_front() {
            Some(event) => extract(event),
            None => None,
        }
    }
}

} // verus!
