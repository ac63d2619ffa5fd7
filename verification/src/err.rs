//! The error taxonomy: every failure an operation can report, each carrying
//! enough to tell the caller what was wrong, and, for operations that accepted
//! an owned value, the value itself so that nothing is silently lost.

use vstd::prelude::*;

verus! {

use core::marker::PhantomData;

/// Marker for an [`EventError`] that carries the rejected value back to the caller.
#[derive(Debug)]
pub struct Value;

/// Marker for an [`EventError`] that carries no value.
#[derive(Debug)]
pub struct NoValue;

/// An error of the event system. The marker `V` records statically whether the
/// error carries the value that the failed operation was given ([`Value`]) or
/// not ([`NoValue`]).
#[derive(Debug)]
pub struct EventError<T: 'static, V = NoValue> {
    inner: Option<T>,
    raw: RawErr<T>,
    v: PhantomData<V>,
}

impl<T: 'static, V> EventError<T, V> {
    /// The value the error carries, if it carries one.
    pub closed spec fn value_spec(self) -> Option<T> {
        self.inner
    }

    /// Which failure this error reports.
    pub closed spec fn raw_spec(self) -> RawErr<T> {
        self.raw
    }

    /// True when the error holds the rejected value.
    pub open spec fn carries_value(self) -> bool {
        self.value_spec() is Some
    }

    /// The bare failure, without the carried value.
    pub fn raw_err(&self) -> (r: RawErr<T>)
        ensures
            r == self.raw_spec(),
    {
        match self.raw {
            RawErr::UnregisteredEventType(_) => RawErr::UnregisteredEventType(PhantomData),
            RawErr::EventSize { max, is, t } => RawErr::EventSize { max, is, t },
            RawErr::RegisteredWithoutStore => RawErr::RegisteredWithoutStore,
        }
    }
}

impl<T: 'static> EventError<T, Value> {
    /// Takes the rejected value back out of the error.
    pub fn into_inner(self) -> (r: T)
        requires
            self.carries_value(),
        ensures
            Some(r) == self.value_spec(),
    {
        match self.inner {
            Some(t) => t,
            None => vstd::pervasive::unreached(),
        }
    }

    /// An error for a value whose type does not fit the configured capacity.
    pub fn event_size(value: T, err: EventSizeError) -> (r: Self)
        ensures
            r.value_spec() == Some(value),
            r.raw_spec() == (RawErr::EventSize::<T> { max: err.max_spec(), is: err.is_spec(), t: PhantomData }),
    {
        Self {
            inner: Some(value),
            raw: RawErr::EventSize { max: err.max(), is: err.is_(), t: PhantomData },
            v: PhantomData,
        }
    }

    /// An error for a value whose type has no topic record.
    pub fn unregisted_event(value: T) -> (r: Self)
        ensures
            r.value_spec() == Some(value),
            r.raw_spec() == RawErr::UnregisteredEventType::<T>(PhantomData),
    {
        Self {
            inner: Some(value),
            v: PhantomData,
            raw: RawErr::UnregisteredEventType(PhantomData),
        }
    }
}

impl<T: 'static> EventError<T, NoValue> {
    /// An error for an operation on a type that has no topic record.
    pub fn unregisted_event_empty() -> (r: Self)
        ensures
            r.value_spec() is None,
            r.raw_spec() == RawErr::UnregisteredEventType::<T>(PhantomData),
    {
        Self {
            inner: None,
            raw: RawErr::UnregisteredEventType(PhantomData),
            v: PhantomData,
        }
    }

    /// An error for an operation on a type that does not fit the configured capacity.
    pub fn event_size_empty(raw: EventSizeError) -> (r: Self)
        ensures
            r.value_spec() is None,
            r.raw_spec() == (RawErr::EventSize::<T> { max: raw.max_spec(), is: raw.is_spec(), t: PhantomData }),
    {
        Self {
            inner: None,
            raw: RawErr::EventSize { max: raw.max(), is: raw.is_(), t: PhantomData },
            v: PhantomData,
        }
    }

    /// An error for a query on a topic that has no retention policy installed.
    pub fn registered_without_store() -> (r: Self)
        ensures
            r.value_spec() is None,
            r.raw_spec() == RawErr::RegisteredWithoutStore::<T>,
    {
        Self {
            inner: None,
            raw: RawErr::RegisteredWithoutStore,
            v: PhantomData,
        }
    }
}

/// The bare failure cases, without a carried value.
#[derive(Debug)]
pub enum RawErr<T: 'static> {
    /// The operation referenced a type that has no topic record.
    UnregisteredEventType(PhantomData<T>),
    /// The type needs `is` bytes but the system stores at most `max`.
    EventSize {
        /// The capacity of the event system.
        max: usize,
        /// The size the type would need.
        is: usize,
        /// The event type the operation was called with.
        t: PhantomData<T>,
    },
    /// A query was made on a topic that stores nothing.
    RegisteredWithoutStore,
}

/// A size failure on its own: the capacity that was available and the size
/// that would have been required.
#[derive(Debug, Clone, Copy)]
pub struct EventSizeError {
    max: usize,
    is: usize,
}

impl EventSizeError {
    /// The available capacity.
    pub closed spec fn max_spec(self) -> usize {
        self.max
    }

    /// The required size.
    pub closed spec fn is_spec(self) -> usize {
        self.is
    }

    /// Builds a size failure from the available capacity and the required size.
    pub fn new(max: usize, is: usize) -> (r: Self)
        ensures
            r.max_spec() == max,
            r.is_spec() == is,
    {
        Self { max, is }
    }

    /// The available capacity.
    pub fn max(&self) -> (r: usize)
        ensures
            r == self.max_spec(),
    {
        self.max
    }

    /// The required size.
    pub fn is_(&self) -> (r: usize)
        ensures
            r == self.is_spec(),
    {
        self.is
    }
}

} // verus!
