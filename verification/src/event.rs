//! The boundary to the type-erased value container.
//!
//! A published value is held in an [`anythingy::Thing`]: a fixed-capacity box
//! that can store one value of any `'static` type whose representation fits
//! the capacity. The container is an external collaborator: this module
//! declares it opaque and routes every call into it through a small trusted
//! function whose contract states only what the container's source shows.
//! Everything the engine proves about retention and draining is stated over
//! *which* erased values a buffer holds and in what order, never over what is
//! inside one.
//!
//! The module also holds the opaque callable holders: a listener, a
//! comparison function and a filter function are user closures, stored
//! type-erased behind `dyn Fn`, which the verifier does not model. Each holder
//! hides one such closure and exposes a trusted call.

use vstd::prelude::*;

verus! {

/// A type-erased event value with inline capacity of `SIZE` bytes.
pub type Event<const SIZE: usize> = anythingy::Thing<SIZE>;

#[verifier::external_type_specification]
#[verifier::external_body]
/// Declares [`anythingy::Thing`] to the verifier as an opaque type.
pub struct ExThing<const SIZE: usize>(anythingy::Thing<SIZE>);

/// The least capacity that can hold a `T`, as the container computes it
/// (`anythingy::Thing::size_requirement`): a value is boxed when it is
/// over-aligned or bigger than its box, and then only the box must fit;
/// otherwise it is stored inline at its own size.
pub open spec fn spec_size_requirement<T: 'static>() -> nat {
    if vstd::layout::align_of::<T>() > 8 || vstd::layout::size_of::<T>() > vstd::layout::size_of::<
        Box<T>,
    >() {
        vstd::layout::size_of::<Box<T>>()
    } else {
        vstd::layout::size_of::<T>()
    }
}

/// Computes the least capacity that can hold a `T`; this is the container's
/// own fit formula, see [`spec_size_requirement`].
pub fn size_requirement<T: 'static>() -> (r: usize)
    ensures
        r as nat == spec_size_requirement::<T>(),
{
    let size = core::mem::size_of::<T>();
    let boxed = core::mem::size_of::<Box<T>>();
    let align = core::mem::align_of::<T>();
    if align > 8 || size > boxed {
        boxed
    } else {
        size
    }
}

/// Decides whether a `T` fits a capacity of `SIZE` bytes: `None` when it
/// does, the required capacity when it does not.
pub fn fit_requirement<T: 'static, const SIZE: usize>() -> (r: Option<usize>)
    ensures
        r is None <==> spec_size_requirement::<T>() <= SIZE as nat,
        r matches Some(req) ==> req as nat == spec_size_requirement::<T>() && req > SIZE,
{
    let req = size_requirement::<T>();
    if req <= SIZE {
        None
    } else {
        Some(req)
    }
}

/// Relies on `anythingy::Thing::new` and `anythingy::Thing::fitting`:
/// `fitting` is exactly the container's `size_requirement::<T>() <= SIZE`,
/// and that `size_requirement` is the boxed-or-inline formula that
/// [`spec_size_requirement`] states. The guard excludes `Thing::new`'s
/// documented panic; a value whose type does not fit is handed back itself.
#[verifier::external_body]
pub(crate) fn erase<T: 'static, const SIZE: usize>(value: T) -> (r: Result<Event<SIZE>, T>)
    ensures
        r is Ok <==> spec_size_requirement::<T>() <= SIZE as nat,
        r matches Err(t) ==> t == value,
{
    if anythingy::Thing::<SIZE>::fitting::<T>() {
        Ok(anythingy::Thing::new(value))
    } else {
        Err(value)
    }
}

/// Relies on `anythingy::Thing::try_get`: hands the stored value back as a
/// `T` when `T` is the type the box was made from, and `None` otherwise.
#[verifier::external_body]
pub(crate) fn extract<T: 'static, const SIZE: usize>(event: Event<SIZE>) -> Option<T> {
    event.try_get::<T>()
}

/// One registered listener: a user closure over `&T`, stored type-erased so
/// that records of different payload types can live in one table.
#[verifier::external_body]
pub struct Listener<const SIZE: usize> {
    f: Box<dyn Fn(&Event<SIZE>) + Send + Sync + 'static>,
}

impl<const SIZE: usize> Listener<SIZE> {
    /// Wraps a typed listener closure in a type-erasing adapter.
    ///
    /// Relies on `anythingy::Thing::try_get_ref` inside the stored closure:
    /// the adapter reinterprets the erased value as `&T` and calls the user
    /// closure on it, and does nothing when the value is of another type.
    #[verifier::external_body]
    pub(crate) fn new<T: 'static, F: Fn(&T) + Send + Sync + 'static>(f: F) -> Self {
        Self {
            f: Box::new(move |event: &Event<SIZE>| {
                if let Some(value) = event.try_get_ref::<T>() {
                    f(value);
                }
            }),
        }
    }

    /// Calls the stored user closure on the event. What the closure does is
    /// its caller's business; nothing is assumed of it. The dispatch path
    /// does not catch unwinding: a panic in a listener propagates to the
    /// publisher.
    #[verifier::external_body]
    pub(crate) fn call(&self, event: &Event<SIZE>) {
        (self.f)(event);
    }
}

/// A user comparison function over `&T`, as handed to the `Cmp` retention
/// policy, before it is type-erased.
#[verifier::reject_recursive_types(T)]
#[verifier::external_body]
pub struct CmpFn<T: 'static> {
    f: Box<dyn Fn(&T, &T) -> bool + Send + Sync + 'static>,
}

impl<T: 'static> CmpFn<T> {
    /// Boxes a user comparison closure `(current, new) -> bool`.
    #[verifier::external_body]
    pub fn new<F: Fn(&T, &T) -> bool + Send + Sync + 'static>(f: F) -> Self {
        Self { f: Box::new(f) }
    }
}

/// A user filter function over `&T`, as handed to the `AllFilter` retention
/// policy, before it is type-erased.
#[verifier::reject_recursive_types(T)]
#[verifier::external_body]
pub struct FilterFn<T: 'static> {
    f: Box<dyn Fn(&T) -> bool + Send + Sync + 'static>,
}

impl<T: 'static> FilterFn<T> {
    /// Boxes a user filter closure `new -> bool`.
    #[verifier::external_body]
    pub fn new<F: Fn(&T) -> bool + Send + Sync + 'static>(f: F) -> Self {
        Self { f: Box::new(f) }
    }
}

/// A type-erased comparison function: decides between two erased values.
#[verifier::external_body]
pub struct EventCmp<const SIZE: usize> {
    f: Box<dyn Fn(&Event<SIZE>, &Event<SIZE>) -> bool + Send + Sync + 'static>,
}

impl<const SIZE: usize> EventCmp<SIZE> {
    /// Wraps a typed comparison function in a type-erasing adapter.
    ///
    /// Relies on `anythingy::Thing::try_get_ref` inside the stored closure:
    /// the adapter reinterprets both erased values as `&T` and calls the user
    /// function, and answers `false` when either value is of another type.
    #[verifier::external_body]
    pub(crate) fn new<T: 'static>(cmp: CmpFn<T>) -> Self {
        Self {
            f: Box::new(move |current: &Event<SIZE>, new: &Event<SIZE>| {
                match (current.try_get_ref::<T>(), new.try_get_ref::<T>()) {
                    (Some(c), Some(n)) => (cmp.f)(c, n),
                    _ => false,
                }
            }),
        }
    }

    /// Calls the stored user comparison function. The answer is the user's
    /// decision; nothing is assumed of it.
    #[verifier::external_body]
    pub(crate) fn call(&self, current: &Event<SIZE>, new: &Event<SIZE>) -> bool {
        (self.f)(current, new)
    }
}

/// A type-erased filter function: accepts or rejects one erased value.
#[verifier::external_body]
pub struct EventFilter<const SIZE: usize> {
    f: Box<dyn Fn(&Event<SIZE>) -> bool + Send + Sync + 'static>,
}

impl<const SIZE: usize> EventFilter<SIZE> {
    /// Wraps a typed filter function in a type-erasing adapter.
    ///
    /// Relies on `anythingy::Thing::try_get_ref` inside the stored closure:
    /// the adapter reinterprets the erased value as `&T` and calls the user
    /// function, and answers `false` when the value is of another type.
    #[verifier::external_body]
    pub(crate) fn new<T: 'static>(filter: FilterFn<T>) -> Self {
        Self {
            f: Box::new(move |new: &Event<SIZE>| {
                match new.try_get_ref::<T>() {
                    Some(n) => (filter.f)(n),
                    None => false,
                }
            }),
        }
    }

    /// Calls the stored user filter function. The answer is the user's
    /// decision; nothing is assumed of it.
    #[verifier::external_body]
    pub(crate) fn call(&self, new: &Event<SIZE>) -> bool {
        (self.f)(new)
    }
}

/// A stable key for a topic: two operations name the same topic exactly when
/// they were called with the same payload type.
pub type TopicId = core::any::TypeId;

#[verifier::external_type_specification]
#[verifier::external_body]
/// Declares [`core::any::TypeId`] to the verifier as an opaque type.
pub struct ExTypeId(core::any::TypeId);

/// Relies on `core::any::TypeId::of`: a key derived from the static identity
/// of `T`. Nothing is assumed of the returned key.
#[verifier::external_body]
pub(crate) fn topic_id_of<T: 'static>() -> TopicId {
    core::any::TypeId::of::<T>()
}

/// Relies on the `PartialEq` impl of `core::any::TypeId`, which compares the
/// identity values themselves: the answer is whether the two keys are equal.
#[verifier::external_body]
pub(crate) fn topic_id_eq(a: &TopicId, b: &TopicId) -> (r: bool)
    ensures
        r == (*a == *b),
{
    a == b
}

} // verus!
