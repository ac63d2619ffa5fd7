//! An in-process event dispatch core.
//!
//! Callers register a topic per payload type, either with listener functions
//! that run on every publish, or with a retention policy that keeps published
//! values for deferred batch consumption, or both. Publishing a value fans it
//! out to the listeners in registration order and then hands it to the
//! retention policy; a query drains what the policy kept.
//!
//! Payload values are held type-erased in a fixed-capacity box
//! ([`anythingy::Thing`]); a type whose representation does not fit the
//! configured capacity is rejected with a size error before anything is
//! mutated.

use vstd::prelude::*;

mod backend;
mod err;
mod event;
mod map;
mod query;
mod slot;

verus! {

/// Capacity, in bytes, that an event system built by
/// [`Default::default`] gives each stored value. The container's own
/// default ([`anythingy::thing::DEFAULT_THING_SIZE`]) is three words; the
/// verifier cannot evaluate that outside constant, so its value on 64-bit
/// targets is written out here.
pub const DEFAULT_EVENT_SIZE: usize = 24;

} // verus!

pub use backend::{
    fresh_store, lemma_disabled_publish_is_noop, lemma_listener_order_preserved,
    lemma_query_detaches_exactly, lemma_register_store_replaces, oversize, EventBackend,
    Registered,
};
pub use err::{EventError, EventSizeError, NoValue, RawErr, Value};
pub use event::{spec_size_requirement, size_requirement, CmpFn, Event, FilterFn, Listener, TopicId};
pub use map::RegisteredMap;
pub use query::{Query, UnblockingQuery};
pub use slot::{
    apply_all, apply_first, apply_last, apply_max, lemma_first_policy, lemma_last_policy,
    lemma_max_policy, run_first, run_last, run_max, Slot, SlotType,
};
