//! The retention ("slot") policies: the eviction and ordering core.
//!
//! A slot owns an ordered buffer of type-erased values and enforces one of
//! six retention disciplines on push. The buffer is modeled as the sequence
//! of erased values it holds, oldest first; every push rule is stated, and
//! proved, over that sequence. For the policies that consult a user function
//! (`Cmp`, `AllFilter`) the user's answer is opaque, so the contract states
//! what the buffer becomes for either answer.

use vstd::prelude::*;

verus! {

use std::collections::VecDeque;
use crate::event::{CmpFn, Event, EventCmp, EventFilter, FilterFn};

/// Selects which published values a topic retains for later queries.
#[verifier::reject_recursive_types(T)]
pub enum SlotType<T: 'static> {
    /// All values of the matching type get stored.
    All,
    /// Only the most recently published value gets stored.
    Last,
    /// Only the first published value gets stored.
    First,
    /// A user function `(current, new) -> bool` decides whether the new value
    /// replaces the currently stored one: `true` replaces, `false` discards
    /// the new value.
    Cmp(CmpFn<T>),
    /// A user function `new -> bool` decides whether each value is kept:
    /// `true` appends it, `false` discards it.
    AllFilter(FilterFn<T>),
    /// Keeps at most the given number of values: a bounded FIFO of the most
    /// recent accepted values, evicting the oldest first.
    Max(usize),
}

/// A retention policy instance: the policy's buffer of stored values
/// together with what the policy needs to decide a push.
pub enum Slot<const SIZE: usize> {
    /// Appends unconditionally.
    All(VecDeque<Event<SIZE>>),
    /// Keeps only the most recent value.
    Last(VecDeque<Event<SIZE>>),
    /// Keeps only the first value.
    First(VecDeque<Event<SIZE>>),
    /// Keeps one value; a user function decides replacement.
    Cmp {
        /// The buffer, holding at most one value.
        inner: VecDeque<Event<SIZE>>,
        /// The type-erased user comparison function.
        cmp: EventCmp<SIZE>,
    },
    /// Appends the values a user function accepts.
    AllFilter {
        /// The buffer of accepted values.
        inner: VecDeque<Event<SIZE>>,
        /// The type-erased user filter function.
        filter: EventFilter<SIZE>,
    },
    /// Keeps at most `max` values, evicting the oldest.
    Max {
        /// The buffer, holding at most `max` values.
        inner: VecDeque<Event<SIZE>>,
        /// The bound on how many values are retained.
        max: usize,
    },
}

/// What one push makes of the buffer under the `All` policy.
pub open spec fn apply_all<A>(buf: Seq<A>, value: A) -> Seq<A> {
    buf.push(value)
}

/// What one push makes of the buffer under the `Last` policy.
pub open spec fn apply_last<A>(buf: Seq<A>, value: A) -> Seq<A> {
    seq![value]
}

/// What one push makes of the buffer under the `First` policy.
pub open spec fn apply_first<A>(buf: Seq<A>, value: A) -> Seq<A> {
    if buf.len() == 0 {
        seq![value]
    } else {
        buf
    }
}

/// What one push makes of the buffer under the `Max` policy with bound `max`.
pub open spec fn apply_max<A>(buf: Seq<A>, value: A, max: nat) -> Seq<A> {
    let grown = buf.push(value);
    if grown.len() > max {
        grown.drop_first()
    } else {
        grown
    }
}

impl<const SIZE: usize> Slot<SIZE> {
    /// The sequence of stored values, oldest first.
    pub open spec fn buf(self) -> Seq<Event<SIZE>> {
        match self {
            Slot::All(queue) => queue@,
            Slot::Last(queue) => queue@,
            Slot::First(queue) => queue@,
            Slot::Cmp { inner, .. } => inner@,
            Slot::AllFilter { inner, .. } => inner@,
            Slot::Max { inner, .. } => inner@,
        }
    }

    /// True when the two slots are the same policy with the same user
    /// function and the same bound; the buffers may differ.
    pub open spec fn same_policy(self, other: Self) -> bool {
        match (self, other) {
            (Slot::All(_), Slot::All(_)) => true,
            (Slot::Last(_), Slot::Last(_)) => true,
            (Slot::First(_), Slot::First(_)) => true,
            (Slot::Cmp { cmp: a, .. }, Slot::Cmp { cmp: b, .. }) => a == b,
            (Slot::AllFilter { filter: a, .. }, Slot::AllFilter { filter: b, .. }) => a == b,
            (Slot::Max { max: a, .. }, Slot::Max { max: b, .. }) => a == b,
            _ => false,
        }
    }

    /// The buffer bound each policy maintains: one value for the
    /// single-value policies, `max` for the bounded FIFO.
    pub open spec fn wf(self) -> bool {
        match self {
            Slot::All(_) => true,
            Slot::Last(queue) => queue@.len() <= 1,
            Slot::First(queue) => queue@.len() <= 1,
            Slot::Cmp { inner, .. } => inner@.len() <= 1,
            Slot::AllFilter { .. } => true,
            Slot::Max { inner, max } => inner@.len() <= max,
        }
    }

    /// True when this slot is the one `new` builds for the given selection.
    pub open spec fn of_type<T: 'static>(self, typ: SlotType<T>) -> bool {
        match typ {
            SlotType::All => self matches Slot::All(_),
            SlotType::Last => self matches Slot::Last(_),
            SlotType::First => self matches Slot::First(_),
            SlotType::Cmp(_) => self matches Slot::Cmp { .. },
            SlotType::AllFilter(_) => self matches Slot::AllFilter { .. },
            SlotType::Max(n) => self matches Slot::Max { max, .. } && max == n,
        }
    }

    /// Builds a fresh, empty retention policy instance for the selection.
    pub fn new<T: 'static>(typ: SlotType<T>) -> (r: Self)
        ensures
            r.wf(),
            r.buf() == Seq::<Event<SIZE>>::empty(),
            r.of_type(typ),
    {
        match typ {
            SlotType::All => Slot::All(VecDeque::new()),
            SlotType::Last => Slot::Last(VecDeque::new()),
            SlotType::First => Slot::First(VecDeque::new()),
            SlotType::Cmp(cmp) => Slot::Cmp { inner: VecDeque::new(), cmp: EventCmp::new(cmp) },
            SlotType::AllFilter(filter) => Slot::AllFilter {
                inner: VecDeque::new(),
                filter: EventFilter::new(filter),
            },
            SlotType::Max(max) => Slot::Max { inner: VecDeque::new(), max },
        }
    }

    /// The push rule: everything one push may make of a slot. For the
    /// deterministic policies the outcome is pinned exactly; for `Cmp` and
    /// `AllFilter` the outcome is one of the two the user function can pick.
    pub open spec fn pushed(self, post: Self, value: Event<SIZE>) -> bool {
        &&& post.wf()
        &&& post.same_policy(self)
        &&& (self matches Slot::All(_) ==> post.buf() == apply_all(self.buf(), value))
        &&& (self matches Slot::Last(_) ==> post.buf() == apply_last(self.buf(), value))
        &&& (self matches Slot::First(_) ==> post.buf() == apply_first(self.buf(), value))
        &&& (self matches Slot::Cmp { .. } ==> post.buf() == seq![value] || (self.buf().len() > 0
            && post.buf() == self.buf()))
        &&& (self matches Slot::AllFilter { .. } ==> post.buf() == apply_all(self.buf(), value)
            || post.buf() == self.buf())
        &&& (self matches Slot::Max { max, .. } ==> post.buf() == apply_max(
            self.buf(),
            value,
            max as nat,
        ))
    }

    /// Applies the policy's push rule to one published value.
    ///
    /// For `Cmp` the buffer either keeps its value or holds exactly the new
    /// one, and for `AllFilter` the value is either appended or discarded:
    /// which of the two happens is the user function's decision.
    pub fn push(&mut self, value: Event<SIZE>)
        requires
            old(self).wf(),
        ensures
            old(self).pushed(*final(self), value),
    {
        let ghost pre = *self;
        match self {
            Slot::All(queue) => {
                queue.push_back(value);
            },
            Slot::Last(queue) => {
                let _ = queue.pop_back();
                queue.push_back(value);
                assert(queue@ =~= seq![value]);
            },
            Slot::First(queue) => {
                if queue.len() == 0 {
                    queue.push_front(value);
                }
            },
            Slot::Cmp { inner, cmp } => {
                match inner.pop_front() {
                    Some(current) => {
                        if cmp.call(&current, &value) {
                            inner.push_front(value);
                            assert(inner@ =~= seq![value]);
                        } else {
                            inner.push_front(current);
                            assert(inner@ =~= pre.buf());
                        }
                    },
                    None => {
                        inner.push_front(value);
                        assert(inner@ =~= seq![value]);
                    },
                }
            },
            Slot::AllFilter { inner, filter } => {
                if filter.call(&value) {
                    inner.push_back(value);
                }
            },
            Slot::Max { inner, max } => {
                inner.push_back(value);
                if inner.len() > *max {
                    let _ = inner.pop_front();
                }
            },
        }
    }

    /// Detaches the buffer: hands back everything currently stored, oldest
    /// first, and leaves the policy holding an empty buffer.
    pub fn events(&mut self) -> (r: VecDeque<Event<SIZE>>)
        requires
            old(self).wf(),
        ensures
            final(self).wf(),
            final(self).same_policy(*old(self)),
            final(self).buf() == Seq::<Event<SIZE>>::empty(),
            r@ == old(self).buf(),
    {
        let mut out: VecDeque<Event<SIZE>> = VecDeque::new();
        match self {
            Slot::All(queue) => core::mem::swap(&mut out, queue),
            Slot::Last(queue) => core::mem::swap(&mut out, queue),
            Slot::First(queue) => core::mem::swap(&mut out, queue),
            Slot::Cmp { inner, .. } => core::mem::swap(&mut out, inner),
            Slot::AllFilter { inner, .. } => core::mem::swap(&mut out, inner),
            Slot::Max { inner, .. } => core::mem::swap(&mut out, inner),
        }
        out
    }

    /// Detaches the buffer, exactly as [`Slot::events`] does: the stored
    /// values move into the returned queue and the policy keeps none.
    pub fn events_clone(&mut self) -> (r: VecDeque<Event<SIZE>>)
        requires
            old(self).wf(),
        ensures
            final(self).wf(),
            final(self).same_policy(*old(self)),
            final(self).buf() == Seq::<Event<SIZE>>::empty(),
            r@ == old(self).buf(),
    {
        self.events()
    }

    /// Discards every stored value, releasing the buffer's memory.
    pub fn cleanup(&mut self)
        requires
            old(self).wf(),
        ensures
            final(self).wf(),
            final(self).same_policy(*old(self)),
            final(self).buf() == Seq::<Event<SIZE>>::empty(),
    {
        let _ = self.events();
    }
}

/// The buffer that a run of pushes on an initially empty buffer leaves under
/// the `Last` policy.
pub open spec fn run_last<A>(pushes: Seq<A>) -> Seq<A>
    decreases pushes.len(),
{
    if pushes.len() == 0 {
        Seq::empty()
    } else {
        apply_last(run_last(pushes.drop_last()), pushes.last())
    }
}

/// The buffer that a run of pushes on an initially empty buffer leaves under
/// the `First` policy.
pub open spec fn run_first<A>(pushes: Seq<A>) -> Seq<A>
    decreases pushes.len(),
{
    if pushes.len() == 0 {
        Seq::empty()
    } else {
        apply_first(run_first(pushes.drop_last()), pushes.last())
    }
}

/// The buffer that a run of pushes on an initially empty buffer leaves under
/// the `Max` policy with bound `max`.
pub open spec fn run_max<A>(pushes: Seq<A>, max: nat) -> Seq<A>
    decreases pushes.len(),
{
    if pushes.len() == 0 {
        Seq::empty()
    } else {
        apply_max(run_max(pushes.drop_last(), max), pushes.last(), max)
    }
}

/// Law: under the `Last` policy, after any non-empty run of pushes exactly
/// one value remains, and it is the most recently pushed one.
pub proof fn lemma_last_policy<A>(pushes: Seq<A>)
    requires
        pushes.len() > 0,
    ensures
        run_last(pushes) == seq![pushes.last()],
{
}

/// Law: under the `First` policy, after any non-empty run of pushes exactly
/// one value remains, and it is the first pushed one.
pub proof fn lemma_first_policy<A>(pushes: Seq<A>)
    requires
        pushes.len() > 0,
    ensures
        run_first(pushes) == seq![pushes[0]],
    decreases pushes.len(),
{
    if pushes.len() == 1 {
        assert(run_first(pushes.drop_last()) == Seq::<A>::empty());
        assert(run_first(pushes) == seq![pushes.last()]);
    } else {
        lemma_first_policy(pushes.drop_last());
        assert(pushes.drop_last()[0] == pushes[0]);
    }
}

/// Law: under the `Max` policy with bound `max`, a run of pushes leaves
/// exactly the most recent `max` pushed values in original order; a run of
/// at most `max` pushes is kept whole.
pub proof fn lemma_max_policy<A>(pushes: Seq<A>, max: nat)
    ensures
        pushes.len() <= max ==> run_max(pushes, max) == pushes,
        pushes.len() > max ==> run_max(pushes, max) == pushes.skip(pushes.len() - max),
    decreases pushes.len(),
{
    if pushes.len() > 0 {
        let head = pushes.drop_last();
        lemma_max_policy(head, max);
        if pushes.len() <= max {
            assert(run_max(pushes, max) =~= pushes);
        } else if pushes.len() == max + 1 {
            assert(run_max(pushes, max) =~= pushes.skip(pushes.len() - max));
        } else {
            assert(head.skip(head.len() - max).push(pushes.last()) =~= pushes.skip(
                pushes.len() - max - 1,
            ));
            assert(run_max(pushes, max) =~= pushes.skip(pushes.len() - max));
        }
    }
}

} // verus!
