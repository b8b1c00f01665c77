//! Single-slot, latest-value broadcast signal.
//!
//! The one piece of state shared between tasks: one producer publishes a
//! temperature reading, any number of consumers read it.  A publish always
//! overwrites an unconsumed prior value (a slow consumer may miss
//! intermediate readings but never blocks the producer), and a take clears
//! the pending slot, so a reading is consumed at most once per wake.  The
//! wake-all-waiters machinery belongs to the scheduler that drives the
//! tasks; this module carries the slot itself, whose write is one atomic
//! state change, so a woken reader always finds the value that woke it.

use vstd::prelude::*;

verus! {

/// What a publish leaves in the slot: the new value, whatever was there.
pub open spec fn publish_model(slot: Option<i32>, v: i32) -> Option<i32> {
    Some(v)
}

/// What a take observes and what it leaves: the pending value (if any) is
/// handed out and the slot is cleared.
pub open spec fn take_model(slot: Option<i32>) -> (Option<i32>, Option<i32>) {
    (slot, None)
}

/// The slot after a whole sequence of publishes, oldest first.
pub open spec fn after_publishes(slot: Option<i32>, writes: Seq<i32>) -> Option<i32>
    decreases writes.len(),
{
    if writes.len() == 0 {
        slot
    } else {
        publish_model(after_publishes(slot, writes.drop_last()), writes.last())
    }
}

/// The shared slot: at most one pending reading.
pub struct BroadcastSignal {
    pending: Option<i32>,
}

impl BroadcastSignal {
    /// The pending reading, if one has been published and not yet taken.
    pub closed spec fn pending(self) -> Option<i32> {
        self.pending
    }

    /// A fresh signal holds nothing.
    pub fn new() -> (s: Self)
        ensures
            s.pending() is None,
    {
        BroadcastSignal { pending: None }
    }

    /// Publish a reading, overwriting any unconsumed prior value.
    pub fn publish(&mut self, v: i32)
        ensures
            final(self).pending() == publish_model(old(self).pending(), v),
            final(self).pending() == Some(v),
    {
        self.pending = Some(v);
    }

    /// Take the pending reading, clearing the slot; `None` when nothing is
    /// pending.
    pub fn try_take(&mut self) -> (r: Option<i32>)
        ensures
            (r, final(self).pending()) == take_model(old(self).pending()),
            r == old(self).pending(),
            final(self).pending() is None,
    {
        let r = self.pending;
        self.pending = None;
        r
    }

    /// Whether a reading is pending (a consumer that finds `false` suspends
    /// until the next publish).
    pub fn is_ready(&self) -> (r: bool)
        ensures
            r == (self.pending() is Some),
    {
        self.pending.is_some()
    }
}

/// Latest-value law: after any run of publishes, a take observes exactly the
/// most recent value — never an earlier one, never an aggregate.
pub proof fn lemma_latest_value(slot: Option<i32>, writes: Seq<i32>)
    requires
        writes.len() > 0,
    ensures
        take_model(after_publishes(slot, writes)).0 == Some(writes.last()),
{
}

/// No-starvation law: a reader waiting across a publish observes that
/// publish exactly once — the first take after the write yields the written
/// value, and a further take before the next write yields nothing.
pub proof fn lemma_observed_exactly_once(slot: Option<i32>, v: i32)
    ensures
        take_model(publish_model(slot, v)).0 == Some(v),
        take_model(take_model(publish_model(slot, v)).1).0 is None,
{
}

} // verus!
