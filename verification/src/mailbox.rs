//! Single-slot, latest-wins handoff between one consumer and any number of
//! producers.
//!
//! `notify` deposits a value, overwriting whatever has not been consumed
//! yet; `take` removes and returns the deposited value, clearing the slot.
//! The depth is exactly one, so rapid deposits coalesce: of several values
//! deposited before the next `take`, only the most recent is ever observed.
//! In the running system the consumer parks until the slot is occupied; that
//! waiting is the runtime's business, while the state transition itself is
//! captured here.

use vstd::prelude::*;

verus! {

/// What the slot holds after a deposit of `v`: always `v`, whatever was
/// there before.
pub open spec fn notified<T>(slot: Option<T>, v: T) -> Option<T> {
    Some(v)
}

/// What a consume step yields and leaves behind: the held value (if any)
/// comes out and the slot is cleared.
pub open spec fn taken<T>(slot: Option<T>) -> (Option<T>, Option<T>) {
    (slot, None::<T>)
}

/// A mailbox holding at most one undelivered value.
pub struct Mailbox<T> {
    slot: Option<T>,
}

impl<T> Mailbox<T> {
    /// The undelivered value, if one is present.
    pub closed spec fn slot(&self) -> Option<T> {
        self.slot
    }

    /// An empty mailbox.
    pub fn new() -> (m: Self)
        ensures
            m.slot() is None,
    {
        Self { slot: None }
    }

    /// A mailbox that already holds `v`, as if notified once.
    pub fn new_preoccupied(v: T) -> (m: Self)
        ensures
            m.slot() == Some(v),
    {
        Self { slot: Some(v) }
    }

    /// Deposit `v`, overwriting any value not yet consumed.
    pub fn notify(&mut self, v: T)
        ensures
            final(self).slot() == notified(old(self).slot(), v),
    {
        self.slot = Some(v);
    }

    /// Remove and return the deposited value, clearing the slot. A consumer
    /// that must block simply retries once the producer has run again.
    pub fn take(&mut self) -> (r: Option<T>)
        ensures
            r == taken(old(self).slot()).0,
            final(self).slot() == taken(old(self).slot()).1,
    {
        self.slot.take()
    }
}

/// Latest-wins coalescing: when two values are deposited before any consume
/// step, the consumer observes only the later one, and the earlier value is
/// never observable afterwards — the slot is empty once the later value has
/// been taken.
pub proof fn lemma_latest_wins<T>(slot: Option<T>, a: T, b: T)
    ensures
        taken(notified(notified(slot, a), b)).0 == Some(b),
        a != b ==> taken(notified(notified(slot, a), b)).0 != Some(a),
        taken(notified(notified(slot, a), b)).1 is None,
{
}

/// The slot after a whole run of deposits, applied left to right.
pub open spec fn notified_all<T>(slot: Option<T>, vs: Seq<T>) -> Option<T>
    decreases vs.len(),
{
    if vs.len() == 0 {
        slot
    } else {
        notified_all(notified(slot, vs[0]), vs.drop_first())
    }
}

/// The value a consume step observes is always the most recent deposit
/// that preceded it: after any non-empty run of deposits, the consumer
/// gets exactly the last one.
pub proof fn lemma_most_recent_deposit_wins<T>(slot: Option<T>, vs: Seq<T>)
    requires
        vs.len() > 0,
    ensures
        taken(notified_all(slot, vs)).0 == Some(vs.last()),
    decreases vs.len(),
{
    if vs.len() == 1 {
        assert(notified_all(slot, vs) == notified_all(notified(slot, vs[0]), vs.drop_first()));
    } else {
        lemma_most_recent_deposit_wins(notified(slot, vs[0]), vs.drop_first());
        assert(vs.drop_first().last() == vs.last());
    }
}

} // verus!
