//! Single-slot mailbox between the packet producer and the pulse consumer.
use vstd::prelude::*;

verus! {

/// A one-element mailbox: the producer writes only into an empty slot, the
/// consumer takes and clears it in one step.
pub struct HandoffSlot<T> {
    pending: Option<T>,
}

impl<T> View for HandoffSlot<T> {
    type V = Option<T>;

    closed spec fn view(&self) -> Option<T> {
        self.pending
    }
}

/// One operation on a handoff slot.
pub enum SlotOp<T> {
    /// `try_put` of a value.
    Put(T),
    /// `take`.
    Take,
}

/// Slot contents and result after `try_put(value)` on `slot`.
pub open spec fn put_outcome<T>(slot: Option<T>, value: T) -> (Option<T>, bool) {
    if slot is None { (Some(value), true) } else { (slot, false) }
}

/// Slot contents after one operation.
pub open spec fn step<T>(slot: Option<T>, op: SlotOp<T>) -> Option<T> {
    match op {
        SlotOp::Put(v) => put_outcome(slot, v).0,
        SlotOp::Take => None,
    }
}

/// Slot contents after the operations `ops`, starting from `slot`.
pub open spec fn run<T>(slot: Option<T>, ops: Seq<SlotOp<T>>) -> Option<T>
    decreases ops.len(),
{
    if ops.len() == 0 { slot } else { step(run(slot, ops.drop_last()), ops.last()) }
}

/// The values whose `try_put` succeeded, in order.
pub open spec fn accepted<T>(slot: Option<T>, ops: Seq<SlotOp<T>>) -> Seq<T>
    decreases ops.len(),
{
    if ops.len() == 0 {
        Seq::empty()
    } else {
        let before = run(slot, ops.drop_last());
        let last = ops.last();
        accepted(slot, ops.drop_last()) + match last {
            SlotOp::Put(v) => if before is None { seq![v] } else { Seq::empty() },
            SlotOp::Take => Seq::empty(),
        }
    }
}

/// The values that `take` returned, in order.
pub open spec fn delivered<T>(slot: Option<T>, ops: Seq<SlotOp<T>>) -> Seq<T>
    decreases ops.len(),
{
    if ops.len() == 0 {
        Seq::empty()
    } else {
        let before = run(slot, ops.drop_last());
        let last = ops.last();
        delivered(slot, ops.drop_last()) + match (last, before) {
            (SlotOp::Take, Some(v)) => seq![v],
            _ => Seq::empty(),
        }
    }
}

/// The pending value as a sequence of zero or one elements.
pub open spec fn pending_seq<T>(slot: Option<T>) -> Seq<T> {
    match slot {
        Some(v) => seq![v],
        None => Seq::empty(),
    }
}

impl<T> HandoffSlot<T> {
    /// An empty slot.
    pub fn new() -> (r: Self)
        ensures
            r@ is None,
    {
        HandoffSlot { pending: None }
    }

    /// Whether no write is pending.
    pub fn is_empty(&self) -> (r: bool)
        ensures
            r == (self@ is None),
    {
        self.pending.is_none()
    }

    /// Stores `value` if the slot is empty and reports whether it did;
    /// an occupied slot is left as it was.
    pub fn try_put(&mut self, value: T) -> (r: bool)
        ensures
            (final(self)@, r) == put_outcome(old(self)@, value),
    {
        if self.pending.is_none() {
            self.pending = Some(value);
            true
        } else {
            false
        }
    }

    /// Removes and returns the pending value, leaving the slot empty.
    pub fn take(&mut self) -> (r: Option<T>)
        ensures
            r == old(self)@,
            final(self)@ is None,
    {
        self.pending.take()
    }
}

/// A write into an occupied slot changes nothing, so the slot never holds
/// two pending writes: after a successful `try_put`, a second `try_put`
/// fails and leaves the first value in place.
pub proof fn lemma_occupied_put_is_noop<T>(slot: Option<T>, first: T, second: T)
    requires
        slot is None,
    ensures
        put_outcome(slot, first) == (Some(first), true),
        put_outcome(put_outcome(slot, first).0, second) == (Some(first), false),
{
}

/// Over any run of operations from an empty slot, every value taken was put,
/// in the same order, and each value put is taken exactly once: the values
/// accepted are those delivered followed by the one still pending.
pub proof fn lemma_handoff_exactly_once<T>(ops: Seq<SlotOp<T>>)
    ensures
        accepted(None, ops) == delivered(None, ops) + pending_seq(run(None, ops)),
    decreases ops.len(),
{
    if ops.len() > 0 {
        let rest = ops.drop_last();
        lemma_handoff_exactly_once::<T>(rest);
        let before = run(None, rest);
        match ops.last() {
            SlotOp::Put(v) => {
                if before is None {
                    assert(accepted(None, ops) =~= delivered(None, ops) + pending_seq(run(None, ops)));
                } else {
                    assert(accepted(None, ops) =~= delivered(None, ops) + pending_seq(run(None, ops)));
                }
            },
            SlotOp::Take => {
                assert(accepted(None, ops) =~= delivered(None, ops) + pending_seq(run(None, ops)));
            },
        }
    } else {
        assert(accepted(None, ops) =~= delivered(None, ops) + pending_seq(run(None, ops)));
    }
}

} // verus!
