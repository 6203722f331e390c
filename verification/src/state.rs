use vstd::prelude::*;
use std::collections::VecDeque;

verus! {

/// The lock-protected section of a channel: the queue of pending values and
/// the count of live sender handles. Every read or mutation of a value of
/// this type happens inside one critical section of the lock that guards it
/// (see the `sync` module); each method below is one such atomic transition.
pub struct Inner<T> {
    /// Values sent and not yet taken by the receiver, oldest first.
    pub queue: VecDeque<T>,
    /// How many `Sender` handles are currently alive.
    pub senders: usize,
}

/// Outcome of one locked receive step on the shared state.
pub enum RecvStep<T> {
    /// The queue held values: the whole backlog, oldest first, taken out of
    /// the shared state in one step.
    Ready(VecDeque<T>),
    /// The queue is empty and no sender remains: the channel is closed, and
    /// no value will ever arrive again.
    Closed,
    /// The queue is empty but at least one sender is alive: the receiver
    /// must wait for the signal and retry.
    Pending,
}

impl<T> Inner<T> {
    /// Fresh state for a new channel: an empty queue and one live sender,
    /// the one that the constructor hands out.
    pub fn new() -> (inner: Inner<T>)
        ensures
            inner.queue@ == Seq::<T>::empty(),
            inner.senders == 1,
    {
        Inner { queue: VecDeque::new(), senders: 1 }
    }

    /// Appends one value at the back of the pending queue. The queue is
    /// unbounded, so this always succeeds and never blocks.
    pub fn enqueue(&mut self, t: T)
        ensures
            final(self).queue@ == old(self).queue@.push(t),
            final(self).senders == old(self).senders,
    {
        self.queue.push_back(t);
    }

    /// Counts one more live sender handle, for a clone of an existing one.
    /// The count sticks at `usize::MAX` instead of overflowing: that many
    /// live handles cannot fit in one address space, but the type system
    /// does not know it, and a verified function must not panic.
    pub fn add_sender(&mut self)
        ensures
            final(self).queue@ == old(self).queue@,
            old(self).senders < usize::MAX ==> final(self).senders == old(self).senders + 1,
            old(self).senders == usize::MAX ==> final(self).senders == usize::MAX,
    {
        if self.senders < usize::MAX {
            self.senders = self.senders + 1;
        }
    }

    /// Counts one sender handle gone. Returns true exactly when it was the
    /// last one, that is, when this call closed the channel; the caller then
    /// signals the receiver. The count stops at zero: a drop below zero has
    /// no live handle to come from.
    pub fn remove_sender(&mut self) -> (last: bool)
        ensures
            final(self).queue@ == old(self).queue@,
            old(self).senders > 0 ==> final(self).senders == old(self).senders - 1,
            old(self).senders == 0 ==> final(self).senders == 0,
            last <==> old(self).senders == 1,
    {
        if self.senders > 0 {
            self.senders = self.senders - 1;
            self.senders == 0
        } else {
            false
        }
    }

    /// One receive step, taken under the lock: when anything is queued, the
    /// whole backlog leaves the shared state in one step (the receiver then
    /// serves it from its private buffer without the lock); otherwise the
    /// step reports closure or the need to wait, and changes nothing.
    pub fn take_step(&mut self) -> (step: RecvStep<T>)
        ensures
            old(self).queue@.len() > 0 ==> (step matches RecvStep::Ready(batch)
                && batch@ == old(self).queue@
                && final(self).queue@ == Seq::<T>::empty()),
            old(self).queue@.len() == 0 && old(self).senders == 0 ==> (step matches
                RecvStep::Closed),
            old(self).queue@.len() == 0 && old(self).senders > 0 ==> (step matches
                RecvStep::Pending),
            old(self).queue@.len() == 0 ==> final(self).queue@ == old(self).queue@,
            final(self).senders == old(self).senders,
    {
        if self.queue.len() > 0 {
            let mut batch: VecDeque<T> = VecDeque::new();
            core::mem::swap(&mut batch, &mut self.queue);
            RecvStep::Ready(batch)
        } else if self.senders == 0 {
            RecvStep::Closed
        } else {
            RecvStep::Pending
        }
    }
}

} // verus!
