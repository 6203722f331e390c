//! An in-process, unbounded, multiple-producer single-consumer channel.
//!
//! Many `Sender` handles feed one `Receiver` through a shared, lock-guarded
//! queue. `send` never blocks; `recv` blocks while the queue is empty and a
//! sender is still alive, and reports closure, as `None`, once every sender
//! is gone and the backlog is drained. The receiver amortizes locking by
//! taking the whole shared backlog into a private buffer in one critical
//! section and serving later calls from it without the lock.
//!
//! The `state` module holds the verified transition functions that run under
//! the lock; `model` states the protocol over mathematical sequences and
//! proves its ordering and closure laws; `sync` confines the trust in the
//! standard library's lock and signal primitives.

pub mod model;
pub mod state;
mod sync;

use vstd::prelude::*;
use std::collections::VecDeque;
use std::sync::Arc;

verus! {

/// A handle that pushes values into the channel. Cloning yields another
/// handle onto the same channel; the channel closes once the last handle is
/// dropped.
#[verifier::reject_recursive_types(T)]
pub struct Sender<T> {
    shared: Arc<sync::Shared<T>>,
}

/// The single consuming handle of a channel, together with its private
/// backlog buffer.
#[verifier::reject_recursive_types(T)]
pub struct Receiver<T> {
    shared: Arc<sync::Shared<T>>,
    buffer: VecDeque<T>,
}

impl<T> View for Receiver<T> {
    type V = Seq<T>;

    /// The receiver's private backlog: values already taken out of the
    /// shared queue, oldest first. `recv` serves these before touching the
    /// lock.
    closed spec fn view(&self) -> Seq<T> {
        self.buffer@
    }
}

impl<T> Sender<T> {
    /// True when this handle pushes into the channel that `r` drains.
    pub closed spec fn feeds(&self, r: &Receiver<T>) -> bool {
        self.shared == r.shared
    }

    /// True when the two sender handles push into the same channel.
    pub closed spec fn same_channel(&self, other: &Sender<T>) -> bool {
        self.shared == other.shared
    }

    /// Appends `t` at the back of the shared queue in one critical section
    /// and signals the receiver. Never blocks and never fails, whether or
    /// not the receiver is still alive: the queue is unbounded, and a value
    /// no receiver ever takes is discarded when the channel is torn down.
    pub fn send(&mut self, t: T)
        ensures
            final(self).same_channel(old(self)),
    {
        sync::locked_enqueue(&*self.shared, t);
        sync::signal_one(&*self.shared);
    }
}

impl<T> Clone for Sender<T> {
    /// A new handle onto the same channel. The live-handle count is raised
    /// under the lock before the clone exists, so the count never lags
    /// behind the handles.
    fn clone(&self) -> (s: Self)
        ensures
            s.same_channel(self),
    {
        sync::locked_add_sender(&*self.shared);
        Sender { shared: sync::clone_arc(&self.shared) }
    }
}

impl<T> Drop for Sender<T> {
    /// Uncounts this handle under the lock; if it was the last one, signals
    /// the receiver, so a blocked `recv` wakes and observes closure instead
    /// of waiting forever.
    fn drop(&mut self)
        opens_invariants none
        no_unwind
    {
        let last = sync::locked_remove_sender(&*self.shared);
        if last {
            sync::signal_one(&*self.shared);
        }
    }
}

impl<T> Receiver<T> {
    /// True when the two receiving handles drain the same channel.
    pub closed spec fn same_channel(&self, other: &Receiver<T>) -> bool {
        self.shared == other.shared
    }

    /// Consumes a backlog freshly taken off the shared queue: returns its
    /// oldest value and keeps the rest, in order, as the private buffer.
    /// This pins down what `recv` does with every batch the lock hands
    /// back — nothing is dropped, reordered or duplicated.
    pub fn serve_batch(&mut self, q: VecDeque<T>) -> (r: Option<T>)
        requires
            q@.len() > 0,
            old(self)@.len() == 0,
        ensures
            final(self).same_channel(old(self)),
            r == Some(q@[0]),
            final(self)@ == q@.skip(1),
    {
        self.buffer = q;
        self.buffer.pop_front()
    }

    /// The next value, oldest first: from the private backlog while it
    /// lasts, else from the shared queue, taking the whole backlog found
    /// there in one critical section. When both are empty, blocks until a
    /// value arrives or the last sender is gone. `None` means the channel is
    /// closed and fully drained; a merely empty queue blocks instead.
    pub fn recv(&mut self) -> (r: Option<T>)
        ensures
            final(self).same_channel(old(self)),
            old(self)@.len() > 0 ==> r == Some(old(self)@[0]) && final(self)@ == old(self)@.skip(
                1,
            ),
            r is None ==> old(self)@.len() == 0 && final(self)@.len() == 0,
    {
        if self.buffer.len() > 0 {
            return self.buffer.pop_front();
        }
        match sync::locked_recv_batch(&*self.shared) {
            Some(q) => self.serve_batch(q),
            None => None,
        }
    }

    /// One pull of the iteration form: exactly one `recv`. `None` reports
    /// closure, and once the channel is closed every later pull reports it
    /// again: no new sender can reopen it.
    pub fn next(&mut self) -> (r: Option<T>)
        ensures
            final(self).same_channel(old(self)),
            old(self)@.len() > 0 ==> r == Some(old(self)@[0]) && final(self)@ == old(self)@.skip(
                1,
            ),
            r is None ==> old(self)@.len() == 0 && final(self)@.len() == 0,
    {
        self.recv()
    }
}

/// Builds one channel: a fresh shared block holding an empty queue and a
/// live-handle count of one, and the two handles aliasing it. The count
/// starts at one for the returned `Sender`; the receiver is not counted, so
/// dropping it signals nothing and sends keep succeeding into the queue.
pub fn channel<T>() -> (pair: (Sender<T>, Receiver<T>))
    ensures
        pair.0.feeds(&pair.1),
        pair.1@ == Seq::<T>::empty(),
{
    let shared = Arc::new(sync::new_shared(state::Inner::new()));
    (
        Sender { shared: sync::clone_arc(&shared) },
        Receiver { shared, buffer: VecDeque::new() },
    )
}

} // verus!
