use vstd::prelude::*;
use std::collections::VecDeque;
use std::sync::Arc;
use std::sync::Condvar;
use std::sync::Mutex;
use crate::state::Inner;
use crate::state::RecvStep;

verus! {

#[verifier::external_type_specification]
#[verifier::external_body]
#[verifier::reject_recursive_types(T)]
pub struct ExMutex<T: ?Sized>(Mutex<T>);

#[verifier::external_type_specification]
#[verifier::external_body]
pub struct ExCondvar(Condvar);

/// One channel's shared block: the lock-guarded state and the signal the
/// receiver waits on. Every sender handle and the receiver alias one value
/// of this type through shared ownership; it lives until the last of them is
/// dropped.
#[verifier::reject_recursive_types(T)]
pub struct Shared<T> {
    inner: Mutex<Inner<T>>,
    available: Condvar,
}

/// Relies on `std::sync::Mutex::new`: wraps the initial state in a lock.
#[verifier::external_body]
fn new_mutex<T>(inner: Inner<T>) -> Mutex<Inner<T>> {
    Mutex::new(inner)
}

/// Relies on `std::sync::Condvar::new`: a fresh signal with no waiter.
#[verifier::external_body]
fn new_condvar() -> Condvar {
    Condvar::new()
}

/// Relies on `std::sync::Arc::clone`: a new owning handle onto the same
/// allocation, equal to the one cloned.
#[verifier::external_body]
pub(crate) fn clone_arc<T>(arc: &Arc<T>) -> (r: Arc<T>)
    ensures
        r == *arc,
{
    Arc::clone(arc)
}

/// The shared block of a new channel.
pub(crate) fn new_shared<T>(inner: Inner<T>) -> Shared<T> {
    Shared { inner: new_mutex(inner), available: new_condvar() }
}

/// Relies on `std::sync::Mutex::lock` (a poisoned lock is a fatal fault and
/// propagates): runs the verified `Inner::enqueue` in one critical section,
/// appending `t` at the back of the shared queue.
#[verifier::external_body]
pub(crate) fn locked_enqueue<T>(s: &Shared<T>, t: T) {
    let mut guard = s.inner.lock().unwrap();
    guard.enqueue(t);
}

/// Relies on `std::sync::Mutex::lock` (poison is fatal and propagates): runs
/// the verified `Inner::add_sender` in one critical section, so a cloned
/// handle is counted before it exists.
#[verifier::external_body]
pub(crate) fn locked_add_sender<T>(s: &Shared<T>) {
    let mut guard = s.inner.lock().unwrap();
    guard.add_sender();
}

/// Relies on `std::sync::Mutex::lock`: runs the verified
/// `Inner::remove_sender` in one critical section; the result says whether
/// the dropped handle was the last, that is, whether this call closed the
/// channel. Declared free of unwinding for the destructor's sake: the lock
/// is poisoned only by a panic inside another critical section, and every
/// critical section of this channel runs verified, panic-free code.
#[verifier::external_body]
pub(crate) fn locked_remove_sender<T>(s: &Shared<T>) -> bool
    opens_invariants none
    no_unwind
{
    let mut guard = s.inner.lock().unwrap();
    guard.remove_sender()
}

/// Relies on `std::sync::Condvar::notify_one`, which never panics: wakes the
/// receiver if it is parked on this channel's signal.
#[verifier::external_body]
pub(crate) fn signal_one<T>(s: &Shared<T>)
    opens_invariants none
    no_unwind
{
    s.available.notify_one();
}

/// Relies on `std::sync::Mutex::lock` and `std::sync::Condvar::wait`: takes
/// receive steps through the verified `Inner::take_step` until one yields a
/// backlog or reports closure, parking on the signal while a step reports
/// `Pending`. The wait releases the lock and re-acquires it atomically on
/// wake, and each decision is retaken under the lock after waking, so a
/// wakeup cannot slip between check and wait, and spurious wakeups are
/// harmless. Returns `None` exactly when a step reported closure; a returned
/// backlog is whatever one step found queued, and `Inner::take_step` yields
/// `Ready` only for a non-empty queue, whatever the state found.
#[verifier::external_body]
pub(crate) fn locked_recv_batch<T>(s: &Shared<T>) -> (batch: Option<VecDeque<T>>)
    ensures
        batch matches Some(q) ==> q@.len() > 0,
{
    let mut guard = s.inner.lock().unwrap();
    loop {
        match guard.take_step() {
            RecvStep::Ready(q) => return Some(q),
            RecvStep::Closed => return None,
            RecvStep::Pending => {
                guard = s.available.wait(guard).unwrap();
            }
        }
    }
}

} // verus!
