//! The trusted monitor: the one mutex and condition variable a channel
//! is built on, from `std::sync`, which the verifier has no model of.
//!
//! The guarded state itself is the verified [`crate::state::Inner`];
//! every critical section run on it is a verified function, handed in
//! as a closure. What is trusted here is mutual exclusion, the atomic
//! wait on the condition variable, and that the slot always hands the
//! one current state to the closure and stores the state it returns.

use crate::state::Inner;
use std::sync::Arc;
use std::sync::Condvar;
use std::sync::Mutex;
use vstd::prelude::*;

verus! {

/// std's mutual-exclusion lock, opaque to the verifier; all access to
/// the value it guards goes through the wrappers below.
#[verifier::external_type_specification]
#[verifier::external_body]
#[verifier::reject_recursive_types(T)]
pub struct ExMutex<T: ?Sized>(Mutex<T>);

/// std's condition variable, used to park the consumer while the queue
/// is empty and senders remain.
#[verifier::external_type_specification]
#[verifier::external_body]
pub struct ExCondvar(Condvar);

/// Relies on Mutex::new: wraps a value in a fresh, unlocked lock.
pub assume_specification<T>[ Mutex::<T>::new ](t: T) -> Mutex<T>;

/// Relies on Condvar::new: a fresh condition variable with no waiters.
pub assume_specification[ Condvar::new ]() -> Condvar;

/// Relies on Arc::clone: a second handle to the same allocation, so one
/// equal, as a specification value, to what the first denotes.
#[verifier::external_body]
pub(crate) fn clone_shared<T>(v: &Arc<Shared<T>>) -> (r: Arc<Shared<T>>)
    ensures
        r == *v,
    opens_invariants none
    no_unwind
{
    Arc::clone(v)
}

/// The synchronisation core shared by every handle of one channel: the
/// guarded state slot, and the signal that wakes the parked consumer.
/// The slot holds `Some` state at every instant at which it is unlocked:
/// it starts that way, and every critical section below restores it.
#[verifier::reject_recursive_types(T)]
pub struct Shared<T> {
    pub(crate) slot: Mutex<Option<Inner<T>>>,
    pub(crate) wakeup: Condvar,
}

/// Runs one critical section: locks the slot, hands the state it holds
/// to `f`, stores the state `f` returns, unlocks, and passes `f`'s other
/// result out.
///
/// Relies on Mutex::lock for mutual exclusion: `f` receives the one
/// current state, and nothing else reads or writes it before the state
/// `f` returns is stored. A poisoned lock cannot arise, since every
/// section run on the slot is verified code, which neither panics nor
/// unwinds; were one ever recovered, the slot still holds the last
/// state stored.
#[verifier::external_body]
pub(crate) fn with_state<T, R, F: FnOnce(Inner<T>) -> (Inner<T>, R)>(
    shared: &Arc<Shared<T>>,
    f: F,
) -> (r: R)
    requires
        forall|st: Inner<T>| #[trigger] call_requires(f, (st,)),
    ensures
        (exists|st: Inner<T>, st2: Inner<T>| #[trigger] call_ensures(f, (st,), (st2, r))),
    opens_invariants none
    no_unwind
{
    let mut guard = shared.slot.lock().unwrap_or_else(|e| e.into_inner());
    let (st, r) = f(guard.take().unwrap());
    *guard = Some(st);
    r
}

/// Parks the caller until `p` no longer holds of the guarded state, then
/// runs `f` on that very state as one critical section, as `with_state`
/// does.
///
/// Relies on Condvar::wait_while: the lock is held while `p` is
/// evaluated, is released atomically with parking, and is re-acquired
/// before `p` is evaluated again after every wakeup — so no wakeup is
/// lost, a spurious one only causes a re-check, and `f` runs under the
/// same lock hold as the final check of `p`.
#[verifier::external_body]
pub(crate) fn wait_then<T, R, P: Fn(&Inner<T>) -> bool, F: FnOnce(Inner<T>) -> (Inner<T>, R)>(
    shared: &Arc<Shared<T>>,
    p: P,
    f: F,
) -> (r: R)
    requires
        forall|st: &Inner<T>| #[trigger] call_requires(p, (st,)),
        forall|st: Inner<T>| #[trigger] call_ensures(p, (&st,), false) ==> call_requires(f, (st,)),
    ensures
        (exists|st: Inner<T>, st2: Inner<T>| #[trigger] call_ensures(f, (st,), (st2, r))),
{
    let guard = shared.slot.lock().unwrap_or_else(|e| e.into_inner());
    let mut guard = shared
        .wakeup
        .wait_while(guard, |o: &mut Option<Inner<T>>| p(o.as_ref().unwrap()))
        .unwrap_or_else(|e| e.into_inner());
    let (st, r) = f(guard.take().unwrap());
    *guard = Some(st);
    r
}

/// Wakes the consumer if it is parked on the channel's signal.
///
/// Relies on Condvar::notify_one: one waiter, if any, is woken; the call
/// neither panics nor blocks.
#[verifier::external_body]
pub(crate) fn notify_consumer<T>(shared: &Arc<Shared<T>>)
    opens_invariants none
    no_unwind
{
    shared.wakeup.notify_one();
}

} // verus!
