//! The channel's handles: the cloneable [`Sender`], the single
//! [`Receiver`], and the [`channel`] constructor that binds one of each
//! to a fresh shared state.

use crate::monitor::clone_shared;
use crate::monitor::notify_consumer;
use crate::monitor::wait_then;
use crate::monitor::with_state;
use crate::monitor::Shared;
use crate::state::must_block;
use crate::state::take_next;
use crate::state::Inner;
use crate::state::Received;
use std::collections::VecDeque;
use std::sync::Arc;
use std::sync::Condvar;
use std::sync::Mutex;
use vstd::prelude::*;

verus! {

/// A producer handle. Any number may coexist (see [`Clone`]); each live
/// one accounts for one in the channel's producer count, and the count
/// falling to zero is the irreversible sign that no value can ever be
/// enqueued again.
#[verifier::reject_recursive_types(T)]
pub struct Sender<T> {
    shared: Arc<Shared<T>>,
}

/// The single consumer handle: takes values in queue order, and keeps a
/// private buffer holding a batch already moved out of the lock. Its
/// view is that buffer's content, next-to-deliver first.
#[verifier::reject_recursive_types(T)]
pub struct Receiver<T> {
    shared: Arc<Shared<T>>,
    buffer: VecDeque<T>,
}

impl<T> View for Receiver<T> {
    type V = Seq<T>;

    closed spec fn view(&self) -> Seq<T> {
        self.buffer@
    }
}

impl<T> Sender<T> {
    /// True when this handle and `other` are bound to one shared state,
    /// so that both feed one channel.
    pub closed spec fn same_channel(self, other: Sender<T>) -> bool {
        self.shared == other.shared
    }

    /// True when this handle feeds `receiver`: the state it enqueues to
    /// is the one the receiver takes from.
    pub closed spec fn sends_to(self, receiver: Receiver<T>) -> bool {
        self.shared == receiver.shared
    }
}

impl<T> Receiver<T> {
    /// True when this handle and `other` are bound to one shared state.
    pub closed spec fn same_channel(self, other: Receiver<T>) -> bool {
        self.shared == other.shared
    }
}

/// Being bound to one channel is reflexive: every handle shares its
/// channel with itself.
pub proof fn lemma_same_channel_refl<T>(s: &Sender<T>, r: &Receiver<T>)
    ensures
        s.same_channel(*s),
        r.same_channel(*r),
{
}

/// Channel bindings compose: a sender bound as `b` is, to a receiver
/// bound as `d` is, feeds it too.
pub proof fn lemma_binding_carries_over<T>(a: Sender<T>, b: Sender<T>, c: Receiver<T>, d: Receiver<T>)
    requires
        a.same_channel(b),
        c.same_channel(d),
        b.sends_to(d),
    ensures
        a.sends_to(c),
{
}

/// Creates a channel: one sender and one receiver bound to one fresh
/// shared state — what this sender enqueues, this receiver takes —
/// holding an empty queue and a producer count of one. Never fails.
pub fn channel<T>() -> (r: (Sender<T>, Receiver<T>))
    ensures
        r.0.sends_to(r.1),
        r.1@ == Seq::<T>::empty(),
{
    let shared = Arc::new(
        Shared { slot: Mutex::new(Some(Inner::new())), wakeup: Condvar::new() },
    );
    (Sender { shared: clone_shared(&shared) }, Receiver { shared, buffer: VecDeque::new() })
}

impl<T> Sender<T> {
    /// Appends `value` at the tail of the shared queue — the critical
    /// section is [`Inner::enqueue`], whose contract states the append
    /// as [`crate::state::ChanState::after_send`] — then wakes the
    /// consumer in case it is parked. Never blocks, whatever the queue
    /// holds, and never fails: a value sent after the receiver is gone
    /// is silently dropped with the queue.
    pub fn send(&mut self, value: T)
        ensures
            *final(self) == *old(self),
    {
        with_state(
            &self.shared,
            move |st: Inner<T>| -> (Inner<T>, ()) {
                let mut st = st;
                st.enqueue(value);
                (st, ())
            },
        );
        notify_consumer(&self.shared);
    }
}

impl<T> Clone for Sender<T> {
    /// A second live handle to the same channel. The critical section
    /// is [`Inner::note_clone`], which raises the producer count by one
    /// before the new handle exists, so no concurrent drop of the clone
    /// can lower the count first.
    fn clone(&self) -> (r: Sender<T>)
        ensures
            r.same_channel(*self),
    {
        with_state(
            &self.shared,
            |st: Inner<T>| -> (Inner<T>, ()) {
                let mut st = st;
                st.note_clone();
                (st, ())
            },
        );
        Sender { shared: clone_shared(&self.shared) }
    }
}

impl<T> Drop for Sender<T> {
    /// Lowers the producer count by one — the critical section is
    /// [`Inner::note_drop`] — and, exactly when this handle was the
    /// last, wakes the consumer so that it can observe exhaustion.
    fn drop(&mut self)
        opens_invariants none
        no_unwind
    {
        let last = with_state(
            &self.shared,
            |st: Inner<T>| -> (Inner<T>, bool) {
                let mut st = st;
                let l = st.note_drop();
                (st, l)
            },
        );
        if last {
            notify_consumer(&self.shared);
        }
    }
}

impl<T> Receiver<T> {
    /// One receive. Returns the buffered head without locking when the
    /// private buffer is non-empty; otherwise parks until the shared
    /// queue is non-empty or no sender remains, then either delivers
    /// the queue's head — moving the whole remainder into the private
    /// buffer in the same locked step ([`take_next`]) — or reports
    /// exhaustion with `None`. `None` comes, without blocking, exactly
    /// when the queue is empty and the producer count is zero, and once
    /// it does every later call returns `None` again at once.
    pub fn recv(&mut self) -> (r: Option<T>)
        ensures
            old(self)@.len() > 0 ==> r == Some(old(self)@[0]) && final(self)@ == old(self)@.drop_first(),
            old(self)@.len() == 0 && r is Some ==> (exists|q: Seq<T>| q.len() > 0 && r == Some(q[0]) && final(self)@ == q.drop_first()),
            r is None ==> old(self)@.len() == 0 && final(self)@.len() == 0,
            final(self).same_channel(*old(self)),
    {
        if self.buffer.len() > 0 {
            return self.buffer.pop_front();
        }
        let out = wait_then(&self.shared, must_block, take_next);
        match out {
            Received::Item(t, batch) => {
                proof {
                    let (st, st2) = choose|st: Inner<T>, st2: Inner<T>|
                        call_ensures(take_next, (st,), (st2, Received::Item(t, batch)));
                    assert(st@.queue.len() > 0 && t == st@.queue[0] && batch@ == st@.queue.drop_first());
                }
                self.buffer = batch;
                Some(t)
            },
            Received::Exhausted => None,
        }
    }

    /// One pull of the receiver taken as a lazy, finite sequence of
    /// values: the same as one [`Receiver::recv`] call. `None` ends the
    /// sequence for good — it is not restartable.
    pub fn next(&mut self) -> (r: Option<T>)
        ensures
            old(self)@.len() > 0 ==> r == Some(old(self)@[0]) && final(self)@ == old(self)@.drop_first(),
            old(self)@.len() == 0 && r is Some ==> (exists|q: Seq<T>| q.len() > 0 && r == Some(q[0]) && final(self)@ == q.drop_first()),
            r is None ==> old(self)@.len() == 0 && final(self)@.len() == 0,
            final(self).same_channel(*old(self)),
    {
        self.recv()
    }
}

} // verus!
