//! The lock-protected section of a channel and its mathematical model.
//!
//! Every mutation the channel performs under its lock is a verified
//! function of this module, and each one's contract is stated as a pure
//! transition on [`ChanState`], the model that the laws in [`crate::laws`]
//! are proved over.

use std::collections::VecDeque;
use vstd::prelude::*;

verus! {

/// Mathematical state of a channel's shared section: the undelivered
/// values in arrival order, and the number of live sender handles.
#[verifier::ext_equal]
pub struct ChanState<T> {
    pub queue: Seq<T>,
    pub senders: nat,
}

impl<T> ChanState<T> {
    /// State after a value is appended at the tail of the queue.
    pub open spec fn after_send(self, value: T) -> ChanState<T> {
        ChanState { queue: self.queue.push(value), senders: self.senders }
    }

    /// State after one more sender handle comes to exist. The count
    /// saturates at the machine limit instead of overflowing.
    pub open spec fn after_clone(self) -> ChanState<T> {
        if self.senders < usize::MAX as nat {
            ChanState { queue: self.queue, senders: self.senders + 1 }
        } else {
            self
        }
    }

    /// State after a sender handle goes away, paired with whether that
    /// handle was the last one. A decrement of an already-zero count is
    /// ignored; through the public handles it cannot occur, since every
    /// live handle accounts for one in the count.
    pub open spec fn after_drop(self) -> (ChanState<T>, bool) {
        if self.senders > 0 {
            (ChanState { queue: self.queue, senders: (self.senders - 1) as nat }, self.senders == 1)
        } else {
            (self, false)
        }
    }

    /// The consumer has to block: nothing is queued, yet a live sender
    /// may still deliver.
    pub open spec fn must_wait(self) -> bool {
        self.queue.len() == 0 && self.senders > 0
    }

    /// One consumer pass over a state where blocking is not called for:
    /// the new shared state, the batch moved out to the consumer's
    /// private buffer, and the delivered value (`None` means exhausted).
    pub open spec fn after_take(self) -> (ChanState<T>, Seq<T>, Option<T>) {
        if self.queue.len() > 0 {
            (
                ChanState { queue: Seq::empty(), senders: self.senders },
                self.queue.drop_first(),
                Some(self.queue[0]),
            )
        } else {
            (self, Seq::empty(), None)
        }
    }
}

/// The value a channel keeps under its lock: the queue of undelivered
/// values and the count of live sender handles.
pub struct Inner<T> {
    queue: VecDeque<T>,
    senders: usize,
}

impl<T> View for Inner<T> {
    type V = ChanState<T>;

    closed spec fn view(&self) -> ChanState<T> {
        ChanState { queue: self.queue@, senders: self.senders as nat }
    }
}

impl<T> Inner<T> {
    /// A fresh shared section: an empty queue and one sender handle.
    pub fn new() -> (s: Inner<T>)
        ensures
            s@ == (ChanState { queue: Seq::<T>::empty(), senders: 1 as nat }),
    {
        Inner { queue: VecDeque::new(), senders: 1 }
    }

    /// Appends a value at the tail of the queue.
    pub fn enqueue(&mut self, value: T)
        ensures
            final(self)@ == old(self)@.after_send(value),
    {
        self.queue.push_back(value);
    }

    /// Records one more live sender handle.
    pub fn note_clone(&mut self)
        ensures
            final(self)@ == old(self)@.after_clone(),
    {
        if self.senders < usize::MAX {
            self.senders = self.senders + 1;
        }
    }

    /// Records that a sender handle went away; true when it was the last.
    pub fn note_drop(&mut self) -> (last: bool)
        ensures
            (final(self)@, last) == old(self)@.after_drop(),
    {
        if self.senders > 0 {
            self.senders = self.senders - 1;
            self.senders == 0
        } else {
            false
        }
    }
}

/// What one consumer pass over the shared state yields.
pub enum Received<T> {
    /// The value at the head of the queue, along with the whole rest of
    /// the queue, moved out in the same locked step so that following
    /// receives need not take the lock again.
    Item(T, VecDeque<T>),
    /// No value, and none can ever arrive.
    Exhausted,
}

/// True when the consumer has to block on this state.
pub fn must_block<T>(st: &Inner<T>) -> (b: bool)
    ensures
        b == st@.must_wait(),
{
    st.queue.len() == 0 && st.senders > 0
}

/// One consumer pass: pops the head of the queue and moves the whole
/// remainder out as one batch, or reports exhaustion when the queue is
/// empty and no sender handle remains.
pub fn take_next<T>(st: Inner<T>) -> (out: (Inner<T>, Received<T>))
    requires
        !st@.must_wait(),
    ensures
        ({
            let (c, batch, item) = st@.after_take();
            &&& out.0@ == c
            &&& match out.1 {
                Received::Item(t, b) => item == Some(t) && b@ == batch,
                Received::Exhausted => item is None && st@.senders == 0 && st@.queue.len() == 0,
            }
        }),
{
    let ghost orig = st@;
    let mut st = st;
    match st.queue.pop_front() {
        Some(t) => {
            let mut batch: VecDeque<T> = VecDeque::new();
            if st.queue.len() > 0 {
                core::mem::swap(&mut st.queue, &mut batch);
            }
            proof {
                assert(st@.queue =~= Seq::<T>::empty());
                assert(batch@ =~= orig.queue.drop_first());
            }
            (st, Received::Item(t, batch))
        },
        None => (st, Received::Exhausted),
    }
}

} // verus!
