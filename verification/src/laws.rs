//! The channel's guarantees, proved over the model of
//! [`crate::state`]: first-in-first-out delivery, exhaustion exactly
//! when no producer remains and nothing is pending, conservation of
//! sent values, producer-count accounting, and the wakeup conditions.
//!
//! [`ChannelModel`] pairs the shared state with the receiver's private
//! buffer — the whole consumer-visible state of one channel. Each law is
//! a public proof function whose statement is over the same transitions
//! that the executable code's contracts are written with.

use crate::state::ChanState;
use vstd::prelude::*;

verus! {

/// The consumer-facing model of a whole channel: the shared section and
/// the receiver's private buffer. Values are delivered buffer first,
/// then queue, each in order.
#[verifier::ext_equal]
pub struct ChannelModel<T> {
    pub shared: ChanState<T>,
    pub buffer: Seq<T>,
}

impl<T> ChannelModel<T> {
    /// Every undelivered value, in delivery order.
    pub open spec fn pending(self) -> Seq<T> {
        self.buffer + self.shared.queue
    }

    /// A receive completes at once, without blocking.
    pub open spec fn ready(self) -> bool {
        self.buffer.len() > 0 || !self.shared.must_wait()
    }

    /// The terminal state: nothing pending, and no producer to ever
    /// change that.
    pub open spec fn exhausted(self) -> bool {
        self.pending().len() == 0 && self.shared.senders == 0
    }

    /// One `send`: the value goes to the tail of the shared queue.
    pub open spec fn step_send(self, value: T) -> ChannelModel<T> {
        ChannelModel { shared: self.shared.after_send(value), buffer: self.buffer }
    }

    /// One completed `recv`: the new model and the delivered value,
    /// `None` meaning exhausted. Meaningful on `ready` states — on any
    /// other the call blocks instead of completing.
    pub open spec fn step_recv(self) -> (ChannelModel<T>, Option<T>) {
        if self.buffer.len() > 0 {
            (
                ChannelModel { shared: self.shared, buffer: self.buffer.drop_first() },
                Some(self.buffer[0]),
            )
        } else {
            let (c, batch, item) = self.shared.after_take();
            (ChannelModel { shared: c, buffer: batch }, item)
        }
    }

    /// The model after the values of `vs` are sent, first to last.
    pub open spec fn send_seq(self, vs: Seq<T>) -> ChannelModel<T>
        decreases vs.len(),
    {
        if vs.len() == 0 {
            self
        } else {
            self.step_send(vs[0]).send_seq(vs.drop_first())
        }
    }

    /// What `n` successive `recv` calls deliver, the receiver stopping
    /// for good at the first `None`.
    pub open spec fn drained(self, n: nat) -> Seq<T>
        decreases n,
    {
        if n == 0 {
            Seq::empty()
        } else {
            let (m, r) = self.step_recv();
            match r {
                Some(t) => seq![t] + m.drained((n - 1) as nat),
                None => Seq::empty(),
            }
        }
    }

    /// The model after `n` successive `recv` calls.
    pub open spec fn after_recvs(self, n: nat) -> ChannelModel<T>
        decreases n,
    {
        if n == 0 {
            self
        } else {
            self.step_recv().0.after_recvs((n - 1) as nat)
        }
    }
}

/// One receive is first-in-first-out: whenever something is pending, a
/// receive delivers exactly the oldest pending value, leaves the rest
/// pending in the same order, and touches no producer count.
pub proof fn lemma_recv_fifo_step<T>(m: ChannelModel<T>)
    requires
        m.pending().len() > 0,
    ensures
        m.ready(),
        m.step_recv().1 == Some(m.pending()[0]),
        m.step_recv().0.pending() == m.pending().drop_first(),
        m.step_recv().0.shared.senders == m.shared.senders,
{
    if m.buffer.len() > 0 {
        assert(m.step_recv().0.pending() =~= m.pending().drop_first());
    } else {
        assert(m.pending() =~= m.shared.queue);
        assert(m.step_recv().0.pending() =~= m.pending().drop_first());
    }
}

/// Sending queues and reorders nothing: after the values of `vs` go
/// out, first to last, exactly they are pending behind what already
/// was, in their send order, and the producer count and the receiver's
/// buffer stand as before.
pub proof fn lemma_send_seq_pending<T>(m: ChannelModel<T>, vs: Seq<T>)
    ensures
        m.send_seq(vs).pending() == m.pending() + vs,
        m.send_seq(vs).shared.senders == m.shared.senders,
        m.send_seq(vs).buffer == m.buffer,
    decreases vs.len(),
{
    if vs.len() == 0 {
        assert(m.send_seq(vs).pending() =~= m.pending() + vs);
    } else {
        lemma_send_seq_pending(m.step_send(vs[0]), vs.drop_first());
        assert(m.step_send(vs[0]).pending() =~= m.pending() + seq![vs[0]]);
        assert((m.pending() + seq![vs[0]]) + vs.drop_first() =~= m.pending() + vs);
    }
}

/// Receives drain in order: as long as no more is taken than is
/// pending, `n` receives deliver precisely the `n` oldest pending
/// values, oldest first.
pub proof fn lemma_drained_prefix<T>(m: ChannelModel<T>, n: nat)
    requires
        n <= m.pending().len(),
    ensures
        m.drained(n) == m.pending().take(n as int),
        m.after_recvs(n).pending() == m.pending().skip(n as int),
        m.after_recvs(n).shared.senders == m.shared.senders,
    decreases n,
{
    if n == 0 {
        assert(m.drained(0) =~= m.pending().take(0));
        assert(m.after_recvs(0).pending() =~= m.pending().skip(0));
    } else {
        lemma_recv_fifo_step(m);
        let (m2, r) = m.step_recv();
        lemma_drained_prefix(m2, (n - 1) as nat);
        assert(seq![m.pending()[0]] + m2.pending().take(n - 1) =~= m.pending().take(n as int));
        assert(m2.pending().skip(n - 1) =~= m.pending().skip(n as int));
    }
}

/// First-in-first-out delivery: from a channel with nothing pending,
/// send `vs` first to last (serialised, before any receive), and
/// `vs.len()` receives deliver exactly `vs`, in that order.
pub proof fn lemma_fifo_order<T>(m: ChannelModel<T>, vs: Seq<T>)
    requires
        m.pending().len() == 0,
    ensures
        m.send_seq(vs).drained(vs.len()) == vs,
{
    lemma_send_seq_pending(m, vs);
    lemma_drained_prefix(m.send_seq(vs), vs.len());
    assert(m.send_seq(vs).pending().take(vs.len() as int) =~= vs);
}

/// Nothing is lost and nothing duplicated: every value sent is
/// delivered exactly once. Concurrent producers enqueue in the order
/// they take the lock; `vs` is that order, and whichever it is, the
/// values delivered are exactly the values sent.
pub proof fn lemma_conservation<T>(m: ChannelModel<T>, vs: Seq<T>)
    requires
        m.pending().len() == 0,
    ensures
        m.send_seq(vs).drained(vs.len()).to_multiset() == vs.to_multiset(),
{
    lemma_fifo_order(m, vs);
}

/// An exhausted channel answers at once and stays exhausted: with
/// nothing pending and no live sender, a receive does not block,
/// delivers nothing, changes nothing — and so every later receive
/// answers the same way.
pub proof fn lemma_exhausted_recv<T>(m: ChannelModel<T>)
    requires
        m.exhausted(),
    ensures
        m.ready(),
        m.step_recv() == (m, Option::<T>::None),
        forall|n: nat| #[trigger] m.drained(n) == Seq::<T>::empty(),
        forall|n: nat| (#[trigger] m.after_recvs(n)).exhausted(),
{
    assert(m.buffer.len() == 0);
    assert(m.shared.queue.len() == 0);
    assert(m.step_recv().0 =~= m);
    assert forall|n: nat| #[trigger] m.drained(n) == Seq::<T>::empty() by {
        if n > 0 {
            assert(m.step_recv().1 is None);
        }
    }
    assert forall|n: nat| (#[trigger] m.after_recvs(n)).exhausted() by {
        lemma_exhausted_stays(m, n);
    }
}

/// Helper induction for [`lemma_exhausted_recv`]: an exhausted model is
/// a fixed point of the receive step.
proof fn lemma_exhausted_stays<T>(m: ChannelModel<T>, n: nat)
    requires
        m.exhausted(),
    ensures
        m.after_recvs(n) == m,
    decreases n,
{
    if n > 0 {
        assert(m.step_recv().0 =~= m);
        lemma_exhausted_stays(m, (n - 1) as nat);
    }
}

/// No false exhaustion: while any sender handle is live, a completed
/// receive always carries a value — `None` can only ever be seen after
/// the producer count has fallen to zero.
pub proof fn lemma_no_exhaustion_while_senders<T>(m: ChannelModel<T>)
    requires
        m.shared.senders > 0,
        m.ready(),
    ensures
        m.step_recv().1 is Some,
{
}

/// Producer-count accounting: cloning a live handle and then destroying
/// either of the two leaves the count as it was, and the destruction is
/// not taken for the last — the channel cannot report exhaustion while
/// the other handle lives.
pub proof fn lemma_clone_then_drop<T>(c: ChanState<T>)
    requires
        1 <= c.senders < usize::MAX as nat,
    ensures
        c.after_clone().after_drop() == (c, false),
{
    assert(c.after_clone().after_drop().0 =~= c);
}

/// Wakeup after a send: once a value is enqueued, the consumer's wait
/// condition no longer holds, so the woken consumer completes its
/// receive instead of parking again.
pub proof fn lemma_send_wakes<T>(c: ChanState<T>, value: T)
    ensures
        !c.after_send(value).must_wait(),
{
}

/// Wakeup after the last drop: exactly when a handle's destruction was
/// the last, the wait condition no longer holds, so the woken consumer
/// observes exhaustion instead of parking forever.
pub proof fn lemma_last_drop_wakes<T>(c: ChanState<T>)
    requires
        c.after_drop().1,
    ensures
        !c.after_drop().0.must_wait(),
{
}

/// Exhaustion is reached once the queue drains: with the producer count
/// at zero, the pending values are delivered in order, and from then on
/// the channel is exhausted.
pub proof fn lemma_drain_to_exhaustion<T>(m: ChannelModel<T>)
    requires
        m.shared.senders == 0,
    ensures
        m.drained(m.pending().len()) == m.pending(),
        m.after_recvs(m.pending().len()).exhausted(),
{
    lemma_drained_prefix(m, m.pending().len());
    assert(m.pending().take(m.pending().len() as int) =~= m.pending());
    assert(m.after_recvs(m.pending().len()).pending() =~= Seq::<T>::empty());
}

} // verus!

