//! The inbound message queue: chat messages parsed by the per-session
//! readers wait here until the snapshot producer drains them, one per tick.
//!
//! The newest message enters at the front and the oldest leaves at the
//! back, so delivery is first-in, first-out.  The view is the sequence of
//! queued messages, newest first.  Capacity is unbounded: chat is drained
//! at one message per tick, and the producer ticks continuously, so the
//! queue stays shallow in practice.

use vstd::prelude::*;
use vstd::seq_lib::*;
use std::collections::VecDeque;

use crate::data::WsMessage;

verus! {

broadcast use vstd::std_specs::vecdeque::group_vec_dequeue_axioms;

/// An ordered queue of inbound chat messages awaiting distribution,
/// decoupled from the per-connection readers.
pub struct InboxQueue {
    messages: VecDeque<WsMessage>,
}

impl View for InboxQueue {
    type V = Seq<WsMessage>;

    closed spec fn view(&self) -> Seq<WsMessage> {
        self.messages@
    }
}

impl InboxQueue {
    /// An empty queue.
    pub fn new() -> (r: Self)
        ensures
            r@ == Seq::<WsMessage>::empty(),
    {
        InboxQueue { messages: VecDeque::new() }
    }

    /// Enqueues the newest message at the front.
    pub fn push_front(&mut self, msg: WsMessage)
        ensures
            final(self)@ == seq![msg] + old(self)@,
    {
        self.messages.push_front(msg);
    }

    /// Removes and returns the oldest queued message, from the back;
    /// `None` exactly when the queue is empty.
    pub fn pop_back(&mut self) -> (r: Option<WsMessage>)
        ensures
            match r {
                Some(msg) => old(self)@.len() > 0 && msg == old(self)@.last() && final(self)@
                    == old(self)@.drop_last(),
                None => old(self)@.len() == 0 && final(self)@ == old(self)@,
            },
    {
        let r = self.messages.pop_back();
        proof {
            if old(self)@.len() > 0 {
                assert(final(self)@ =~= old(self)@.drop_last());
            }
        }
        r
    }

    /// How many messages wait.
    pub fn len(&self) -> (n: usize)
        ensures
            n == self@.len(),
    {
        self.messages.len()
    }

    /// Whether nothing waits.
    pub fn is_empty(&self) -> (r: bool)
        ensures
            r == (self@.len() == 0),
    {
        self.messages.len() == 0
    }
}

/// The queue contents after a sequence of messages arrives in order, each
/// entering at the front exactly as `push_front` does.
pub open spec fn enqueue_all(q: Seq<WsMessage>, arrivals: Seq<WsMessage>) -> Seq<WsMessage>
    decreases arrivals.len(),
{
    if arrivals.len() == 0 {
        q
    } else {
        enqueue_all(seq![arrivals.first()] + q, arrivals.drop_first())
    }
}

/// The order in which repeated drains return a queue's contents: each drain
/// takes the back element, exactly as `pop_back` does.
pub open spec fn drain_order(q: Seq<WsMessage>) -> Seq<WsMessage>
    decreases q.len(),
{
    if q.len() == 0 {
        Seq::<WsMessage>::empty()
    } else {
        seq![q.last()] + drain_order(q.drop_last())
    }
}

/// Draining returns a queue's contents back to front.
proof fn lemma_drain_order_is_reverse(q: Seq<WsMessage>)
    ensures
        drain_order(q) == q.reverse(),
    decreases q.len(),
{
    if q.len() > 0 {
        lemma_drain_order_is_reverse(q.drop_last());
        assert(seq![q.last()] + q.drop_last().reverse() =~= q.reverse());
    }
}

/// Arriving messages stack newest-first in front of what already waits.
proof fn lemma_enqueue_all_is_reverse(q: Seq<WsMessage>, arrivals: Seq<WsMessage>)
    ensures
        enqueue_all(q, arrivals) == arrivals.reverse() + q,
    decreases arrivals.len(),
{
    if arrivals.len() == 0 {
        assert(arrivals.reverse() + q =~= q);
    } else {
        lemma_enqueue_all_is_reverse(seq![arrivals.first()] + q, arrivals.drop_first());
        assert(arrivals.drop_first().reverse() + (seq![arrivals.first()] + q)
            =~= arrivals.reverse() + q);
    }
}

/// Delivery is first-in, first-out: messages arriving in some order at an
/// empty queue are drained in exactly that order.
pub proof fn lemma_fifo(arrivals: Seq<WsMessage>)
    ensures
        drain_order(enqueue_all(Seq::<WsMessage>::empty(), arrivals)) == arrivals,
{
    lemma_enqueue_all_is_reverse(Seq::<WsMessage>::empty(), arrivals);
    assert(arrivals.reverse() + Seq::<WsMessage>::empty() =~= arrivals.reverse());
    lemma_drain_order_is_reverse(arrivals.reverse());
    assert(arrivals.reverse().reverse() =~= arrivals);
}

} // verus!
