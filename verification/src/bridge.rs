//! The event bridge: an ordered, bounded queue of decoded input fragments.
//!
//! Two independent host callbacks (one for typed text, one for binary or
//! pasted payloads) feed the same queue; a single consumer polls it. A
//! callback runs inside the host's own event dispatch and must never block,
//! so an enqueue attempt on a full or closed queue is dropped silently.

use vstd::prelude::*;

verus! {

/// Number of fragments the event queue can hold before further enqueue
/// attempts are dropped.
pub const CAPACITY: usize = 32;

/// Outcome of one poll of the bridge.
pub enum PollEvent {
    /// The oldest queued fragment, removed from the queue.
    Ready(String),
    /// The queue is empty and permanently closed: end of stream.
    Closed,
    /// The queue is empty but still open; the consumer should wait and
    /// poll again once a callback has enqueued more input.
    Pending,
}

/// A bounded first-in-first-out queue of input fragments with a single
/// consumer, fed by host callbacks that must never block.
pub struct EventBridge {
    queue: Vec<String>,
    closed: bool,
}

/// One enqueue attempt on the queue model: the fragment is appended when
/// the queue is open and below capacity, and dropped otherwise.
pub open spec fn enqueue_step(
    queue: Seq<Seq<char>>,
    closed: bool,
    fragment: Seq<char>,
) -> Seq<Seq<char>> {
    if !closed && queue.len() < CAPACITY {
        queue.push(fragment)
    } else {
        queue
    }
}

/// A whole run of enqueue attempts, oldest attempt first.
pub open spec fn enqueue_all(
    queue: Seq<Seq<char>>,
    closed: bool,
    fragments: Seq<Seq<char>>,
) -> Seq<Seq<char>>
    decreases fragments.len(),
{
    if fragments.len() == 0 {
        queue
    } else {
        enqueue_all(enqueue_step(queue, closed, fragments[0]), closed, fragments.drop_first())
    }
}

impl EventBridge {
    /// The queued fragments, oldest first.
    pub closed spec fn fragments(&self) -> Seq<Seq<char>> {
        self.queue.deep_view()
    }

    /// Whether the queue has been permanently closed.
    pub closed spec fn is_closed(&self) -> bool {
        self.closed
    }

    /// The queue never holds more than `CAPACITY` fragments.
    pub closed spec fn inv(&self) -> bool {
        self.queue.len() <= CAPACITY
    }

    /// A fresh, open, empty bridge.
    pub fn new() -> (bridge: EventBridge)
        ensures
            bridge.inv(),
            bridge.fragments() == Seq::<Seq<char>>::empty(),
            !bridge.is_closed(),
    {
        let bridge = EventBridge { queue: Vec::new(), closed: false };
        proof {
            assert(bridge.fragments() =~= Seq::<Seq<char>>::empty());
        }
        bridge
    }

    /// A non-blocking enqueue attempt, as made from inside a host callback:
    /// the fragment is accepted exactly when the queue is open and below
    /// capacity, and silently dropped otherwise.
    pub fn try_enqueue(&mut self, fragment: String) -> (accepted: bool)
        requires
            old(self).inv(),
        ensures
            final(self).inv(),
            final(self).is_closed() == old(self).is_closed(),
            accepted == (!old(self).is_closed() && old(self).fragments().len() < CAPACITY),
            final(self).fragments() == enqueue_step(
                old(self).fragments(),
                old(self).is_closed(),
                fragment@,
            ),
    {
        if !self.closed && self.queue.len() < CAPACITY {
            self.queue.push(fragment);
            proof {
                assert(self.fragments() =~= enqueue_step(
                    old(self).fragments(),
                    old(self).is_closed(),
                    fragment@,
                ));
            }
            true
        } else {
            false
        }
    }

    /// Permanently close the queue. Fragments already queued are still
    /// delivered; once they are drained, polling reports end of stream.
    pub fn close(&mut self)
        requires
            old(self).inv(),
        ensures
            final(self).inv(),
            final(self).is_closed(),
            final(self).fragments() == old(self).fragments(),
    {
        self.closed = true;
    }
}

/// One poll by the consumer: the oldest fragment when one is queued, end of
/// stream when the queue is drained and closed, and a wait otherwise.
/// Emptiness is a valid suspension state, never an error.
pub fn poll_next_event(bridge: &mut EventBridge) -> (r: PollEvent)
    requires
        old(bridge).inv(),
    ensures
        final(bridge).inv(),
        final(bridge).is_closed() == old(bridge).is_closed(),
        old(bridge).fragments().len() > 0 ==> {
            &&& r matches PollEvent::Ready(s) && s@ == old(bridge).fragments()[0]
            &&& final(bridge).fragments() == old(bridge).fragments().drop_first()
        },
        old(bridge).fragments().len() == 0 ==> {
            &&& final(bridge).fragments() == old(bridge).fragments()
            &&& r == (if old(bridge).is_closed() {
                PollEvent::Closed
            } else {
                PollEvent::Pending
            })
        },
{
    if bridge.queue.len() > 0 {
        let s = bridge.queue.remove(0);
        proof {
            assert(bridge.fragments() =~= old(bridge).fragments().drop_first());
        }
        PollEvent::Ready(s)
    } else if bridge.closed {
        PollEvent::Closed
    } else {
        PollEvent::Pending
    }
}

/// Law: as long as the queue never exceeds capacity, enqueued fragments are
/// stored in exactly arrival order — a run of enqueue attempts on an open
/// queue appends the fragments in the order they arrived, so the consumer,
/// which always takes the front, receives them in that same order.
pub proof fn lemma_fifo_order(queue: Seq<Seq<char>>, fragments: Seq<Seq<char>>)
    requires
        queue.len() + fragments.len() <= CAPACITY,
    ensures
        enqueue_all(queue, false, fragments) == queue + fragments,
    decreases fragments.len(),
{
    if fragments.len() == 0 {
        assert(enqueue_all(queue, false, fragments) =~= queue + fragments);
    } else {
        lemma_fifo_order(queue.push(fragments[0]), fragments.drop_first());
        assert(queue.push(fragments[0]) + fragments.drop_first() =~= queue + fragments);
    }
}

/// Law: enqueue attempts beyond capacity never disturb what is already
/// queued — after any run of further attempts, open or closed, the
/// fragments that were in the queue before stand unchanged at its front.
pub proof fn lemma_overflow_keeps_queued(
    queue: Seq<Seq<char>>,
    closed: bool,
    fragments: Seq<Seq<char>>,
)
    ensures
        enqueue_all(queue, closed, fragments).len() >= queue.len(),
        enqueue_all(queue, closed, fragments).subrange(0, queue.len() as int) == queue,
    decreases fragments.len(),
{
    if fragments.len() == 0 {
        assert(enqueue_all(queue, closed, fragments).subrange(0, queue.len() as int) =~= queue);
    } else {
        let step = enqueue_step(queue, closed, fragments[0]);
        lemma_overflow_keeps_queued(step, closed, fragments.drop_first());
        let whole = enqueue_all(queue, closed, fragments);
        assert(whole.subrange(0, step.len() as int) == step);
        assert(whole.subrange(0, queue.len() as int) =~= queue);
    }
}

} // verus!
