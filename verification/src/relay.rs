use vstd::prelude::*;

use crate::transaction::Transaction;

verus! {

/// Outcome of one attempt to queue a transaction on the relay channel.
#[derive(Clone, Copy, Debug, PartialEq, Eq, Structural)]
pub enum SendOutcome {
    /// The transaction was queued.
    Sent,
    /// The channel is at capacity; the producer must wait for a read.
    Full,
    /// The consumer dropped its end; nothing can be queued any more.
    Closed,
}

/// The bounded first-in-first-out relay channel that connects the mempool
/// feed (producer) to the block builder (consumer) for the lifetime of one
/// proposal.
///
/// Capacity equals the configured maximum batch size, so a producer that
/// outpaces the consumer is suspended once the buffer is full: this is the
/// backpressure mechanism. The channel introduces no reordering: the
/// consumer takes transactions in exactly the order the producer queued
/// them. A ghost log of everything the consumer has taken out makes that
/// statement precise.
pub struct RelayChannel {
    buffer: Vec<Transaction>,
    capacity: usize,
    receiver_closed: bool,
    delivered_log: Ghost<Seq<Transaction>>,
}

impl RelayChannel {
    /// Every transaction the consumer has taken out so far, oldest first.
    pub closed spec fn delivered(self) -> Seq<Transaction> {
        self.delivered_log@
    }

    /// Transactions queued and not yet taken by the consumer, oldest first.
    pub closed spec fn queued(self) -> Seq<Transaction> {
        self.buffer@
    }

    /// Every transaction the channel ever accepted, in send order.
    pub open spec fn sent(self) -> Seq<Transaction> {
        self.delivered() + self.queued()
    }

    /// The fixed capacity the channel was created with.
    pub closed spec fn capacity_spec(self) -> int {
        self.capacity as int
    }

    /// Whether the consumer has dropped its end of the channel.
    pub closed spec fn receiver_is_closed(self) -> bool {
        self.receiver_closed
    }

    /// The channel's invariant: a positive capacity that the buffer never
    /// exceeds.
    pub open spec fn wf(self) -> bool {
        self.capacity_spec() > 0 && self.queued().len() <= self.capacity_spec()
    }

    /// Whether the buffer is at capacity, so that a send would suspend.
    pub open spec fn is_full(self) -> bool {
        self.queued().len() == self.capacity_spec()
    }

    /// Creates a fresh, open, empty channel of the given capacity.
    pub fn new(capacity: usize) -> (c: Self)
        requires
            capacity > 0,
        ensures
            c.wf(),
            c.capacity_spec() == capacity as int,
            c.queued() == Seq::<Transaction>::empty(),
            c.delivered() == Seq::<Transaction>::empty(),
            !c.receiver_is_closed(),
    {
        RelayChannel {
            buffer: Vec::new(),
            capacity,
            receiver_closed: false,
            delivered_log: Ghost(Seq::empty()),
        }
    }

    /// Producer side: queue one transaction if there is room and the
    /// consumer is still attached. A `Full` outcome is where the real
    /// producer suspends until the consumer reads.
    pub fn try_send(&mut self, tx: Transaction) -> (r: SendOutcome)
        requires
            old(self).wf(),
        ensures
            final(self).wf(),
            final(self).capacity_spec() == old(self).capacity_spec(),
            final(self).delivered() == old(self).delivered(),
            final(self).receiver_is_closed() == old(self).receiver_is_closed(),
            old(self).receiver_is_closed() ==> r == SendOutcome::Closed && *final(self) == *old(
                self,
            ),
            !old(self).receiver_is_closed() && old(self).is_full() ==> r == SendOutcome::Full
                && *final(self) == *old(self),
            !old(self).receiver_is_closed() && !old(self).is_full() ==> r == SendOutcome::Sent
                && final(self).queued() == old(self).queued().push(tx),
    {
        if self.receiver_closed {
            SendOutcome::Closed
        } else if self.buffer.len() == self.capacity {
            SendOutcome::Full
        } else {
            self.buffer.push(tx);
            SendOutcome::Sent
        }
    }

    /// Consumer side: take the oldest queued transaction, if any. The
    /// consumer sees exactly the send order: what comes out is the first
    /// transaction sent and not yet delivered.
    pub fn try_recv(&mut self) -> (r: Option<Transaction>)
        requires
            old(self).wf(),
        ensures
            final(self).wf(),
            final(self).capacity_spec() == old(self).capacity_spec(),
            final(self).receiver_is_closed() == old(self).receiver_is_closed(),
            final(self).sent() == old(self).sent(),
            old(self).queued().len() == 0 ==> r is None && *final(self) == *old(self),
            old(self).queued().len() > 0 ==> ({
                &&& r == Some(old(self).queued()[0])
                &&& r == Some(old(self).sent()[old(self).delivered().len() as int])
                &&& final(self).queued() == old(self).queued().drop_first()
                &&& final(self).delivered() == old(self).delivered().push(old(self).queued()[0])
            }),
    {
        if self.buffer.len() == 0 {
            None
        } else {
            let tx = self.buffer.remove(0);
            proof {
                assert(old(self).buffer@.remove(0) =~= old(self).buffer@.drop_first());
                assert(old(self).sent()[old(self).delivered().len() as int] == tx);
            }
            self.delivered_log = Ghost(self.delivered_log@.push(tx));
            proof {
                assert(self.sent() =~= old(self).sent());
            }
            Some(tx)
        }
    }

    /// Consumer side: drop the receiving end. Later sends fail; this is how
    /// an unexpected close on the builder side reaches the feed step.
    pub fn close_receiver(&mut self)
        requires
            old(self).wf(),
        ensures
            final(self).wf(),
            final(self).capacity_spec() == old(self).capacity_spec(),
            final(self).queued() == old(self).queued(),
            final(self).delivered() == old(self).delivered(),
            final(self).receiver_is_closed(),
    {
        self.receiver_closed = true;
    }
}

} // verus!
