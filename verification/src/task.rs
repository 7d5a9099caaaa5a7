use vstd::prelude::*;

use crate::errors::{MempoolClientError, ProposalsManagerError};
use crate::relay::{RelayChannel, SendOutcome};
use crate::transaction::Transaction;

verus! {

/// What the driver of the feed/race loop must do next, as decided by the
/// verified loop state.
#[derive(Clone, Copy, Debug, PartialEq, Eq)]
pub enum LoopAction {
    /// The previous batch is fully relayed: pull the next batch of
    /// transactions from the mempool.
    PullMempoolTxs,
    /// The relay channel is at capacity: suspend the feed until the builder
    /// reads a transaction, then resume relaying.
    WaitForRelaySpace,
    /// The loop has exited, exactly once, with this result.
    Finished(Result<bool, ProposalsManagerError>),
}

/// State of one proposal's feed/race loop.
///
/// The loop races two activities: the feed step, which pulls bounded batches
/// from the mempool and relays each transaction in order onto the bounded
/// channel, and the builder step, which ends the race the moment the builder
/// reports completion. The asynchronous driver performs the pulls, waits and
/// polls; every decision in between is taken here, so the loop's exit value,
/// the relay order and the backpressure bound are all verified.
pub struct BuildProposalLoop {
    channel: RelayChannel,
    pending: Vec<Transaction>,
    max_txs_per_mempool_request: usize,
    deadline: u64,
    outcome: Option<Result<bool, ProposalsManagerError>>,
    batches: Ghost<Seq<Seq<Transaction>>>,
}

impl BuildProposalLoop {
    /// Every batch the mempool has successfully returned so far, in order.
    pub closed spec fn fed_batches(self) -> Seq<Seq<Transaction>> {
        self.batches@
    }

    /// Transactions pulled from the mempool and not yet relayed (the
    /// remainder of the in-flight batch), oldest first.
    pub closed spec fn pending_txs(self) -> Seq<Transaction> {
        self.pending@
    }

    /// The relay channel between the feed step and the builder.
    pub closed spec fn relay(self) -> RelayChannel {
        self.channel
    }

    /// The loop's exit value, once it has exited.
    pub closed spec fn outcome_spec(self) -> Option<Result<bool, ProposalsManagerError>> {
        self.outcome
    }

    /// The configured batch bound, which is also the relay capacity.
    pub closed spec fn capacity(self) -> int {
        self.max_txs_per_mempool_request as int
    }

    /// The deadline fixed at proposal start and handed to the builder.
    pub closed spec fn deadline_spec(self) -> u64 {
        self.deadline
    }

    /// Whether the loop has exited.
    pub open spec fn is_finished(self) -> bool {
        self.outcome_spec() is Some
    }

    /// The loop invariant that carries order preservation: the concatenation
    /// of all batches pulled from the mempool is exactly what was sent on
    /// the relay channel followed by what is still pending, with no
    /// reordering and no duplication.
    pub open spec fn wf(self) -> bool {
        &&& self.relay().wf()
        &&& self.relay().capacity_spec() == self.capacity()
        &&& self.capacity() > 0
        &&& self.fed_batches().flatten() == self.relay().sent() + self.pending_txs()
    }

    /// Starts the loop for one proposal: a fresh empty relay channel sized
    /// to the batch bound, nothing pulled, nothing decided.
    pub fn new(max_txs_per_mempool_request: usize, deadline: u64) -> (t: Self)
        requires
            max_txs_per_mempool_request > 0,
        ensures
            t.wf(),
            t.capacity() == max_txs_per_mempool_request as int,
            t.deadline_spec() == deadline,
            !t.is_finished(),
            t.fed_batches() == Seq::<Seq<Transaction>>::empty(),
            t.pending_txs().len() == 0,
            t.relay().sent().len() == 0,
            t.relay().delivered().len() == 0,
            !t.relay().receiver_is_closed(),
    {
        let t = BuildProposalLoop {
            channel: RelayChannel::new(max_txs_per_mempool_request),
            pending: Vec::new(),
            max_txs_per_mempool_request,
            deadline,
            outcome: None,
            batches: Ghost(Seq::empty()),
        };
        proof {
            assert(t.fed_batches().flatten() =~= t.relay().sent() + t.pending_txs());
        }
        t
    }

    /// The feed step's relay phase: queue pending transactions, in order,
    /// until the batch is exhausted, the channel is full, or the builder
    /// side turns out to be closed (which aborts the loop with an internal
    /// error).
    pub fn relay_pending(&mut self) -> (a: LoopAction)
        requires
            old(self).wf(),
            !old(self).is_finished(),
        ensures
            final(self).wf(),
            final(self).capacity() == old(self).capacity(),
            final(self).deadline_spec() == old(self).deadline_spec(),
            final(self).fed_batches() == old(self).fed_batches(),
            final(self).relay().delivered() == old(self).relay().delivered(),
            final(self).relay().receiver_is_closed() == old(self).relay().receiver_is_closed(),
            ({
                let k: int = old(self).pending_txs().len() - final(self).pending_txs().len();
                &&& 0 <= k <= old(self).pending_txs().len()
                &&& final(self).relay().sent() == old(self).relay().sent() + old(self).pending_txs().take(k)
                &&& final(self).pending_txs() == old(self).pending_txs().skip(k)
            }),
            a is PullMempoolTxs <==> !final(self).is_finished() && final(self).pending_txs().len() == 0,
            a is WaitForRelaySpace <==> !final(self).is_finished() && final(self).pending_txs().len() > 0,
            a is WaitForRelaySpace ==> final(self).relay().is_full(),
            a is Finished <==> final(self).is_finished(),
            a matches LoopAction::Finished(res) ==> final(self).outcome_spec() == Some(res),
            a is Finished ==> a == LoopAction::Finished(
                Err(ProposalsManagerError::InternalError),
            ) && final(self).outcome_spec() == Some(
                Err::<bool, ProposalsManagerError>(ProposalsManagerError::InternalError),
            ) && old(self).relay().receiver_is_closed(),
            !old(self).relay().receiver_is_closed() ==> !(a is Finished),
    {
        loop
            invariant
                self.wf(),
                !self.is_finished(),
                self.capacity() == old(self).capacity(),
                self.deadline_spec() == old(self).deadline_spec(),
                self.fed_batches() == old(self).fed_batches(),
                self.relay().delivered() == old(self).relay().delivered(),
                self.relay().receiver_is_closed() == old(self).relay().receiver_is_closed(),
                self.pending_txs().len() <= old(self).pending_txs().len(),
                ({
                    let k: int = old(self).pending_txs().len() - self.pending_txs().len();
                    &&& self.relay().sent() == old(self).relay().sent() + old(self).pending_txs().take(k)
                    &&& self.pending_txs() == old(self).pending_txs().skip(k)
                }),
            decreases self.pending_txs().len(),
        {
            if self.pending.len() == 0 {
                return LoopAction::PullMempoolTxs;
            }
            let tx = self.pending[0];
            let ghost pre = *self;
            let ghost k: int = old(self).pending_txs().len() - pre.pending_txs().len();
            match self.channel.try_send(tx) {
                SendOutcome::Sent => {
                    let _ = self.pending.remove(0);
                    proof {
                        assert(old(self).pending_txs()[k] == tx);
                        assert(old(self).pending_txs().take(k + 1) =~= old(self).pending_txs().take(k).push(tx));
                        assert(self.relay().sent() =~= pre.relay().sent().push(tx));
                        assert(self.relay().sent() =~= old(self).relay().sent() + old(self).pending_txs().take(k + 1));
                        assert(pre.pending_txs().remove(0) =~= pre.pending_txs().drop_first());
                        assert(self.pending_txs() =~= old(self).pending_txs().skip(k + 1));
                        assert(self.fed_batches().flatten() =~= self.relay().sent()
                            + self.pending_txs());
                    }
                },
                SendOutcome::Full => {
                    return LoopAction::WaitForRelaySpace;
                },
                SendOutcome::Closed => {
                    let res: Result<bool, ProposalsManagerError> = Err(
                        ProposalsManagerError::InternalError,
                    );
                    self.outcome = Some(res);
                    return LoopAction::Finished(res);
                },
            }
        }
    }

    /// The feed step's reaction to the mempool's answer: a failure aborts
    /// the loop with that error; a batch is recorded and relayed in order.
    pub fn on_mempool_response(
        &mut self,
        mempool_txs: Result<Vec<Transaction>, MempoolClientError>,
    ) -> (a: LoopAction)
        requires
            old(self).wf(),
            !old(self).is_finished(),
            old(self).pending_txs().len() == 0,
        ensures
            final(self).wf(),
            final(self).capacity() == old(self).capacity(),
            final(self).deadline_spec() == old(self).deadline_spec(),
            final(self).relay().delivered() == old(self).relay().delivered(),
            final(self).relay().receiver_is_closed() == old(self).relay().receiver_is_closed(),
            mempool_txs matches Err(e) ==> ({
                &&& a == LoopAction::Finished(Err(ProposalsManagerError::MempoolError(e)))
                &&& final(self).outcome_spec() == Some(
                    Err::<bool, ProposalsManagerError>(ProposalsManagerError::MempoolError(e)),
                )
                &&& final(self).fed_batches() == old(self).fed_batches()
                &&& final(self).relay().sent() == old(self).relay().sent()
                &&& final(self).pending_txs().len() == 0
            }),
            mempool_txs matches Ok(txs) ==> ({
                let k: int = txs@.len() - final(self).pending_txs().len();
                &&& final(self).fed_batches() == old(self).fed_batches().push(txs@)
                &&& 0 <= k <= txs@.len()
                &&& final(self).relay().sent() == old(self).relay().sent() + txs@.take(k)
                &&& final(self).pending_txs() == txs@.skip(k)
            }),
            a is Finished <==> final(self).is_finished(),
            a matches LoopAction::Finished(res) ==> final(self).outcome_spec() == Some(res),
            mempool_txs is Ok && !old(self).relay().receiver_is_closed() ==> !(a is Finished),
            a is PullMempoolTxs <==> !final(self).is_finished() && final(self).pending_txs().len() == 0,
            a is WaitForRelaySpace <==> !final(self).is_finished() && final(self).pending_txs().len() > 0,
            a is WaitForRelaySpace ==> final(self).relay().is_full(),
            mempool_txs is Err ==> a is Finished,
    {
        match mempool_txs {
            Err(err) => {
                let res: Result<bool, ProposalsManagerError> = Err(
                    ProposalsManagerError::MempoolError(err),
                );
                self.outcome = Some(res);
                LoopAction::Finished(res)
            },
            Ok(txs) => {
                proof {
                    self.batches@.lemma_flatten_push(txs@);
                    assert(old(self).relay().sent() + old(self).pending_txs() =~= old(self).relay().sent());
                }
                self.batches = Ghost(self.batches@.push(txs@));
                self.pending = txs;
                proof {
                    assert(self.fed_batches().flatten() =~= self.relay().sent()
                        + self.pending_txs());
                }
                self.relay_pending()
            },
        }
    }

    /// The builder step: the builder's completion ends the race immediately
    /// with its boolean result, whatever the feed step was doing. A batch
    /// still pending is abandoned, not awaited further.
    pub fn on_builder_done(&mut self, builder_done: bool) -> (a: LoopAction)
        requires
            old(self).wf(),
            !old(self).is_finished(),
        ensures
            final(self).wf(),
            a == LoopAction::Finished(Ok::<bool, ProposalsManagerError>(builder_done)),
            final(self).outcome_spec() == Some(Ok::<bool, ProposalsManagerError>(builder_done)),
            final(self).is_finished(),
            final(self).capacity() == old(self).capacity(),
            final(self).deadline_spec() == old(self).deadline_spec(),
            final(self).fed_batches() == old(self).fed_batches(),
            final(self).pending_txs() == old(self).pending_txs(),
            final(self).relay() == old(self).relay(),
    {
        let res: Result<bool, ProposalsManagerError> = Ok(builder_done);
        self.outcome = Some(res);
        LoopAction::Finished(res)
    }

    /// The builder's view of the relay: take the next transaction of the
    /// stream, in exactly the order the feed sent them.
    pub fn read_tx(&mut self) -> (r: Option<Transaction>)
        requires
            old(self).wf(),
        ensures
            final(self).wf(),
            final(self).capacity() == old(self).capacity(),
            final(self).deadline_spec() == old(self).deadline_spec(),
            final(self).fed_batches() == old(self).fed_batches(),
            final(self).pending_txs() == old(self).pending_txs(),
            final(self).outcome_spec() == old(self).outcome_spec(),
            final(self).relay().sent() == old(self).relay().sent(),
            final(self).relay().receiver_is_closed() == old(self).relay().receiver_is_closed(),
            old(self).relay().queued().len() == 0 ==> r is None && final(self).relay() == old(self).relay(),
            old(self).relay().queued().len() > 0 ==> ({
                &&& r == Some(old(self).relay().queued()[0])
                &&& r == Some(old(self).relay().sent()[old(self).relay().delivered().len() as int])
                &&& final(self).relay().delivered() == old(self).relay().delivered().push(
                    old(self).relay().queued()[0],
                )
                &&& final(self).relay().queued() == old(self).relay().queued().drop_first()
            }),
    {
        self.channel.try_recv()
    }

    /// The builder's view of the relay: drop the receiving end. Later sends
    /// by the feed step fail, which the loop turns into an internal error.
    pub fn close_stream(&mut self)
        requires
            old(self).wf(),
        ensures
            final(self).wf(),
            final(self).capacity() == old(self).capacity(),
            final(self).deadline_spec() == old(self).deadline_spec(),
            final(self).fed_batches() == old(self).fed_batches(),
            final(self).pending_txs() == old(self).pending_txs(),
            final(self).outcome_spec() == old(self).outcome_spec(),
            final(self).relay().queued() == old(self).relay().queued(),
            final(self).relay().delivered() == old(self).relay().delivered(),
            final(self).relay().receiver_is_closed(),
    {
        self.channel.close_receiver();
    }

    /// Whether the loop has exited, as the running driver can observe it.
    pub fn finished(&self) -> (r: bool)
        ensures
            r == self.is_finished(),
    {
        self.outcome.is_some()
    }

    /// The loop's exit value; defined once it has exited.
    pub fn result(&self) -> (r: Result<bool, ProposalsManagerError>)
        requires
            self.is_finished(),
        ensures
            Some(r) == self.outcome_spec(),
    {
        match self.outcome {
            Some(res) => res,
            None => vstd::pervasive::unreached(),
        }
    }
}

} // verus!
