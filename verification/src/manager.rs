use vstd::prelude::*;

use crate::config::ProposalsManagerConfig;
use crate::errors::{MempoolClientError, ProposalsManagerError};
use crate::task::{BuildProposalLoop, LoopAction};
use crate::transaction::Transaction;

verus! {

/// An opaque, caller-supplied proposal identifier, unique per attempt.
pub type ProposalId = u64;

/// What a claim attempt does to the active-proposal slot, and what it
/// returns: an empty slot is taken; an occupied slot rejects the attempt
/// with both identifiers and is left unchanged.
pub open spec fn claim_slot_spec(slot: Option<ProposalId>, new_id: ProposalId) -> (Option<
    ProposalId,
>, Result<(), ProposalsManagerError>) {
    match slot {
        Some(current) => (
            slot,
            Err(
                ProposalsManagerError::AlreadyGeneratingProposal {
                    current_generating_proposal_id: current,
                    new_proposal_id: new_id,
                },
            ),
        ),
        None => (Some(new_id), Ok(())),
    }
}

/// What clearing the active-proposal slot does: it empties the slot,
/// whatever it held.
pub open spec fn clear_slot_spec(slot: Option<ProposalId>) -> Option<ProposalId> {
    None
}

/// The proposal coordinator. It owns the single-active-proposal invariant:
/// a claim takes the slot only when it is empty, the slot is cleared
/// unconditionally on every exit of the proposal's feed/race loop, and the
/// loop's eventual result is observable through the retained handle.
///
/// The mempool and the block builder are external collaborators; the
/// asynchronous driver calls them and hands their answers to the methods
/// below, which take every decision.
pub struct ProposalsManager {
    config: ProposalsManagerConfig,
    active_proposal: Option<ProposalId>,
    active_proposal_handle: Option<BuildProposalLoop>,
}

impl ProposalsManager {
    /// The configuration the manager was created with.
    pub closed spec fn config_spec(self) -> ProposalsManagerConfig {
        self.config
    }

    /// The active-proposal slot: the identifier of the proposal being
    /// generated, if any.
    pub closed spec fn active_proposal_spec(self) -> Option<ProposalId> {
        self.active_proposal
    }

    /// The retained feed/race loop of the most recent proposal, if any.
    pub closed spec fn handle_spec(self) -> Option<BuildProposalLoop> {
        self.active_proposal_handle
    }

    /// The retained loop, when there is one.
    pub open spec fn task(self) -> BuildProposalLoop
        recommends
            self.handle_spec() is Some,
    {
        self.handle_spec()->0
    }

    /// Whether a proposal's loop has been started and has not exited yet.
    pub open spec fn task_running(self) -> bool {
        self.handle_spec() is Some && !self.task().is_finished()
    }

    /// A valid configuration, and a retained loop (if any) that is itself
    /// well-formed and sized to the configured batch bound.
    pub open spec fn wf(self) -> bool {
        &&& self.config_spec().is_valid()
        &&& self.handle_spec() matches Some(t) ==> t.wf() && t.capacity() == self.config_spec().max_txs_per_mempool_request as int
    }

    /// Creates a manager with an empty slot and no retained loop.
    pub fn new(config: ProposalsManagerConfig) -> (m: Self)
        requires
            config.is_valid(),
        ensures
            m.wf(),
            m.config_spec() == config,
            m.active_proposal_spec() is None,
            m.handle_spec() is None,
    {
        ProposalsManager { config, active_proposal: None, active_proposal_handle: None }
    }

    /// Checks whether a proposal is already being generated and, if not,
    /// records the given identifier as the one being generated. This is the
    /// atomic check-and-set of the claim; the caller holds the slot's lock
    /// for exactly this call.
    pub fn set_active_proposal(&mut self, proposal_id: ProposalId) -> (r: Result<
        (),
        ProposalsManagerError,
    >)
        ensures
            (final(self).active_proposal_spec(), r) == claim_slot_spec(
                old(self).active_proposal_spec(),
                proposal_id,
            ),
            old(self).active_proposal_spec() is None ==> r is Ok && final(self).active_proposal_spec() == Some(proposal_id),
            old(self).active_proposal_spec() matches Some(current) ==> r == Err::<
                (),
                ProposalsManagerError,
            >(
                ProposalsManagerError::AlreadyGeneratingProposal {
                    current_generating_proposal_id: current,
                    new_proposal_id: proposal_id,
                },
            ) && final(self).active_proposal_spec() == old(self).active_proposal_spec(),
            final(self).config_spec() == old(self).config_spec(),
            final(self).handle_spec() == old(self).handle_spec(),
    {
        match self.active_proposal {
            Some(active) => Err(
                ProposalsManagerError::AlreadyGeneratingProposal {
                    current_generating_proposal_id: active,
                    new_proposal_id: proposal_id,
                },
            ),
            None => {
                self.active_proposal = Some(proposal_id);
                Ok(())
            },
        }
    }

    /// Clears the active-proposal slot, whatever it held. This is the sole
    /// transition back to the idle state; every exit of the feed/race loop
    /// performs it. Clearing an already-empty slot is a harmless no-op.
    pub fn active_proposal_finished(&mut self)
        ensures
            final(self).active_proposal_spec() is None,
            final(self).active_proposal_spec() == clear_slot_spec(old(self).active_proposal_spec()),
            final(self).config_spec() == old(self).config_spec(),
            final(self).handle_spec() == old(self).handle_spec(),
            old(self).wf() ==> final(self).wf(),
    {
        self.active_proposal = None;
    }

    /// Starts generation of a new proposal: claims the slot for
    /// `proposal_id` and, on success, retains a fresh feed/race loop whose
    /// relay channel is sized to the configured batch bound. The height is
    /// passed through to the block builder, not interpreted here. The
    /// caller's driver then runs the loop as a concurrent task; the eventual
    /// boolean outcome is observable only through the retained handle.
    pub fn generate_block_proposal(
        &mut self,
        proposal_id: ProposalId,
        deadline: u64,
        _height: u64,
    ) -> (r: Result<(), ProposalsManagerError>)
        requires
            old(self).wf(),
        ensures
            final(self).wf(),
            final(self).config_spec() == old(self).config_spec(),
            (final(self).active_proposal_spec(), r) == claim_slot_spec(
                old(self).active_proposal_spec(),
                proposal_id,
            ),
            r is Err ==> *final(self) == *old(self),
            r is Ok ==> ({
                &&& final(self).active_proposal_spec() == Some(proposal_id)
                &&& final(self).task_running()
                &&& final(self).task().deadline_spec() == deadline
                &&& final(self).task().capacity() == old(self).config_spec().max_txs_per_mempool_request as int
                &&& final(self).task().fed_batches() == Seq::<Seq<Transaction>>::empty()
                &&& final(self).task().pending_txs().len() == 0
                &&& final(self).task().relay().sent().len() == 0
                &&& final(self).task().relay().delivered().len() == 0
                &&& !final(self).task().relay().receiver_is_closed()
            }),
    {
        self.set_active_proposal(proposal_id)?;
        let task = BuildProposalLoop::new(self.config.max_txs_per_mempool_request, deadline);
        self.active_proposal_handle = Some(task);
        Ok(())
    }

    /// Feed branch of the race: hands the mempool's answer for one batch to
    /// the running loop. A mempool failure ends the loop with that error; a
    /// batch is relayed in order as far as the channel allows. Whenever the
    /// loop exits here, the slot is cleared before the result is final.
    pub fn feed_more_mempool_txs(
        &mut self,
        mempool_txs: Result<Vec<Transaction>, MempoolClientError>,
    ) -> (a: LoopAction)
        requires
            old(self).wf(),
            old(self).task_running(),
            old(self).task().pending_txs().len() == 0,
        ensures
            final(self).wf(),
            final(self).config_spec() == old(self).config_spec(),
            final(self).handle_spec() is Some,
            a is Finished <==> !final(self).task_running(),
            a is Finished ==> final(self).active_proposal_spec() is None,
            !(a is Finished) ==> final(self).active_proposal_spec() == old(self).active_proposal_spec(),
            a matches LoopAction::Finished(res) ==> final(self).task().outcome_spec() == Some(res),
            mempool_txs matches Err(e) ==> a == LoopAction::Finished(
                Err(ProposalsManagerError::MempoolError(e)),
            ) && final(self).task().fed_batches() == old(self).task().fed_batches() && final(self).task().relay().sent() == old(self).task().relay().sent(),
            mempool_txs matches Ok(txs) ==> ({
                let k: int = txs@.len() - final(self).task().pending_txs().len();
                &&& final(self).task().fed_batches() == old(self).task().fed_batches().push(txs@)
                &&& 0 <= k <= txs@.len()
                &&& final(self).task().relay().sent() == old(self).task().relay().sent()
                    + txs@.take(k)
                &&& final(self).task().pending_txs() == txs@.skip(k)
            }),
            mempool_txs is Ok && !old(self).task().relay().receiver_is_closed() ==> !(a
                is Finished),
            a is PullMempoolTxs <==> !final(self).task().is_finished() && final(self).task().pending_txs().len() == 0,
            a is WaitForRelaySpace <==> !final(self).task().is_finished() && final(self).task().pending_txs().len() > 0,
            a is WaitForRelaySpace ==> final(self).task().relay().is_full(),
            final(self).task().relay().delivered() == old(self).task().relay().delivered(),
            final(self).task().relay().receiver_is_closed() == old(self).task().relay().receiver_is_closed(),
            final(self).task().deadline_spec() == old(self).task().deadline_spec(),
    {
        let a = match &mut self.active_proposal_handle {
            Some(task) => task.on_mempool_response(mempool_txs),
            None => vstd::pervasive::unreached(),
        };
        match a {
            LoopAction::Finished(_) => {
                self.active_proposal_finished();
            },
            _ => {},
        }
        a
    }

    /// Resumption of a suspended feed step: after the builder has read from
    /// the full relay channel, relay more of the pending batch. Whenever the
    /// loop exits here (the builder side closed), the slot is cleared.
    pub fn relay_pending_txs(&mut self) -> (a: LoopAction)
        requires
            old(self).wf(),
            old(self).task_running(),
        ensures
            final(self).wf(),
            final(self).config_spec() == old(self).config_spec(),
            final(self).handle_spec() is Some,
            a is Finished <==> !final(self).task_running(),
            a is Finished ==> final(self).active_proposal_spec() is None,
            !(a is Finished) ==> final(self).active_proposal_spec() == old(self).active_proposal_spec(),
            a matches LoopAction::Finished(res) ==> final(self).task().outcome_spec() == Some(res),
            a is Finished ==> a == LoopAction::Finished(
                Err(ProposalsManagerError::InternalError),
            ) && old(self).task().relay().receiver_is_closed(),
            !old(self).task().relay().receiver_is_closed() ==> !(a is Finished),
            final(self).task().fed_batches() == old(self).task().fed_batches(),
            ({
                let k: int = old(self).task().pending_txs().len() - final(self).task().pending_txs().len();
                &&& 0 <= k <= old(self).task().pending_txs().len()
                &&& final(self).task().relay().sent() == old(self).task().relay().sent() + old(self).task().pending_txs().take(k)
                &&& final(self).task().pending_txs() == old(self).task().pending_txs().skip(k)
            }),
            a is PullMempoolTxs <==> !final(self).task().is_finished() && final(self).task().pending_txs().len() == 0,
            a is WaitForRelaySpace <==> !final(self).task().is_finished() && final(self).task().pending_txs().len() > 0,
            a is WaitForRelaySpace ==> final(self).task().relay().is_full(),
            final(self).task().relay().delivered() == old(self).task().relay().delivered(),
            final(self).task().relay().receiver_is_closed() == old(self).task().relay().receiver_is_closed(),
            final(self).task().deadline_spec() == old(self).task().deadline_spec(),
    {
        let a = match &mut self.active_proposal_handle {
            Some(task) => task.relay_pending(),
            None => vstd::pervasive::unreached(),
        };
        match a {
            LoopAction::Finished(_) => {
                self.active_proposal_finished();
            },
            _ => {},
        }
        a
    }

    /// Builder branch of the race: the builder's completion ends the loop
    /// immediately with its boolean result, whatever the feed step was
    /// doing. The slot is cleared before the result is final.
    pub fn on_builder_done(&mut self, builder_done: bool) -> (a: LoopAction)
        requires
            old(self).wf(),
            old(self).task_running(),
        ensures
            final(self).wf(),
            final(self).config_spec() == old(self).config_spec(),
            final(self).handle_spec() is Some,
            a == LoopAction::Finished(Ok::<bool, ProposalsManagerError>(builder_done)),
            final(self).active_proposal_spec() is None,
            !final(self).task_running(),
            final(self).task().outcome_spec() == Some(
                Ok::<bool, ProposalsManagerError>(builder_done),
            ),
            final(self).task().fed_batches() == old(self).task().fed_batches(),
            final(self).task().pending_txs() == old(self).task().pending_txs(),
            final(self).task().relay() == old(self).task().relay(),
    {
        let a = match &mut self.active_proposal_handle {
            Some(task) => task.on_builder_done(builder_done),
            None => vstd::pervasive::unreached(),
        };
        self.active_proposal_finished();
        a
    }

    /// The builder's read of the relay stream: the next transaction, in
    /// exactly the order the feed sent them, or nothing if the channel is
    /// momentarily empty.
    pub fn builder_read_tx(&mut self) -> (r: Option<Transaction>)
        requires
            old(self).wf(),
            old(self).handle_spec() is Some,
        ensures
            final(self).wf(),
            final(self).config_spec() == old(self).config_spec(),
            final(self).active_proposal_spec() == old(self).active_proposal_spec(),
            final(self).handle_spec() is Some,
            final(self).task().outcome_spec() == old(self).task().outcome_spec(),
            final(self).task().fed_batches() == old(self).task().fed_batches(),
            final(self).task().pending_txs() == old(self).task().pending_txs(),
            final(self).task().relay().sent() == old(self).task().relay().sent(),
            final(self).task().relay().receiver_is_closed() == old(self).task().relay().receiver_is_closed(),
            old(self).task().relay().queued().len() == 0 ==> r is None && final(self).task().relay() == old(self).task().relay(),
            old(self).task().relay().queued().len() > 0 ==> ({
                &&& r == Some(old(self).task().relay().queued()[0])
                &&& r == Some(
                    old(self).task().relay().sent()[old(self).task().relay().delivered().len() as int],
                )
                &&& final(self).task().relay().delivered() == old(self).task().relay().delivered().push(old(self).task().relay().queued()[0])
                &&& final(self).task().relay().queued() == old(self).task().relay().queued().drop_first()
            }),
    {
        match &mut self.active_proposal_handle {
            Some(task) => task.read_tx(),
            None => vstd::pervasive::unreached(),
        }
    }

    /// The builder's close of the relay stream: later feed sends fail, which
    /// the loop turns into an internal error.
    pub fn builder_close_stream(&mut self)
        requires
            old(self).wf(),
            old(self).handle_spec() is Some,
        ensures
            final(self).wf(),
            final(self).config_spec() == old(self).config_spec(),
            final(self).active_proposal_spec() == old(self).active_proposal_spec(),
            final(self).handle_spec() is Some,
            final(self).task().outcome_spec() == old(self).task().outcome_spec(),
            final(self).task().fed_batches() == old(self).task().fed_batches(),
            final(self).task().pending_txs() == old(self).task().pending_txs(),
            final(self).task().relay().queued() == old(self).task().relay().queued(),
            final(self).task().relay().delivered() == old(self).task().relay().delivered(),
            final(self).task().relay().receiver_is_closed(),
    {
        match &mut self.active_proposal_handle {
            Some(task) => task.close_stream(),
            None => vstd::pervasive::unreached(),
        }
    }

    /// Whether a proposal's loop has been started and has not exited yet,
    /// as the running driver can observe it.
    pub fn task_in_progress(&self) -> (r: bool)
        ensures
            r == self.task_running(),
    {
        match &self.active_proposal_handle {
            Some(task) => !task.finished(),
            None => false,
        }
    }

    /// Takes the retained handle and returns the loop's result, if a loop
    /// was started. In the sequential model the loop must have been driven
    /// to its exit before its result can be awaited.
    pub fn await_active_proposal(&mut self) -> (r: Option<Result<bool, ProposalsManagerError>>)
        requires
            old(self).wf(),
            old(self).handle_spec() matches Some(t) ==> t.is_finished(),
        ensures
            final(self).wf(),
            final(self).config_spec() == old(self).config_spec(),
            final(self).active_proposal_spec() == old(self).active_proposal_spec(),
            final(self).handle_spec() is None,
            old(self).handle_spec() is None ==> r is None,
            old(self).handle_spec() matches Some(t) ==> Some(r->0) == t.outcome_spec() && r
                is Some,
    {
        let taken = self.active_proposal_handle.take();
        match taken {
            Some(task) => Some(task.result()),
            None => None,
        }
    }
}

} // verus!
