use vstd::prelude::*;

use crate::errors::ProposalsManagerError;
use crate::manager::{claim_slot_spec, clear_slot_spec, ProposalId};
use crate::task::BuildProposalLoop;

verus! {

/// Which attempts of a run of claim attempts on the active-proposal slot
/// succeed, first to last, when no proposal finishes in between.
pub open spec fn claim_successes(slot: Option<ProposalId>, ids: Seq<ProposalId>) -> Seq<bool>
    decreases ids.len(),
{
    if ids.len() == 0 {
        Seq::empty()
    } else {
        seq![claim_slot_spec(slot, ids[0]).1 is Ok] + claim_successes(
            claim_slot_spec(slot, ids[0]).0,
            ids.drop_first(),
        )
    }
}

/// While the slot is occupied, every claim attempt is rejected: none of a
/// run of attempts succeeds, however long.
pub proof fn lemma_occupied_slot_rejects_all(slot: Option<ProposalId>, ids: Seq<ProposalId>)
    requires
        slot is Some,
    ensures
        claim_successes(slot, ids).len() == ids.len(),
        forall|i: int| 0 <= i < ids.len() ==> !claim_successes(slot, ids)[i],
    decreases ids.len(),
{
    if ids.len() > 0 {
        lemma_occupied_slot_rejects_all(slot, ids.drop_first());
    }
}

/// Mutual exclusion: in any run of claim attempts with no completion in
/// between, at most one attempt succeeds — once some attempt has taken the
/// slot, every later attempt fails.
pub proof fn lemma_mutual_exclusion(
    slot: Option<ProposalId>,
    ids: Seq<ProposalId>,
    i: int,
    j: int,
)
    requires
        0 <= i < j < ids.len(),
        claim_successes(slot, ids)[i],
    ensures
        !claim_successes(slot, ids)[j],
    decreases ids.len(),
{
    let slot1 = claim_slot_spec(slot, ids[0]).0;
    let rest = ids.drop_first();
    lemma_claim_successes_len(slot1, rest);
    assert(claim_successes(slot, ids)[j] == claim_successes(slot1, rest)[j - 1]);
    if i == 0 {
        assert(slot is None);
        assert(slot1 == Some(ids[0]));
        lemma_occupied_slot_rejects_all(slot1, rest);
    } else {
        assert(claim_successes(slot, ids)[i] == claim_successes(slot1, rest)[i - 1]);
        lemma_mutual_exclusion(slot1, rest, i - 1, j - 1);
    }
}

/// A run of claim attempts yields one verdict per attempt.
pub proof fn lemma_claim_successes_len(slot: Option<ProposalId>, ids: Seq<ProposalId>)
    ensures
        claim_successes(slot, ids).len() == ids.len(),
    decreases ids.len(),
{
    if ids.len() > 0 {
        lemma_claim_successes_len(claim_slot_spec(slot, ids[0]).0, ids.drop_first());
    }
}

/// A claim while another proposal is outstanding fails with both
/// identifiers, and changes nothing; a claim of the idle slot succeeds.
pub proof fn lemma_claim_outcome(slot: Option<ProposalId>, new_id: ProposalId)
    ensures
        slot matches Some(current) ==> claim_slot_spec(slot, new_id) == (
            slot,
            Err::<(), ProposalsManagerError>(
                ProposalsManagerError::AlreadyGeneratingProposal {
                    current_generating_proposal_id: current,
                    new_proposal_id: new_id,
                },
            ),
        ),
        slot is None ==> claim_slot_spec(slot, new_id) == (
            Some(new_id),
            Ok::<(), ProposalsManagerError>(()),
        ),
{
}

/// Cleanup invariant, second half: after the slot is cleared — which every
/// exit path of the feed/race loop does, whatever the outcome — a new claim,
/// for any identifier, succeeds.
pub proof fn lemma_cleanup_enables_next_claim(slot: Option<ProposalId>, new_id: ProposalId)
    ensures
        claim_slot_spec(clear_slot_spec(slot), new_id) == (
            Some(new_id),
            Ok::<(), ProposalsManagerError>(()),
        ),
{
}

/// Idempotent cleanup: clearing the slot when it is already empty changes
/// nothing, and clearing twice is the same as clearing once.
pub proof fn lemma_idempotent_cleanup(slot: Option<ProposalId>)
    ensures
        clear_slot_spec(clear_slot_spec(slot)) == clear_slot_spec(slot),
        slot is None ==> clear_slot_spec(slot) == slot,
{
}

/// Order preservation: at every reachable state of a feed/race loop, what
/// was sent on the relay channel is a prefix of the concatenation of the
/// mempool's batches, and what the builder has read is in turn a prefix of
/// what was sent — no reordering, no duplication, no invention.
pub proof fn lemma_order_preservation(t: BuildProposalLoop)
    requires
        t.wf(),
    ensures
        t.relay().sent() == t.fed_batches().flatten().take(t.relay().sent().len() as int),
        t.relay().delivered() == t.fed_batches().flatten().take(
            t.relay().delivered().len() as int,
        ),
        t.relay().delivered().len() + t.relay().queued().len() + t.pending_txs().len()
            == t.fed_batches().flatten().len(),
{
    let flat = t.fed_batches().flatten();
    assert(t.relay().sent() =~= flat.take(t.relay().sent().len() as int));
    assert(t.relay().delivered() =~= flat.take(t.relay().delivered().len() as int));
}

/// Backpressure: the relay channel never holds more than its capacity (the
/// configured batch bound), so what was pulled from the mempool and not yet
/// read by the builder never exceeds the capacity plus the one in-flight
/// batch remainder. The suspension itself is in the feed step's contract: a
/// feed returns a wait action exactly when transactions remain pending, and
/// only with the channel full.
pub proof fn lemma_backpressure(t: BuildProposalLoop)
    requires
        t.wf(),
    ensures
        t.relay().queued().len() <= t.capacity(),
        t.fed_batches().flatten().len() <= t.relay().delivered().len() + t.capacity()
            + t.pending_txs().len(),
{
}

} // verus!
