use vstd::prelude::*;

verus! {

/// Failure reported by the mempool collaborator when asked for a batch of
/// transactions. The mempool is an external service; the coordinator only
/// propagates its failures, so the two broad classes it distinguishes are
/// carried as plain variants.
#[derive(Clone, Copy, Debug, PartialEq, Eq, Structural)]
pub enum MempoolClientError {
    /// The mempool itself rejected or failed the request.
    MempoolError,
    /// The transport to the mempool failed.
    ClientError,
}

/// Errors of the proposals manager.
#[derive(Clone, Copy, Debug, PartialEq, Eq, Structural)]
pub enum ProposalsManagerError {
    /// A proposal generation request arrived while another proposal was
    /// already being generated. The redundant claim is rejected, not queued.
    AlreadyGeneratingProposal {
        /// Identifier of the proposal already being generated.
        current_generating_proposal_id: u64,
        /// Identifier carried by the rejected request.
        new_proposal_id: u64,
    },
    /// The relay channel's consumer side closed unexpectedly, or an
    /// equivalent internal invariant was violated.
    InternalError,
    /// A failure of the mempool collaborator, wrapped.
    MempoolError(MempoolClientError),
}

/// Failure reported by the gateway itself. The gateway's own taxonomy is
/// outside this crate's scope; one opaque variant stands for it.
#[derive(Clone, Copy, Debug, PartialEq, Eq, Structural)]
pub enum GatewayError {
    /// The gateway reported a failure of its own.
    GatewayFailed,
}

/// Result alias used throughout the proposals manager.
pub type ProposalsManagerResult<T> = Result<T, ProposalsManagerError>;

} // verus!
