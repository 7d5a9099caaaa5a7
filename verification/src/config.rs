use vstd::prelude::*;

verus! {

/// Configuration of the proposals manager.
///
/// Two options are recognized; both are required to be positive.
#[derive(Clone, Copy, Debug, PartialEq, Eq, Structural)]
pub struct ProposalsManagerConfig {
    /// Upper bound on the number of transactions pulled from the mempool per
    /// request; it is also the capacity of the relay channel between the
    /// mempool feed and the block builder.
    pub max_txs_per_mempool_request: usize,
    /// Sizing hint for the caller's output channel. The coordinator forwards
    /// it but does not itself enforce it.
    pub outstream_content_buffer_size: usize,
}

impl ProposalsManagerConfig {
    /// Both recognized options must be positive.
    pub open spec fn is_valid(self) -> bool {
        self.max_txs_per_mempool_request > 0 && self.outstream_content_buffer_size > 0
    }
}

impl Default for ProposalsManagerConfig {
    fn default() -> (c: Self)
        ensures
            c.max_txs_per_mempool_request == 10,
            c.outstream_content_buffer_size == 100,
            c.is_valid(),
    {
        Self { max_txs_per_mempool_request: 10, outstream_content_buffer_size: 100 }
    }
}

} // verus!
