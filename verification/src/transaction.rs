use vstd::prelude::*;

verus! {

/// A pending transaction as the coordinator sees it.
///
/// The coordinator never looks inside a transaction: it pulls transactions
/// from the mempool and relays them, unchanged and in order, to the block
/// builder. Only the hash that identifies the transaction is carried here;
/// the embedding program maps it to and from its full transaction records.
#[derive(Clone, Copy, Debug, PartialEq, Eq, Structural)]
pub struct Transaction {
    /// Identifying hash of the transaction.
    pub tx_hash: u64,
}

} // verus!
