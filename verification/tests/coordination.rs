use proposals_manager::config::ProposalsManagerConfig;
use proposals_manager::errors::{MempoolClientError, ProposalsManagerError};
use proposals_manager::manager::ProposalsManager;
use proposals_manager::task::LoopAction;
use proposals_manager::transaction::Transaction;

fn tx(hash: u64) -> Transaction {
    Transaction { tx_hash: hash }
}

fn config(max_txs: usize) -> ProposalsManagerConfig {
    ProposalsManagerConfig {
        max_txs_per_mempool_request: max_txs,
        outstream_content_buffer_size: 100,
    }
}

#[test]
fn default_config_values() {
    let cfg = ProposalsManagerConfig::default();
    assert_eq!(cfg.max_txs_per_mempool_request, 10);
    assert_eq!(cfg.outstream_content_buffer_size, 100);
}

#[test]
fn claim_while_idle_succeeds_second_claim_rejected() {
    let mut manager = ProposalsManager::new(config(10));
    assert!(manager.generate_block_proposal(1, 1000, 7).is_ok());
    let second = manager.generate_block_proposal(2, 1000, 7);
    assert_eq!(
        second,
        Err(ProposalsManagerError::AlreadyGeneratingProposal {
            current_generating_proposal_id: 1,
            new_proposal_id: 2,
        })
    );
}

#[test]
fn set_active_proposal_check_and_set() {
    let mut manager = ProposalsManager::new(config(10));
    assert!(manager.set_active_proposal(4).is_ok());
    assert_eq!(
        manager.set_active_proposal(5),
        Err(ProposalsManagerError::AlreadyGeneratingProposal {
            current_generating_proposal_id: 4,
            new_proposal_id: 5,
        })
    );
}

#[test]
fn successful_proposal_returns_builder_result_and_clears_slot() {
    let mut manager = ProposalsManager::new(config(10));
    assert!(manager.generate_block_proposal(1, 1000, 7).is_ok());

    // The mempool returns three transactions, then empty batches.
    let action = manager.feed_more_mempool_txs(Ok(vec![tx(1), tx(2), tx(3)]));
    assert_eq!(action, LoopAction::PullMempoolTxs);

    // The builder reads all three, in order, then reports completion.
    assert_eq!(manager.builder_read_tx(), Some(tx(1)));
    assert_eq!(manager.builder_read_tx(), Some(tx(2)));
    assert_eq!(manager.builder_read_tx(), Some(tx(3)));
    assert_eq!(manager.builder_read_tx(), None);

    let action = manager.feed_more_mempool_txs(Ok(vec![]));
    assert_eq!(action, LoopAction::PullMempoolTxs);

    let action = manager.on_builder_done(true);
    assert_eq!(action, LoopAction::Finished(Ok(true)));

    // Cleanup: a new claim succeeds immediately after the loop ends.
    assert!(manager.set_active_proposal(2).is_ok());
}

#[test]
fn mempool_failure_ends_loop_and_clears_slot() {
    let mut manager = ProposalsManager::new(config(10));
    assert!(manager.generate_block_proposal(1, 1000, 0).is_ok());

    let action = manager.feed_more_mempool_txs(Ok(vec![tx(1)]));
    assert_eq!(action, LoopAction::PullMempoolTxs);

    // The mempool's second call fails with a transport error.
    let action = manager.feed_more_mempool_txs(Err(MempoolClientError::ClientError));
    assert_eq!(
        action,
        LoopAction::Finished(Err(ProposalsManagerError::MempoolError(
            MempoolClientError::ClientError
        )))
    );

    // Slot is back to idle: a claim for a different identifier succeeds.
    assert!(manager.generate_block_proposal(2, 1000, 0).is_ok());
}

#[test]
fn awaiting_the_handle_yields_the_loop_result() {
    let mut manager = ProposalsManager::new(config(10));
    assert_eq!(manager.await_active_proposal(), None);

    assert!(manager.generate_block_proposal(1, 1000, 0).is_ok());
    manager.on_builder_done(false);
    assert_eq!(manager.await_active_proposal(), Some(Ok(false)));
    assert_eq!(manager.await_active_proposal(), None);
}

#[test]
fn backpressure_suspends_feed_at_capacity() {
    // Relay channel capacity = 2; the builder stalls after reading 0 items.
    let mut manager = ProposalsManager::new(config(2));
    assert!(manager.generate_block_proposal(1, 1000, 0).is_ok());

    // A feed step pulling 5 items suspends after relaying 2.
    let action = manager.feed_more_mempool_txs(Ok(vec![tx(1), tx(2), tx(3), tx(4), tx(5)]));
    assert_eq!(action, LoopAction::WaitForRelaySpace);

    // Still suspended until the builder reads at least one.
    let action = manager.relay_pending_txs();
    assert_eq!(action, LoopAction::WaitForRelaySpace);

    // One read frees one slot; the feed resumes one transaction at a time.
    assert_eq!(manager.builder_read_tx(), Some(tx(1)));
    let action = manager.relay_pending_txs();
    assert_eq!(action, LoopAction::WaitForRelaySpace);

    assert_eq!(manager.builder_read_tx(), Some(tx(2)));
    let action = manager.relay_pending_txs();
    assert_eq!(action, LoopAction::WaitForRelaySpace);

    assert_eq!(manager.builder_read_tx(), Some(tx(3)));
    let action = manager.relay_pending_txs();
    assert_eq!(action, LoopAction::PullMempoolTxs);

    assert_eq!(manager.builder_read_tx(), Some(tx(4)));
    assert_eq!(manager.builder_read_tx(), Some(tx(5)));
    assert_eq!(manager.builder_read_tx(), None);
}

#[test]
fn order_preserved_across_batches() {
    let mut manager = ProposalsManager::new(config(4));
    assert!(manager.generate_block_proposal(1, 1000, 0).is_ok());

    assert_eq!(
        manager.feed_more_mempool_txs(Ok(vec![tx(10), tx(11)])),
        LoopAction::PullMempoolTxs
    );
    assert_eq!(manager.builder_read_tx(), Some(tx(10)));
    assert_eq!(
        manager.feed_more_mempool_txs(Ok(vec![tx(12), tx(13)])),
        LoopAction::PullMempoolTxs
    );

    // The builder observes the concatenation of the batches, in order.
    let mut seen = vec![tx(10)];
    while let Some(t) = manager.builder_read_tx() {
        seen.push(t);
    }
    assert_eq!(seen, vec![tx(10), tx(11), tx(12), tx(13)]);
}

#[test]
fn closed_builder_side_is_an_internal_error() {
    let mut manager = ProposalsManager::new(config(10));
    assert!(manager.generate_block_proposal(1, 1000, 0).is_ok());

    manager.builder_close_stream();
    let action = manager.feed_more_mempool_txs(Ok(vec![tx(1)]));
    assert_eq!(
        action,
        LoopAction::Finished(Err(ProposalsManagerError::InternalError))
    );

    // Cleanup holds on this exit path too.
    assert!(manager.set_active_proposal(2).is_ok());
    assert_eq!(
        manager.await_active_proposal(),
        Some(Err(ProposalsManagerError::InternalError))
    );
}

#[test]
fn clearing_an_idle_slot_is_a_no_op() {
    let mut manager = ProposalsManager::new(config(10));
    manager.active_proposal_finished();
    manager.active_proposal_finished();
    // The manager is uncorrupted: a normal claim still works.
    assert!(manager.set_active_proposal(1).is_ok());
    manager.active_proposal_finished();
    assert!(manager.set_active_proposal(2).is_ok());
}

#[test]
fn builder_completion_wins_with_feed_in_flight() {
    // A suspended feed (pending transactions) is abandoned, not awaited,
    // the moment the builder reports completion.
    let mut manager = ProposalsManager::new(config(2));
    assert!(manager.generate_block_proposal(1, 1000, 0).is_ok());
    assert_eq!(
        manager.feed_more_mempool_txs(Ok(vec![tx(1), tx(2), tx(3)])),
        LoopAction::WaitForRelaySpace
    );
    let action = manager.on_builder_done(true);
    assert_eq!(action, LoopAction::Finished(Ok(true)));
    assert_eq!(manager.await_active_proposal(), Some(Ok(true)));
}
