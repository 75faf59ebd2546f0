use catalyst::proposal_manager::{
    check_block_timestamp, check_first_recovered_block, drop_anchor_transaction, gas_limit_without_anchor,
    next_proposal_id_from_chain, parent_from_fetched, anchor_transaction_hash, recovery_parent, BatchBuilderConfig, ForcedInclusionAction,
    ForcedInclusionEvent, Proposal, ProposalBlock, ProposalManager, RecoveredBlock, RecoveredBlockInfo, RecoveryParent,
};
use catalyst::protocol_config::ProtocolConfig;

fn builder_config() -> BatchBuilderConfig {
    BatchBuilderConfig {
        max_bytes_size_of_batch: 650220,
        max_blocks_per_batch: 768,
        l1_slot_duration_sec: 12,
        max_time_shift_between_blocks_sec: 255,
        max_anchor_height_offset: 118,
        default_coinbase: [0u8; 20],
        preconf_min_txs: 3,
        preconf_max_skipped_l2_slots: 2,
        proposal_max_time_sec: 384,
        max_forced_inclusions: 1,
    }
}

fn manager() -> ProposalManager {
    ProposalManager::new(builder_config(), ProtocolConfig::new(75, 128, 1536), 8, 2, 10, true, 5)
}

fn block(timestamp_sec: u64, is_forced_inclusion: bool) -> ProposalBlock {
    ProposalBlock {
        timestamp_sec,
        gas_limit_without_anchor: 30_000_000,
        transactions: vec![vec![0x02, timestamp_sec as u8]],
        is_forced_inclusion,
        coinbase: None,
    }
}

#[test]
fn new_manager_has_no_proposals() {
    let m = manager();
    assert!(!m.has_proposals());
    assert_eq!(m.get_number_of_proposals(), 0);
    assert_eq!(m.get_number_of_proposals_ready_to_send(), 0);
    assert!(!m.has_current_forced_inclusion());
}

#[test]
fn proposals_move_from_current_to_queue() {
    let mut m = manager();
    m.create_new_proposal(1, 100, 1000);
    assert!(m.has_proposals());
    assert_eq!(m.get_number_of_proposals(), 1);
    assert_eq!(m.get_number_of_proposals_ready_to_send(), 0);
    assert!(m.add_l2_block(block(1000, false)));
    assert!(m.add_l2_block(block(1001, true)));
    assert!(m.has_current_forced_inclusion());
    m.create_new_proposal(2, 101, 1000);
    assert_eq!(m.get_number_of_proposals(), 2);
    assert_eq!(m.get_number_of_proposals_ready_to_send(), 1);
    assert!(!m.has_current_forced_inclusion());
    m.try_finalize_current_proposal();
    // The second proposal held no block and is dropped.
    assert_eq!(m.get_number_of_proposals(), 1);
    let taken = m.take_proposals_to_send();
    assert_eq!(taken.len(), 1);
    assert_eq!(taken[0].id, 1);
    assert_eq!(taken[0].blocks.len(), 2);
    assert!(!m.has_proposals());
}

#[test]
fn take_then_prepend_restores_the_queue() {
    let mut m = manager();
    for id in 1..=3u64 {
        m.create_new_proposal(id, 100 + id, 1000);
        assert!(m.add_l2_block(block(1000 + id, false)));
    }
    m.try_finalize_current_proposal();
    let taken = m.take_proposals_to_send();
    assert_eq!(m.get_number_of_proposals(), 0);
    m.prepend_proposals(taken);
    let again = m.take_proposals_to_send();
    let ids: Vec<u64> = again.iter().map(|p| p.id).collect();
    assert_eq!(ids, vec![1, 2, 3]);
}

#[test]
fn prepended_proposals_come_first() {
    let mut m = manager();
    m.create_new_proposal(5, 100, 1000);
    assert!(m.add_l2_block(block(1, false)));
    m.try_finalize_current_proposal();
    m.prepend_proposals(vec![
        Proposal { id: 3, anchor_block_id: 90, l2_slot_timestamp: 900, blocks: vec![block(0, false)] },
        Proposal { id: 4, anchor_block_id: 91, l2_slot_timestamp: 901, blocks: vec![] },
    ]);
    let ids: Vec<u64> = m.take_proposals_to_send().iter().map(|p| p.id).collect();
    assert_eq!(ids, vec![3, 4, 5]);
}

#[test]
fn confirmation_and_resubmission() {
    let mut m = manager();
    for id in 1..=2u64 {
        m.create_new_proposal(id, 100, 1000);
        assert!(m.add_l2_block(block(id, false)));
    }
    m.try_finalize_current_proposal();
    assert_eq!(m.get_number_of_proposals_ready_to_send(), 2);
    m.mark_oldest_in_flight();
    assert_eq!(m.get_number_of_proposals_ready_to_send(), 1);
    assert_eq!(m.get_number_of_proposals(), 2);
    // A second submission waits for the first one's outcome.
    m.mark_oldest_in_flight();
    assert_eq!(m.get_number_of_proposals_ready_to_send(), 1);
    m.mark_not_confirmed_proposal_to_resubmit();
    assert_eq!(m.get_number_of_proposals_ready_to_send(), 2);
    m.mark_oldest_in_flight();
    m.remove_confirmed_proposal();
    assert_eq!(m.get_number_of_proposals_ready_to_send(), 1);
    assert_eq!(m.get_number_of_proposals(), 1);
    let left = m.take_proposals_to_send();
    assert_eq!(left[0].id, 2);
}

#[test]
fn last_block_can_be_removed() {
    let mut m = manager();
    m.create_new_proposal(1, 100, 1000);
    assert!(m.add_l2_block(block(10, false)));
    assert!(m.add_l2_block(block(11, true)));
    assert_eq!(m.get_current_proposal_last_block_timestamp(), Some(11));
    m.remove_last_l2_block();
    assert_eq!(m.get_current_proposal_last_block_timestamp(), Some(10));
    assert!(!m.has_current_forced_inclusion());
}

#[test]
fn blocks_need_a_current_proposal() {
    let mut m = manager();
    assert!(!m.add_l2_block(block(10, false)));
    m.remove_last_l2_block();
    assert!(!m.has_proposals());
}

#[test]
fn same_timestamp_block_is_refused() {
    let mut m = manager();
    m.create_new_proposal(1, 100, 1000);
    assert!(m.check_new_block_timestamp(10).is_ok());
    assert!(m.add_l2_block(block(10, false)));
    let e = m.check_new_block_timestamp(10).unwrap_err();
    assert_eq!(
        e.message(),
        "Cannot add another block with the same timestamp as the last block, timestamp: 10, last block timestamp: 10"
    );
    assert!(m.check_new_block_timestamp(11).is_ok());
}

#[test]
fn clone_without_proposals_keeps_settings() {
    let mut m = manager();
    m.create_new_proposal(1, 100, 1000);
    assert!(m.add_l2_block(block(10, false)));
    m.try_finalize_current_proposal();
    let c = m.clone_without_proposals(42);
    assert!(!c.has_proposals());
    assert!(c.is_offsets_valid(128, 1536));
    assert!(!c.is_offsets_valid(129, 1536));
    assert!(c.forced_inclusion_allowed(true, false));
    assert!(m.has_proposals());
}

#[test]
fn offsets_are_checked_against_the_protocol() {
    let m = manager();
    assert!(m.is_anchor_block_offset_valid(128));
    assert!(!m.is_anchor_block_offset_valid(129));
    assert!(m.is_timestamp_offset_valid(1536));
    assert!(!m.is_timestamp_offset_valid(1537));
    assert!(m.is_offsets_valid(0, 0));
    assert!(!m.is_offsets_valid(0, 2000));
}

#[test]
fn forced_inclusion_permission() {
    let m = manager();
    assert!(m.forced_inclusion_allowed(true, false));
    assert!(!m.forced_inclusion_allowed(false, false));
    assert!(!m.forced_inclusion_allowed(true, true));
    let no_fi = ProposalManager::new(builder_config(), ProtocolConfig::new(75, 1, 1), 8, 2, 10, false, 0);
    assert!(!no_fi.forced_inclusion_allowed(true, false));
}

#[test]
fn reset_drops_every_proposal() {
    let mut m = manager();
    m.create_new_proposal(1, 100, 1000);
    assert!(m.add_l2_block(block(10, false)));
    m.try_finalize_current_proposal();
    m.create_new_proposal(2, 100, 1000);
    m.reset_builder();
    assert!(!m.has_proposals());
    m.set_fi_head(9);
    assert_eq!(m.get_number_of_proposals(), 0);
}

#[test]
fn proposal_id_checks() {
    let m = manager();
    assert!(m.validate_block_proposal_id(10, 5, 5).is_ok());
    assert!(m.validate_block_proposal_id(10, 6, 5).is_ok());
    assert_eq!(
        m.validate_block_proposal_id(10, 7, 5).unwrap_err().message(),
        "Proposal ID validation failed at block 10: proposal_id=7 parent_proposal_id=5"
    );
    assert!(m.validate_block_proposal_id(10, 4, 5).is_err());
}

#[test]
fn next_proposal_ids() {
    let mut m = manager();
    assert_eq!(m.next_proposal_id_from_current(), None);
    m.create_new_proposal(7, 1, 1000);
    assert_eq!(m.next_proposal_id_from_current(), Some(8));
    assert_eq!(next_proposal_id_from_chain(Some(41), 99).unwrap(), 42);
    assert_eq!(next_proposal_id_from_chain(None, 1).unwrap(), 1);
    assert_eq!(
        next_proposal_id_from_chain(None, 5).unwrap_err().message(),
        "Failed to get last synced proposal id from Taiko Geth, next_proposal_id = 5"
    );
}

#[test]
fn block_timestamp_checks() {
    assert!(check_block_timestamp(1, 1000, 999, 1000, 100).is_ok());
    assert!(check_block_timestamp(1, 999, 999, 1000, 100).is_err());
    assert!(check_block_timestamp(1, 1001, 999, 1000, 100).is_err());
    assert_eq!(
        check_block_timestamp(3, 850, 800, 1000, 100).unwrap_err().message(),
        "Derivation timestamp validation failed at block 3: timestamp=850, lower_bound=900, upper_bound(now)=1000, parent_timestamp=800"
    );
    assert!(check_block_timestamp(3, 5, 1, 10, 100).is_ok());
}

#[test]
fn validating_against_the_clock() {
    let m = manager();
    // A block far in the future of any clock is refused.
    assert!(m.validate_block_timestamp(1, u64::MAX - 1, 0).is_err());
    let now = std::time::SystemTime::now()
        .duration_since(std::time::UNIX_EPOCH)
        .unwrap()
        .as_secs();
    assert!(m.validate_block_timestamp(1, now - 10, now - 20).is_ok());
}

#[test]
fn first_recovered_block_checks() {
    assert!(check_first_recovered_block(5, 3, 2).is_ok());
    assert_eq!(
        check_first_recovered_block(0, 1, 0).unwrap_err().message(),
        "recover_from_l2_block: parent_info must be provided for genesis (block_height == 0)"
    );
    assert_eq!(
        check_first_recovered_block(5, 3, 3).unwrap_err().message(),
        "recover_from_l2_block: proposal ID validation failed at the first recovered block 5: proposal_id=3 parent_proposal_id=3"
    );
    assert!(check_first_recovered_block(5, 0, u64::MAX).is_err());
}

#[test]
fn gas_limit_without_anchor_subtracts() {
    assert_eq!(gas_limit_without_anchor(1_000_000, 1_000).unwrap(), 999_000);
    assert_eq!(
        gas_limit_without_anchor(10, 1_000).unwrap_err().message(),
        "block header gas limit 10 is less than ANCHOR_V3_V4_GAS_LIMIT 1000"
    );
}

#[test]
fn anchor_transaction_is_dropped() {
    assert_eq!(drop_anchor_transaction(vec!["anchor", "a", "b"]), Some(vec!["a", "b"]));
    assert_eq!(drop_anchor_transaction(vec!["anchor"]), Some(Vec::<&str>::new()));
    assert_eq!(drop_anchor_transaction(Vec::<&str>::new()), None);
}

#[test]
fn recovered_block_info_is_plain_data() {
    let info = RecoveredBlockInfo { proposal_id: 3, timestamp: 1000 };
    let copy = info;
    assert_eq!(copy, RecoveredBlockInfo { proposal_id: 3, timestamp: 1000 });
}

#[test]
fn finalizing_twice_changes_nothing() {
    let mut m = manager();
    m.create_new_proposal(1, 100, 1000);
    assert!(m.add_l2_block(block(10, false)));
    m.try_finalize_current_proposal();
    let after_once = m.get_number_of_proposals();
    m.try_finalize_current_proposal();
    assert_eq!(m.get_number_of_proposals(), after_once);
    assert_eq!(after_once, 1);
}

#[test]
fn proposal_counts_add_up() {
    let mut m = manager();
    for id in 1..=3u64 {
        m.create_new_proposal(id, 100, 1000);
        assert!(m.add_l2_block(block(id, false)));
    }
    m.mark_oldest_in_flight();
    // Two finished, one of them in flight, and one being filled.
    assert_eq!(m.get_number_of_proposals(), 3);
    assert_eq!(m.get_number_of_proposals_ready_to_send(), 1);
}

#[test]
fn take_leaves_the_proposal_in_flight() {
    let mut m = manager();
    for id in 1..=3u64 {
        m.create_new_proposal(id, 100, 1000 + id);
        assert!(m.add_l2_block(block(id, false)));
    }
    m.try_finalize_current_proposal();
    m.mark_oldest_in_flight();
    let ready = m.get_number_of_proposals_ready_to_send();
    let total = m.get_number_of_proposals();
    let taken = m.take_proposals_to_send();
    assert_eq!(taken.len() as u64, ready);
    let ids: Vec<u64> = taken.iter().map(|p| p.id).collect();
    assert_eq!(ids, vec![2, 3]);
    assert_eq!(m.get_number_of_proposals_ready_to_send(), 0);
    assert_eq!(m.get_number_of_proposals(), total - ready);
    assert!(m.has_proposals());
    m.mark_not_confirmed_proposal_to_resubmit();
    let again: Vec<u64> = m.take_proposals_to_send().iter().map(|p| p.id).collect();
    assert_eq!(again, vec![1]);
}

#[test]
fn new_proposal_records_its_slot() {
    let mut m = manager();
    m.create_new_proposal(4, 77, 1234);
    assert!(m.add_l2_block(block(1234, false)));
    m.try_finalize_current_proposal();
    let taken = m.take_proposals_to_send();
    assert_eq!(taken[0].id, 4);
    assert_eq!(taken[0].anchor_block_id, 77);
    assert_eq!(taken[0].l2_slot_timestamp, 1234);
}

#[test]
fn forced_inclusion_goes_in_before_the_block() {
    let mut m = manager();
    assert!(!m.can_add_forced_inclusion());
    assert!(matches!(m.forced_inclusion_step(ForcedInclusionEvent::Start), ForcedInclusionAction::Skip));
    m.create_new_proposal(1, 100, 1000);
    assert!(m.add_l2_block(block(999, false)));
    assert!(m.can_add_forced_inclusion());
    assert!(matches!(m.forced_inclusion_step(ForcedInclusionEvent::Start), ForcedInclusionAction::Consume));
    let action = m.forced_inclusion_step(ForcedInclusionEvent::Consumed {
        forced_inclusion: Some(vec![vec![0xf8, 0x01], vec![0xf8, 0x02]]),
        parent_timestamp: 999,
        parent_gas_limit_without_anchor: 45_000_000,
    });
    assert!(matches!(action, ForcedInclusionAction::AdvanceHead));
    assert_eq!(
        m.current_last_block(),
        Some(&ProposalBlock {
            timestamp_sec: 1000,
            gas_limit_without_anchor: 45_000_000,
            transactions: vec![vec![0xf8, 0x01], vec![0xf8, 0x02]],
            is_forced_inclusion: true,
            coinbase: None,
        })
    );
    assert!(m.has_current_forced_inclusion());
    assert_eq!(m.get_current_proposal_last_block_timestamp(), Some(1000));
    assert!(matches!(m.forced_inclusion_step(ForcedInclusionEvent::HeadAdvanced), ForcedInclusionAction::Done));
    // The limit of one forced inclusion per proposal is reached.
    assert!(!m.can_add_forced_inclusion());
    assert!(matches!(m.forced_inclusion_step(ForcedInclusionEvent::Start), ForcedInclusionAction::Skip));
}

#[test]
fn empty_forced_inclusion_queue_skips() {
    let mut m = manager();
    m.create_new_proposal(1, 100, 1000);
    let action = m.forced_inclusion_step(ForcedInclusionEvent::Consumed {
        forced_inclusion: None,
        parent_timestamp: 5,
        parent_gas_limit_without_anchor: 1,
    });
    assert!(matches!(action, ForcedInclusionAction::Skip));
    assert_eq!(m.get_current_proposal_last_block_timestamp(), None);
}

#[test]
fn failed_forced_inclusion_is_rolled_back() {
    let mut m = manager();
    m.create_new_proposal(1, 100, 1000);
    assert!(m.add_l2_block(block(998, false)));
    let _ = m.forced_inclusion_step(ForcedInclusionEvent::Consumed {
        forced_inclusion: Some(vec![vec![1]]),
        parent_timestamp: 998,
        parent_gas_limit_without_anchor: 7,
    });
    assert!(m.has_current_forced_inclusion());
    let action = m.forced_inclusion_step(ForcedInclusionEvent::AdvanceFailed { error: "driver down".to_string() });
    match action {
        ForcedInclusionAction::ReleaseAndFail(e) => assert_eq!(
            e.message(),
            "Failed to advance head to new forced inclusion L2 block: driver down"
        ),
        _ => panic!("expected a failure"),
    }
    assert!(!m.has_current_forced_inclusion());
    assert_eq!(m.get_current_proposal_last_block_timestamp(), Some(998));
    assert!(m.can_add_forced_inclusion());
}

#[test]
fn recovery_parent_is_given_or_fetched() {
    let info = RecoveredBlockInfo { proposal_id: 3, timestamp: 1000 };
    assert_eq!(recovery_parent(10, Some(info)).unwrap(), RecoveryParent::Known(info));
    assert_eq!(recovery_parent(10, None).unwrap(), RecoveryParent::Fetch(9));
    assert_eq!(
        recovery_parent(0, None).unwrap_err().message(),
        "recover_from_l2_block: parent_info must be provided for genesis (block_height == 0)"
    );
    assert_eq!(parent_from_fetched(10, 4, info).unwrap(), info);
    assert_eq!(
        parent_from_fetched(10, 3, info).unwrap_err().message(),
        "recover_from_l2_block: proposal ID validation failed at the first recovered block 10: proposal_id=3 parent_proposal_id=3"
    );
}

#[test]
fn recovered_block_checks_in_order() {
    let m = manager();
    let parent = RecoveredBlockInfo { proposal_id: 3, timestamp: 1000 };
    let txs = vec![vec![0xaa], vec![0x01], vec![0x02]];
    let ok = m.check_recovered_block(10, 4, 1001, parent, Some(txs), 1_000_000, 1_000, [7u8; 20], 2000).unwrap();
    assert_eq!(
        ok,
        RecoveredBlock {
            info: RecoveredBlockInfo { proposal_id: 4, timestamp: 1001 },
            gas_limit_without_anchor: 999_000,
            coinbase: [7u8; 20],
            transactions: vec![vec![0x01], vec![0x02]],
        }
    );
    // The timestamp is checked first.
    assert_eq!(
        m.check_recovered_block(10, 9, 1000, parent, None, 0, 1_000, [0u8; 20], 2000).unwrap_err().message(),
        "Derivation timestamp validation failed at block 10: timestamp=1000, lower_bound=1001, upper_bound(now)=2000, parent_timestamp=1000"
    );
    assert_eq!(
        m.check_recovered_block(10, 9, 1001, parent, None, 0, 1_000, [0u8; 20], 2000).unwrap_err().message(),
        "Proposal ID validation failed at block 10: proposal_id=9 parent_proposal_id=3"
    );
    assert_eq!(
        m.check_recovered_block(10, 3, 1001, parent, None, 0, 1_000, [0u8; 20], 2000).unwrap_err().message(),
        "recover_from_l2_block: No transactions in block"
    );
    assert_eq!(
        m.check_recovered_block(10, 3, 1001, parent, Some(vec![]), 0, 1_000, [0u8; 20], 2000).unwrap_err().message(),
        "recover_from_l2_block: Cannot get anchor transaction from block"
    );
    assert_eq!(
        m.check_recovered_block(10, 3, 1001, parent, Some(vec![vec![0xaa]]), 10, 1_000, [0u8; 20], 2000)
            .unwrap_err()
            .message(),
        "block header gas limit 10 is less than ANCHOR_V3_V4_GAS_LIMIT 1000"
    );
}

#[test]
fn recovered_block_checks_against_the_clock() {
    let m = manager();
    let now = std::time::SystemTime::now()
        .duration_since(std::time::UNIX_EPOCH)
        .unwrap()
        .as_secs();
    let parent = RecoveredBlockInfo { proposal_id: 3, timestamp: now - 20 };
    let b = m.check_recovered_block_now(10, 4, now - 10, parent, Some(vec![vec![0xaa]]), 5_000, 1_000, [1u8; 20]).unwrap();
    assert_eq!(b.gas_limit_without_anchor, 4_000);
    assert!(b.transactions.is_empty());
    assert!(m
        .check_recovered_block_now(10, 4, u64::MAX - 1, parent, Some(vec![vec![0xaa]]), 5_000, 1_000, [1u8; 20])
        .is_err());
}

#[test]
fn recovered_blocks_rebuild_the_proposals() {
    let mut m = manager();
    let parent = RecoveredBlockInfo { proposal_id: 3, timestamp: 1000 };
    let first = m
        .check_recovered_block(10, 4, 1001, parent, Some(vec![vec![0xaa], vec![0x01]]), 1_000_000, 1_000, [7u8; 20], 2000)
        .unwrap();
    let info = m.add_recovered_block(first, 55, false);
    assert_eq!(info, RecoveredBlockInfo { proposal_id: 4, timestamp: 1001 });
    assert_eq!(
        m.current_last_block(),
        Some(&ProposalBlock {
            timestamp_sec: 1001,
            gas_limit_without_anchor: 999_000,
            transactions: vec![vec![0x01]],
            is_forced_inclusion: false,
            coinbase: Some([7u8; 20]),
        })
    );
    // A block of the same proposal joins it.
    let second = m
        .check_recovered_block(11, 4, 1002, info, Some(vec![vec![0xaa]]), 1_000_000, 1_000, [7u8; 20], 2000)
        .unwrap();
    let info = m.add_recovered_block(second, 56, true);
    assert!(m.has_current_forced_inclusion());
    assert_eq!(m.get_number_of_proposals(), 1);
    // A block of the next proposal closes the first one.
    let third = m
        .check_recovered_block(12, 5, 1003, info, Some(vec![vec![0xaa], vec![0x03]]), 1_000_000, 1_000, [8u8; 20], 2000)
        .unwrap();
    m.add_recovered_block(third, 57, false);
    assert_eq!(m.get_number_of_proposals(), 2);
    assert_eq!(m.next_proposal_id_from_current(), Some(6));
    m.try_finalize_current_proposal();
    let taken = m.take_proposals_to_send();
    assert_eq!(taken[0].id, 4);
    assert_eq!(taken[0].anchor_block_id, 55);
    assert_eq!(taken[0].blocks.len(), 2);
    assert_eq!(taken[1].id, 5);
    assert_eq!(taken[1].anchor_block_id, 57);
    assert_eq!(taken[1].l2_slot_timestamp, 1003);
    assert_eq!(taken[1].blocks[0].transactions, vec![vec![0x03]]);
}

#[test]
fn failed_draft_block_is_rolled_back() {
    let mut m = manager();
    m.create_new_proposal(1, 100, 1000);
    assert!(m.add_l2_block(block(10, false)));
    assert!(m.add_l2_block(block(11, false)));
    let e = m.rollback_draft_block("engine timeout");
    assert_eq!(e.message(), "Failed to advance head to new L2 block: engine timeout");
    assert_eq!(m.get_current_proposal_last_block_timestamp(), Some(10));
}

#[test]
fn anchor_transaction_is_the_first() {
    assert_eq!(anchor_transaction_hash(Some(vec![[1u8; 32], [2u8; 32]])).unwrap(), [1u8; 32]);
    assert_eq!(
        anchor_transaction_hash::<[u8; 32]>(Some(vec![])).unwrap_err().message(),
        "get_anchor_block_offset: No transactions in block"
    );
    assert_eq!(
        anchor_transaction_hash::<[u8; 32]>(None).unwrap_err().message(),
        "get_anchor_block_offset: No transactions in block"
    );
}
