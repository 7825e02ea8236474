use reth_provider::chain_info::ChainInfoTracker;
use reth_provider::primitives::{
    Address, BlockNumHash, Bloom, ChainInfo, Header, SealedHeader, H256, U256,
};
use std::sync::Arc;
use std::time::{Duration, Instant};

fn sealed(number: u64, hash: u8) -> SealedHeader {
    let header = Header {
        parent_hash: H256([1; 32]),
        ommers_hash: H256([2; 32]),
        beneficiary: Address([3; 20]),
        state_root: H256([4; 32]),
        transactions_root: H256([5; 32]),
        receipts_root: H256([6; 32]),
        withdrawals_root: Some(H256([7; 32])),
        logs_bloom: Bloom([8; 256]),
        difficulty: U256([9, 0, 0, 0]),
        number,
        gas_limit: 30_000_000,
        gas_used: 21_000,
        timestamp: 1_700_000_000,
        mix_hash: H256([10; 32]),
        nonce: 11,
        base_fee_per_gas: Some(12),
        blob_gas_used: Some(13),
        excess_blob_gas: None,
        parent_beacon_block_root: Some(H256([14; 32])),
        extra_data: Arc::new(vec![15, 16]),
    };
    header.seal(H256([hash; 32]))
}

#[test]
fn sealing_keeps_the_header_and_takes_the_hash() {
    let header = sealed(7, 70);
    assert_eq!(header.hash, H256([70; 32]));
    assert_eq!(header.num_hash(), BlockNumHash { number: 7, hash: H256([70; 32]) });
    assert_eq!(header.clone(), header);
    assert_eq!(header.clone().unseal(), header.header);
}

#[test]
fn a_new_tracker_knows_only_its_head() {
    let tracker = ChainInfoTracker::new(sealed(5, 50));
    assert_eq!(tracker.chain_info(), ChainInfo { best_hash: H256([50; 32]), best_number: 5 });
    assert_eq!(tracker.get_canonical_head(), sealed(5, 50));
    assert_eq!(tracker.get_canonical_block_number(), 5);
    assert_eq!(tracker.get_safe_header(), None);
    assert_eq!(tracker.get_safe_num_hash(), None);
    assert_eq!(tracker.get_finalized_header(), None);
    assert_eq!(tracker.get_finalized_num_hash(), None);
    assert_eq!(tracker.last_forkchoice_update_received_at(), None);
    assert_eq!(tracker.last_transition_configuration_exchanged_at(), None);
}

#[test]
fn each_head_is_set_alone() {
    let mut tracker = ChainInfoTracker::new(sealed(5, 50));
    tracker.set_safe(sealed(4, 40));
    assert_eq!(tracker.get_safe_header(), Some(sealed(4, 40)));
    assert_eq!(tracker.get_finalized_header(), None);
    assert_eq!(tracker.get_canonical_head(), sealed(5, 50));
    tracker.set_finalized(sealed(3, 30));
    assert_eq!(
        tracker.get_finalized_num_hash(),
        Some(BlockNumHash { number: 3, hash: H256([30; 32]) })
    );
    assert_eq!(
        tracker.get_safe_num_hash(),
        Some(BlockNumHash { number: 4, hash: H256([40; 32]) })
    );
    tracker.set_canonical_head(sealed(2, 20));
    assert_eq!(tracker.get_canonical_block_number(), 2);
    assert_eq!(tracker.chain_info(), ChainInfo { best_hash: H256([20; 32]), best_number: 2 });
    assert_eq!(tracker.get_safe_header(), Some(sealed(4, 40)));
    assert_eq!(tracker.get_finalized_header(), Some(sealed(3, 30)));
    tracker.set_safe(sealed(6, 60));
    assert_eq!(tracker.get_safe_header(), Some(sealed(6, 60)));
}

#[test]
fn timestamps_are_recorded_apart() {
    let mut tracker = ChainInfoTracker::new(sealed(5, 50));
    let at = Instant::now();
    tracker.record_forkchoice_update(at);
    assert_eq!(tracker.last_forkchoice_update_received_at(), Some(at));
    assert_eq!(tracker.last_transition_configuration_exchanged_at(), None);
    let later = at + Duration::from_secs(1);
    tracker.record_transition_configuration_exchange(later);
    assert_eq!(tracker.last_forkchoice_update_received_at(), Some(at));
    assert_eq!(tracker.last_transition_configuration_exchanged_at(), Some(later));
}

#[test]
fn the_clock_is_read_when_something_arrives() {
    let mut tracker = ChainInfoTracker::new(sealed(5, 50));
    let before = Instant::now();
    tracker.on_forkchoice_update_received();
    tracker.on_transition_configuration_exchanged();
    let after = Instant::now();
    let update = tracker.last_forkchoice_update_received_at().unwrap();
    let exchange = tracker.last_transition_configuration_exchanged_at().unwrap();
    assert!(before <= update && update <= exchange && exchange <= after);
}
