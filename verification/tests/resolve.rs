use reth_provider::error::{ProviderError, RethError, RethResult};
use reth_provider::primitives::{
    Address, Block, BlockHash, BlockHashOrNumber, BlockNumHash, BlockSource, Bloom, ChainInfo,
    Header, HeaderHasher, Receipt, RpcBlockHash, SealedBlock, SealedHeader, Withdrawal, H256, U256,
};
use reth_provider::resolve::{
    asks_tree, asks_tree_for_receipts, found_block, found_receipts, header_not_found, number_of,
    seal_found, source_of, tip_header, unsealed_block, unsealed_header,
};
use reth_provider::state::{
    bundle_state, stored_or_pending, stored_state, BundleStateProvider, StateProviderBox,
};
use std::sync::Arc;

fn h(byte: u8) -> H256 {
    H256([byte; 32])
}

fn header(number: u64) -> Header {
    Header {
        parent_hash: h(1),
        ommers_hash: h(2),
        beneficiary: Address([3; 20]),
        state_root: h(4),
        transactions_root: h(5),
        receipts_root: h(6),
        withdrawals_root: None,
        logs_bloom: Bloom([0; 256]),
        difficulty: U256([0; 4]),
        number,
        gas_limit: 0,
        gas_used: 0,
        timestamp: number * 12,
        mix_hash: h(7),
        nonce: 0,
        base_fee_per_gas: None,
        blob_gas_used: None,
        excess_blob_gas: None,
        parent_beacon_block_root: None,
        extra_data: Arc::new(vec![]),
    }
}

fn withdrawal() -> Withdrawal {
    Withdrawal { index: 1, validator_index: 2, address: Address([3; 20]), amount: 4 }
}

fn block(number: u64) -> Block {
    Block {
        header: header(number),
        body: vec![],
        ommers: vec![header(number - 1)],
        withdrawals: Some(vec![withdrawal()]),
    }
}

fn sealed_block(number: u64, hash: u8) -> SealedBlock {
    SealedBlock {
        header: header(number).seal(h(hash)),
        body: vec![],
        ommers: vec![header(number - 1)],
        withdrawals: Some(vec![withdrawal()]),
    }
}

fn receipts(gas: u64) -> Vec<Receipt> {
    vec![Receipt { tx_type: 2, success: true, cumulative_gas_used: gas, logs: vec![] }]
}

fn failure() -> RethError {
    RethError::Custom("disk".to_string())
}

fn name(require_canonical: Option<bool>) -> RpcBlockHash {
    RpcBlockHash { block_hash: h(9), require_canonical }
}

struct NumberHasher;

impl HeaderHasher for NumberHasher {
    fn spec_hash_slow(header: Header) -> BlockHash {
        h(header.number as u8 + 100)
    }

    fn hash_slow(header: &Header) -> BlockHash {
        h(header.number as u8 + 100)
    }
}

#[test]
fn the_missing_header_is_named_by_its_number() {
    assert_eq!(
        header_not_found(17),
        RethError::Provider(ProviderError::HeaderNotFound(BlockHashOrNumber::Number(17)))
    );
}

#[test]
fn the_tip_is_sealed_with_the_known_hash() {
    let best = ChainInfo { best_hash: h(42), best_number: 17 };
    assert_eq!(
        tip_header(best, Ok(Some(header(17)))),
        Ok(SealedHeader { header: header(17), hash: h(42) })
    );
    assert_eq!(tip_header(best, Ok(None)), Err(header_not_found(17)));
    assert_eq!(tip_header(best, Err(failure())), Err(failure()));
}

#[test]
fn unsealing_drops_the_hash() {
    assert_eq!(unsealed_header(Some(header(3).seal(h(1)))), Some(header(3)));
    assert_eq!(unsealed_header(None), None);
    assert_eq!(unsealed_block(Some(sealed_block(3, 1))), Some(block(3)));
    assert_eq!(unsealed_block(None), None);
}

#[test]
fn found_headers_are_hashed() {
    assert_eq!(
        seal_found::<NumberHasher>(Ok(Some(header(5)))),
        Ok(Some(SealedHeader { header: header(5), hash: h(105) }))
    );
    assert_eq!(seal_found::<NumberHasher>(Ok(None)), Ok(None));
    assert_eq!(seal_found::<NumberHasher>(Err(failure())), Err(failure()));
}

#[test]
fn the_tree_is_asked_where_the_database_is_not_enough() {
    let answers: [RethResult<Option<Block>>; 3] = [Ok(Some(block(3))), Ok(None), Err(failure())];
    let asked = |source| answers.iter().map(|a| asks_tree(source, a)).collect::<Vec<_>>();
    assert_eq!(asked(BlockSource::Any), [false, true, false]);
    assert_eq!(asked(BlockSource::Pending), [true, true, true]);
    assert_eq!(asked(BlockSource::Database), [false, false, false]);
}

#[test]
fn blocks_are_merged_by_source() {
    let tree = || Some(sealed_block(4, 40));
    assert_eq!(found_block(BlockSource::Any, Ok(Some(block(3))), tree()), Ok(Some(block(3))));
    assert_eq!(found_block(BlockSource::Any, Ok(None), tree()), Ok(Some(block(4))));
    assert_eq!(found_block(BlockSource::Any, Ok(None), None), Ok(None));
    assert_eq!(found_block(BlockSource::Any, Err(failure()), tree()), Err(failure()));
    assert_eq!(found_block(BlockSource::Pending, Ok(Some(block(3))), tree()), Ok(Some(block(4))));
    assert_eq!(found_block(BlockSource::Pending, Err(failure()), None), Ok(None));
    assert_eq!(found_block(BlockSource::Database, Ok(None), tree()), Ok(None));
    assert_eq!(found_block(BlockSource::Database, Ok(Some(block(3))), tree()), Ok(Some(block(3))));
    assert_eq!(found_block(BlockSource::Database, Err(failure()), tree()), Err(failure()));
}

#[test]
fn only_a_demand_restricts_the_source() {
    assert_eq!(source_of(name(Some(true))), BlockSource::Database);
    assert_eq!(source_of(name(Some(false))), BlockSource::Any);
    assert_eq!(source_of(name(None)), BlockSource::Any);
}

#[test]
fn receipts_are_merged_by_demand() {
    assert!(!asks_tree_for_receipts(name(Some(true)), &Ok(None)));
    assert!(asks_tree_for_receipts(name(Some(false)), &Ok(None)));
    assert!(asks_tree_for_receipts(name(None), &Ok(None)));
    assert!(!asks_tree_for_receipts(name(None), &Ok(Some(receipts(1)))));
    assert!(!asks_tree_for_receipts(name(None), &Err(failure())));
    let tree = || Some(receipts(2));
    assert_eq!(found_receipts(name(None), Ok(None), tree()), Ok(tree()));
    assert_eq!(found_receipts(name(None), Ok(None), None), Ok(None));
    assert_eq!(found_receipts(name(Some(true)), Ok(None), tree()), Ok(None));
    assert_eq!(
        found_receipts(name(None), Ok(Some(receipts(1))), tree()),
        Ok(Some(receipts(1)))
    );
    assert_eq!(found_receipts(name(None), Err(failure()), tree()), Err(failure()));
}

#[test]
fn numbers_of_blocks() {
    assert_eq!(number_of(Some(BlockNumHash { number: 8, hash: h(1) })), Some(8));
    assert_eq!(number_of(None), None);
}

#[test]
fn states_are_wrapped() {
    let stored: RethResult<StateProviderBox<u32, u32>> = stored_state(Ok(5));
    assert!(matches!(stored, Ok(StateProviderBox::Stored(5))));
    let failed: RethResult<StateProviderBox<u32, u32>> = stored_state(Err(failure()));
    assert!(matches!(failed, Err(e) if e == failure()));
    let bundled = bundle_state(Ok(5u32), 6u32);
    assert!(matches!(
        bundled,
        Ok(StateProviderBox::Bundle(BundleStateProvider { state_provider: 5, post_state_data: 6 }))
    ));
    let failed = bundle_state::<u32, u32>(Err(failure()), 6);
    assert!(matches!(failed, Err(e) if e == failure()));
}

#[test]
fn the_stored_state_comes_first() {
    let other = || RethError::Custom("tree".to_string());
    assert_eq!(stored_or_pending(Ok(1), Ok(Some(2))), Ok(1));
    assert_eq!(stored_or_pending(Ok(1), Err(other())), Ok(1));
    assert_eq!(stored_or_pending(Err(failure()), Ok(Some(2))), Ok(2));
    assert_eq!(stored_or_pending::<u32>(Err(failure()), Ok(None)), Err(failure()));
    assert_eq!(stored_or_pending::<u32>(Err(failure()), Err(other())), Err(failure()));
}
