use reth_provider::database::{Database, ProviderFactory};
use reth_provider::error::{ProviderError, RethError, RethResult};
use reth_provider::primitives::{
    Account, AccountBeforeTx, Address, Block, BlockEnv, BlockHash, BlockHashOrNumber, BlockId,
    BlockNumHash, BlockNumber, BlockNumberOrTag, BlockSource, BlockStatus, BlockWithSenders, Bloom,
    CanonicalOutcome, CfgEnv, ChainInfo, ChainSpec, ForkchoiceState, Header, HeaderHasher,
    InsertBlockError, InsertPayloadOk, NumberRange, PruneCheckpoint, PruneMode, PrunePart,
    RangeEnd, Receipt, RpcBlockHash, SealedBlock, SealedBlockWithSenders, SealedHeader,
    StageCheckpoint, StageId, StoredBlockBodyIndices, TransactionMeta, TransactionSigned,
    TransactionSignedNoHash, TxHash, TxNumber, Withdrawal, H256, U256,
};
use reth_provider::provider::BlockchainProvider;
use reth_provider::state::StateProviderBox;
use reth_provider::traits::{
    AccountReader, BlockHashReader, BlockIdReader, BlockNumReader, BlockReader, BlockReaderIdExt,
    BlockchainTreeEngine, BlockchainTreePendingStateProvider, BlockchainTreeViewer,
    BundleStateDataProvider, CanonChainTracker, CanonStateSubscriptions, ChainSpecProvider,
    ChangeSetReader, EvmEnvProvider, HeaderProvider, PruneCheckpointReader, ReceiptProvider,
    ReceiptProviderIdExt, StageCheckpointReader, StateProviderFactory, TransactionsProvider,
    WithdrawalsProvider,
};
use std::cell::RefCell;
use std::collections::{BTreeMap, HashSet};
use std::rc::Rc;
use std::sync::Arc;
use std::time::Instant;

type Log = Rc<RefCell<Vec<String>>>;

fn h(byte: u8) -> H256 {
    H256([byte; 32])
}

fn note(log: &Log, call: String) {
    log.borrow_mut().push(call);
}

fn header(number: u64) -> Header {
    Header {
        parent_hash: h(1),
        ommers_hash: h(2),
        beneficiary: Address([3; 20]),
        state_root: h(4),
        transactions_root: h(5),
        receipts_root: h(6),
        withdrawals_root: None,
        logs_bloom: Bloom([0; 256]),
        difficulty: U256([0; 4]),
        number,
        gas_limit: 0,
        gas_used: 0,
        timestamp: number * 12,
        mix_hash: h(7),
        nonce: 0,
        base_fee_per_gas: None,
        blob_gas_used: None,
        excess_blob_gas: None,
        parent_beacon_block_root: None,
        extra_data: Arc::new(vec![]),
    }
}

fn sealed(number: u64, hash: u8) -> SealedHeader {
    header(number).seal(h(hash))
}

fn block(number: u64) -> Block {
    Block { header: header(number), body: vec![], ommers: vec![], withdrawals: None }
}

fn sealed_block(number: u64, hash: u8) -> SealedBlock {
    SealedBlock { header: sealed(number, hash), body: vec![], ommers: vec![], withdrawals: None }
}

fn with_senders(number: u64, hash: u8) -> SealedBlockWithSenders {
    SealedBlockWithSenders { block: sealed_block(number, hash), senders: vec![Address([1; 20])] }
}

fn transaction(hash: u8) -> TransactionSigned {
    TransactionSigned { hash: h(hash), encoded: Arc::new(vec![hash]) }
}

fn no_hash(byte: u8) -> TransactionSignedNoHash {
    TransactionSignedNoHash { encoded: Arc::new(vec![byte]) }
}

fn receipt(gas: u64) -> Receipt {
    Receipt { tx_type: 2, success: true, cumulative_gas_used: gas, logs: vec![] }
}

fn withdrawal(index: u64) -> Withdrawal {
    Withdrawal { index, validator_index: 2, address: Address([3; 20]), amount: 4 }
}

fn u256(value: u64) -> U256 {
    U256([value, 0, 0, 0])
}

fn not_found(number: u64) -> RethError {
    RethError::Provider(ProviderError::HeaderNotFound(BlockHashOrNumber::Number(number)))
}

fn failure(words: &str) -> RethError {
    RethError::Custom(words.to_string())
}

/// What the database holds.
#[derive(Clone)]
struct Data {
    best: RethResult<ChainInfo>,
    headers: BTreeMap<u64, Header>,
    headers_by_hash: BTreeMap<H256, Header>,
    blocks: BTreeMap<H256, Block>,
    receipts: BTreeMap<H256, Vec<Receipt>>,
    histories: HashSet<H256>,
    broken: bool,
}

impl Data {
    fn new() -> Self {
        Data {
            best: Ok(ChainInfo { best_hash: h(90), best_number: 9 }),
            headers: (0..=9).map(|number| (number, header(number))).collect(),
            headers_by_hash: BTreeMap::from([(h(80), header(8))]),
            blocks: BTreeMap::from([(h(80), block(8))]),
            receipts: BTreeMap::from([(h(80), vec![receipt(80)])]),
            histories: HashSet::from([h(80), h(70)]),
            broken: false,
        }
    }
}

struct MockDb {
    data: Data,
    log: Log,
}

struct MockProvider {
    data: Data,
    log: Log,
}

struct NumberHasher;

impl HeaderHasher for NumberHasher {
    fn spec_hash_slow(header: Header) -> BlockHash {
        h(header.number as u8 + 100)
    }

    fn hash_slow(header: &Header) -> BlockHash {
        h(header.number as u8 + 100)
    }
}

impl Database for MockDb {
    type Provider = MockProvider;
    type State = String;
    type Hasher = NumberHasher;

    fn provider(&self) -> RethResult<MockProvider> {
        if self.data.broken {
            return Err(failure("no read"));
        }
        Ok(MockProvider { data: self.data.clone(), log: Rc::clone(&self.log) })
    }

    fn latest(&self) -> RethResult<String> {
        note(&self.log, "latest".to_string());
        Ok("latest".to_string())
    }

    fn history_by_block_number(&self, block_number: BlockNumber) -> RethResult<String> {
        note(&self.log, format!("history {}", block_number));
        Ok(format!("at {}", block_number))
    }

    fn history_by_block_hash(&self, block_hash: BlockHash) -> RethResult<String> {
        note(&self.log, format!("history #{}", block_hash.0[0]));
        if self.data.histories.contains(&block_hash) {
            Ok(format!("at #{}", block_hash.0[0]))
        } else {
            Err(failure("no history"))
        }
    }
}

impl HeaderProvider for MockProvider {
    fn header(&self, block_hash: &BlockHash) -> RethResult<Option<Header>> {
        note(&self.log, format!("header #{}", block_hash.0[0]));
        Ok(self.data.headers_by_hash.get(block_hash).cloned())
    }

    fn header_by_number(&self, num: BlockNumber) -> RethResult<Option<Header>> {
        note(&self.log, format!("header {}", num));
        if num == 666 {
            return Err(failure("bad sector"));
        }
        Ok(self.data.headers.get(&num).cloned())
    }

    fn header_td(&self, hash: &BlockHash) -> RethResult<Option<U256>> {
        Ok(Some(u256(hash.0[0] as u64)))
    }

    fn header_td_by_number(&self, number: BlockNumber) -> RethResult<Option<U256>> {
        Ok(Some(u256(number + 1000)))
    }

    fn headers_range(&self, range: NumberRange) -> RethResult<Vec<Header>> {
        note(&self.log, format!("headers {:?}", range));
        Ok(vec![header(1), header(2)])
    }

    fn sealed_headers_range(&self, range: NumberRange) -> RethResult<Vec<SealedHeader>> {
        note(&self.log, format!("sealed headers {:?}", range));
        Ok(vec![sealed(1, 10)])
    }

    fn sealed_header(&self, number: BlockNumber) -> RethResult<Option<SealedHeader>> {
        Ok(Some(sealed(number, 33)))
    }
}

impl BlockHashReader for MockProvider {
    fn block_hash(&self, number: u64) -> RethResult<Option<H256>> {
        Ok(Some(h(number as u8)))
    }

    fn canonical_hashes_range(&self, start: u64, end: u64) -> RethResult<Vec<H256>> {
        Ok((start..end).map(|number| h(number as u8)).collect())
    }
}

impl BlockNumReader for MockProvider {
    fn chain_info(&self) -> RethResult<ChainInfo> {
        note(&self.log, "chain info".to_string());
        self.data.best.clone()
    }

    fn best_block_number(&self) -> RethResult<BlockNumber> {
        Ok(1111)
    }

    fn last_block_number(&self) -> RethResult<BlockNumber> {
        Ok(2222)
    }

    fn block_number(&self, hash: H256) -> RethResult<Option<BlockNumber>> {
        Ok(Some(hash.0[0] as u64 + 3000))
    }
}

impl BlockReader for MockProvider {
    fn find_block_by_hash(&self, _hash: H256, _source: BlockSource) -> RethResult<Option<Block>> {
        panic!("not asked")
    }

    fn block(&self, id: BlockHashOrNumber) -> RethResult<Option<Block>> {
        note(&self.log, format!("block {}", short(id)));
        match id {
            BlockHashOrNumber::Hash(hash) if hash == h(66) => Err(failure("bad block")),
            BlockHashOrNumber::Hash(hash) => Ok(self.data.blocks.get(&hash).cloned()),
            BlockHashOrNumber::Number(number) if number <= 9 => Ok(Some(block(number))),
            BlockHashOrNumber::Number(_) => Ok(None),
        }
    }

    fn pending_block(&self) -> RethResult<Option<SealedBlock>> {
        panic!("not asked")
    }

    fn pending_block_and_receipts(&self) -> RethResult<Option<(SealedBlock, Vec<Receipt>)>> {
        panic!("not asked")
    }

    fn ommers(&self, id: BlockHashOrNumber) -> RethResult<Option<Vec<Header>>> {
        note(&self.log, format!("ommers {}", short(id)));
        Ok(Some(vec![header(4)]))
    }

    fn block_body_indices(
        &self,
        number: BlockNumber,
    ) -> RethResult<Option<StoredBlockBodyIndices>> {
        Ok(Some(StoredBlockBodyIndices { first_tx_num: number * 10, tx_count: 3 }))
    }

    fn block_with_senders(&self, number: BlockNumber) -> RethResult<Option<BlockWithSenders>> {
        Ok(Some(BlockWithSenders { block: block(number), senders: vec![Address([9; 20])] }))
    }
}

fn short(id: BlockHashOrNumber) -> String {
    match id {
        BlockHashOrNumber::Hash(hash) => format!("#{}", hash.0[0]),
        BlockHashOrNumber::Number(number) => format!("{}", number),
    }
}

impl TransactionsProvider for MockProvider {
    fn transaction_id(&self, tx_hash: TxHash) -> RethResult<Option<TxNumber>> {
        Ok(Some(tx_hash.0[0] as u64 + 1))
    }

    fn transaction_by_id(&self, id: TxNumber) -> RethResult<Option<TransactionSigned>> {
        Ok(Some(transaction(id as u8 + 2)))
    }

    fn transaction_by_id_no_hash(
        &self,
        id: TxNumber,
    ) -> RethResult<Option<TransactionSignedNoHash>> {
        Ok(Some(no_hash(id as u8 + 3)))
    }

    fn transaction_by_hash(&self, hash: TxHash) -> RethResult<Option<TransactionSigned>> {
        Ok(Some(transaction(hash.0[0] + 4)))
    }

    fn transaction_by_hash_with_meta(
        &self,
        tx_hash: TxHash,
    ) -> RethResult<Option<(TransactionSigned, TransactionMeta)>> {
        Ok(Some((transaction(tx_hash.0[0] + 5), meta(tx_hash))))
    }

    fn transaction_block(&self, id: TxNumber) -> RethResult<Option<BlockNumber>> {
        Ok(Some(id + 6))
    }

    fn transactions_by_block(
        &self,
        id: BlockHashOrNumber,
    ) -> RethResult<Option<Vec<TransactionSigned>>> {
        note(&self.log, format!("transactions {}", short(id)));
        Ok(Some(vec![transaction(7)]))
    }

    fn transactions_by_block_range(
        &self,
        range: NumberRange,
    ) -> RethResult<Vec<Vec<TransactionSigned>>> {
        note(&self.log, format!("transactions {:?}", range));
        Ok(vec![vec![transaction(8)], vec![]])
    }

    fn transactions_by_tx_range(
        &self,
        range: NumberRange,
    ) -> RethResult<Vec<TransactionSignedNoHash>> {
        note(&self.log, format!("numbered {:?}", range));
        Ok(vec![no_hash(9)])
    }

    fn senders_by_tx_range(&self, range: NumberRange) -> RethResult<Vec<Address>> {
        note(&self.log, format!("senders {:?}", range));
        Ok(vec![Address([10; 20])])
    }

    fn transaction_sender(&self, id: TxNumber) -> RethResult<Option<Address>> {
        Ok(Some(Address([id as u8 + 11; 20])))
    }
}

fn meta(tx_hash: TxHash) -> TransactionMeta {
    TransactionMeta {
        tx_hash,
        index: 1,
        block_hash: h(80),
        block_number: 8,
        base_fee: Some(7),
        excess_blob_gas: None,
    }
}

impl ReceiptProvider for MockProvider {
    fn receipt(&self, id: TxNumber) -> RethResult<Option<Receipt>> {
        Ok(Some(receipt(id + 1)))
    }

    fn receipt_by_hash(&self, hash: TxHash) -> RethResult<Option<Receipt>> {
        Ok(Some(receipt(hash.0[0] as u64 + 2)))
    }

    fn receipts_by_block(&self, id: BlockHashOrNumber) -> RethResult<Option<Vec<Receipt>>> {
        note(&self.log, format!("receipts {}", short(id)));
        match id {
            BlockHashOrNumber::Hash(hash) if hash == h(66) => Err(failure("bad receipts")),
            BlockHashOrNumber::Hash(hash) => Ok(self.data.receipts.get(&hash).cloned()),
            BlockHashOrNumber::Number(number) => Ok(Some(vec![receipt(number)])),
        }
    }
}

impl WithdrawalsProvider for MockProvider {
    fn withdrawals_by_block(
        &self,
        id: BlockHashOrNumber,
        timestamp: u64,
    ) -> RethResult<Option<Vec<Withdrawal>>> {
        note(&self.log, format!("withdrawals {} {}", short(id), timestamp));
        Ok(Some(vec![withdrawal(1)]))
    }

    fn latest_withdrawal(&self) -> RethResult<Option<Withdrawal>> {
        Ok(Some(withdrawal(2)))
    }
}

impl StageCheckpointReader for MockProvider {
    fn get_stage_checkpoint(&self, id: StageId) -> RethResult<Option<StageCheckpoint>> {
        note(&self.log, format!("stage {}", id.name));
        Ok(Some(StageCheckpoint { block_number: 5, stage_checkpoint: None }))
    }

    fn get_stage_checkpoint_progress(&self, id: StageId) -> RethResult<Option<Vec<u8>>> {
        note(&self.log, format!("progress {}", id.name));
        Ok(Some(vec![1, 2, 3]))
    }
}

impl EvmEnvProvider for MockProvider {
    fn fill_env_at(
        &self,
        cfg: &mut CfgEnv,
        block_env: &mut BlockEnv,
        at: BlockHashOrNumber,
    ) -> RethResult<()> {
        note(&self.log, format!("env {}", short(at)));
        cfg.spec_id = 1;
        block_env.number = u256(1);
        Ok(())
    }

    fn fill_env_with_header(
        &self,
        cfg: &mut CfgEnv,
        block_env: &mut BlockEnv,
        header: &Header,
    ) -> RethResult<()> {
        cfg.spec_id = 2;
        block_env.number = u256(header.number);
        Err(failure("half filled"))
    }

    fn fill_block_env_at(&self, block_env: &mut BlockEnv, at: BlockHashOrNumber) -> RethResult<()> {
        note(&self.log, format!("block env {}", short(at)));
        block_env.number = u256(3);
        Ok(())
    }

    fn fill_block_env_with_header(
        &self,
        block_env: &mut BlockEnv,
        header: &Header,
    ) -> RethResult<()> {
        block_env.timestamp = u256(header.timestamp);
        Ok(())
    }

    fn fill_cfg_env_at(&self, cfg: &mut CfgEnv, at: BlockHashOrNumber) -> RethResult<()> {
        note(&self.log, format!("cfg env {}", short(at)));
        cfg.spec_id = 5;
        Ok(())
    }

    fn fill_cfg_env_with_header(&self, cfg: &mut CfgEnv, header: &Header) -> RethResult<()> {
        cfg.chain_id = header.number;
        Ok(())
    }
}

impl PruneCheckpointReader for MockProvider {
    fn get_prune_checkpoint(&self, part: PrunePart) -> RethResult<Option<PruneCheckpoint>> {
        note(&self.log, format!("prune {:?}", part));
        Ok(Some(prune_checkpoint()))
    }
}

fn prune_checkpoint() -> PruneCheckpoint {
    PruneCheckpoint { block_number: Some(4), tx_number: None, prune_mode: PruneMode::Distance(64) }
}

impl ChangeSetReader for MockProvider {
    fn account_block_changeset(
        &self,
        block_number: BlockNumber,
    ) -> RethResult<Vec<AccountBeforeTx>> {
        Ok(vec![AccountBeforeTx { address: Address([block_number as u8; 20]), info: None }])
    }
}

impl AccountReader for MockProvider {
    fn basic_account(&self, address: Address) -> RethResult<Option<Account>> {
        Ok(Some(account(address.0[0] as u64)))
    }
}

fn account(nonce: u64) -> Account {
    Account { nonce, balance: u256(nonce + 1), bytecode_hash: None }
}

/// The changes of a side chain that forks off the block with this hash.
#[derive(Debug, Clone, Copy, PartialEq, Eq)]
struct Fork(u8);

impl BundleStateDataProvider for Fork {
    fn canonical_fork(&self) -> BlockNumHash {
        BlockNumHash { number: 7, hash: h(self.0) }
    }
}

struct MockTree {
    pending: Option<BlockNumHash>,
    blocks: BTreeMap<H256, SealedBlock>,
    bundles: BTreeMap<H256, Fork>,
    log: Log,
}

impl BlockchainTreeViewer for MockTree {
    fn blocks(&self) -> BTreeMap<BlockNumber, HashSet<BlockHash>> {
        BTreeMap::from([(10, HashSet::from([h(10), h(11)]))])
    }

    fn header_by_hash(&self, hash: BlockHash) -> Option<SealedHeader> {
        self.blocks.get(&hash).map(|block| block.header.clone())
    }

    fn block_by_hash(&self, block_hash: BlockHash) -> Option<SealedBlock> {
        note(&self.log, format!("tree #{}", block_hash.0[0]));
        self.blocks.get(&block_hash).cloned()
    }

    fn buffered_block_by_hash(&self, block_hash: BlockHash) -> Option<SealedBlock> {
        Some(sealed_block(20, block_hash.0[0]))
    }

    fn buffered_header_by_hash(&self, block_hash: BlockHash) -> Option<SealedHeader> {
        Some(sealed(21, block_hash.0[0]))
    }

    fn canonical_blocks(&self) -> BTreeMap<BlockNumber, BlockHash> {
        BTreeMap::from([(9, h(90))])
    }

    fn find_canonical_ancestor(&self, hash: BlockHash) -> Option<BlockHash> {
        Some(h(hash.0[0] + 1))
    }

    fn is_canonical(&self, hash: BlockHash) -> RethResult<bool> {
        if hash == h(66) {
            Err(failure("who knows"))
        } else {
            Ok(hash == h(90))
        }
    }

    fn lowest_buffered_ancestor(&self, hash: BlockHash) -> Option<SealedBlockWithSenders> {
        Some(with_senders(22, hash.0[0]))
    }

    fn canonical_tip(&self) -> BlockNumHash {
        BlockNumHash { number: 9, hash: h(90) }
    }

    fn pending_blocks(&self) -> (BlockNumber, Vec<BlockHash>) {
        (10, vec![h(100), h(101)])
    }

    fn pending_block_num_hash(&self) -> Option<BlockNumHash> {
        self.pending
    }

    fn pending_block_and_receipts(&self) -> Option<(SealedBlock, Vec<Receipt>)> {
        Some((sealed_block(10, 100), vec![receipt(100)]))
    }

    fn receipts_by_block_hash(&self, block_hash: BlockHash) -> Option<Vec<Receipt>> {
        note(&self.log, format!("tree receipts #{}", block_hash.0[0]));
        self.blocks.get(&block_hash).map(|_| vec![receipt(block_hash.0[0] as u64 * 10)])
    }
}

impl BlockchainTreeEngine for MockTree {
    fn buffer_block(&self, block: SealedBlockWithSenders) -> Result<(), InsertBlockError> {
        Err(InsertBlockError { block: block.block, reason: "full".to_string() })
    }

    fn insert_block(
        &self,
        block: SealedBlockWithSenders,
    ) -> Result<InsertPayloadOk, InsertBlockError> {
        note(&self.log, format!("insert {}", block.block.header.header.number));
        Ok(InsertPayloadOk::Inserted(BlockStatus::Valid))
    }

    fn finalize_block(&self, finalized_block: BlockNumber) {
        note(&self.log, format!("finalize {}", finalized_block));
    }

    fn connect_buffered_blocks_to_canonical_hashes_and_finalize(
        &self,
        last_finalized_block: BlockNumber,
    ) -> RethResult<()> {
        note(&self.log, format!("connect and finalize {}", last_finalized_block));
        Ok(())
    }

    fn connect_buffered_blocks_to_canonical_hashes(&self) -> RethResult<()> {
        note(&self.log, "connect".to_string());
        Err(failure("nothing buffered"))
    }

    fn make_canonical(&self, block_hash: &BlockHash) -> RethResult<CanonicalOutcome> {
        Ok(CanonicalOutcome::Committed { head: sealed(10, block_hash.0[0]) })
    }

    fn unwind(&self, unwind_to: BlockNumber) -> RethResult<()> {
        note(&self.log, format!("unwind {}", unwind_to));
        Ok(())
    }
}

impl BlockchainTreePendingStateProvider for MockTree {
    type Bundle = Fork;

    fn find_pending_state_provider(&self, block_hash: BlockHash) -> Option<Fork> {
        note(&self.log, format!("bundle #{}", block_hash.0[0]));
        self.bundles.get(&block_hash).copied()
    }
}

impl CanonStateSubscriptions for MockTree {
    type Notifications = &'static str;

    fn subscribe_to_canonical_state(&self) -> &'static str {
        "stream"
    }
}

type Provider = BlockchainProvider<MockDb, MockTree>;

fn tree(log: &Log) -> MockTree {
    MockTree {
        pending: Some(BlockNumHash { number: 10, hash: h(100) }),
        blocks: BTreeMap::from([
            (h(80), sealed_block(88, 80)),
            (h(100), sealed_block(10, 100)),
        ]),
        bundles: BTreeMap::from([(h(100), Fork(70)), (h(102), Fork(99))]),
        log: Rc::clone(log),
    }
}

fn factory(data: Data, log: &Log) -> ProviderFactory<MockDb> {
    let spec = ChainSpec { chain_id: 1, genesis_hash: Some(h(0)) };
    ProviderFactory::new(MockDb { data, log: Rc::clone(log) }, Arc::new(spec))
}

fn provider_with(data: Data) -> (Provider, Log) {
    let log = Log::default();
    (BlockchainProvider::with_latest(factory(data, &log), tree(&log), sealed(9, 90)), log)
}

fn provider() -> (Provider, Log) {
    provider_with(Data::new())
}

fn without_pending() -> (Provider, Log) {
    let log = Log::default();
    let tree = MockTree { pending: None, ..tree(&log) };
    (BlockchainProvider::with_latest(factory(Data::new(), &log), tree, sealed(9, 90)), log)
}

fn broken() -> (Provider, Log) {
    provider_with(Data { broken: true, ..Data::new() })
}

fn calls(log: &Log) -> Vec<String> {
    log.borrow_mut().drain(..).collect()
}

fn by_hash(hash: u8, require_canonical: Option<bool>) -> BlockId {
    BlockId::Hash(RpcBlockHash { block_hash: h(hash), require_canonical })
}

fn range() -> NumberRange {
    NumberRange { start: RangeEnd::Included(1), end: RangeEnd::Excluded(3) }
}

fn stored(state: RethResult<StateProviderBox<String, Fork>>) -> String {
    match state {
        Ok(StateProviderBox::Stored(state)) => state,
        other => panic!("{:?}", other),
    }
}

fn bundled(state: RethResult<StateProviderBox<String, Fork>>) -> (String, Fork) {
    match state {
        Ok(StateProviderBox::Bundle(bundle)) => (bundle.state_provider, bundle.post_state_data),
        other => panic!("{:?}", other),
    }
}

fn failed(state: RethResult<StateProviderBox<String, Fork>>) -> RethError {
    match state {
        Err(error) => error,
        other => panic!("{:?}", other),
    }
}

fn env() -> (CfgEnv, BlockEnv) {
    let cfg = CfgEnv { chain_id: 1, spec_id: 0 };
    let block_env = BlockEnv {
        number: u256(0),
        coinbase: Address([0; 20]),
        timestamp: u256(0),
        gas_limit: u256(0),
        basefee: u256(0),
        difficulty: u256(0),
        prevrandao: None,
    };
    (cfg, block_env)
}

#[test]
fn starts_at_the_given_head() {
    let (provider, log) = provider();
    assert_eq!(
        BlockNumReader::chain_info(&provider),
        Ok(ChainInfo { best_hash: h(90), best_number: 9 })
    );
    assert_eq!(provider.best_block_number(), Ok(9));
    assert_eq!(provider.safe_block_num_hash(), Ok(None));
    assert_eq!(provider.finalized_block_num_hash(), Ok(None));
    assert_eq!(provider.last_received_update_timestamp(), None);
    assert_eq!(provider.last_exchanged_transition_configuration_timestamp(), None);
    assert!(calls(&log).is_empty());
}

#[test]
fn starts_at_the_tip_of_the_database() {
    let log = Log::default();
    let provider = BlockchainProvider::new(factory(Data::new(), &log), tree(&log)).unwrap();
    assert_eq!(calls(&log), ["chain info", "header 9"]);
    assert_eq!(
        provider.sealed_header_by_number_or_tag(BlockNumberOrTag::Latest),
        Ok(Some(sealed(9, 90)))
    );
    assert_eq!(provider.safe_block_num_hash(), Ok(None));
}

#[test]
fn does_not_start_without_the_header_of_the_tip() {
    let log = Log::default();
    let best = Ok(ChainInfo { best_hash: h(1), best_number: 77 });
    let data = Data { best, ..Data::new() };
    let result = BlockchainProvider::new(factory(data, &log), tree(&log));
    assert_eq!(result.err(), Some(not_found(77)));
}

#[test]
fn does_not_start_when_the_database_fails() {
    let log = Log::default();
    let data = Data { broken: true, ..Data::new() };
    let result = BlockchainProvider::new(factory(data, &log), tree(&log));
    assert_eq!(result.err(), Some(failure("no read")));
    let data = Data { best: Err(failure("no tip")), ..Data::new() };
    let result = BlockchainProvider::new(factory(data, &log), tree(&log));
    assert_eq!(result.err(), Some(failure("no tip")));
    let best = Ok(ChainInfo { best_hash: h(1), best_number: 666 });
    let data = Data { best, ..Data::new() };
    let result = BlockchainProvider::new(factory(data, &log), tree(&log));
    assert_eq!(result.err(), Some(failure("bad sector")));
}

#[test]
fn canonical_numbers_end_at_the_tip() {
    let (mut provider, _) = provider();
    assert_eq!(provider.ensure_canonical_block(0), Ok(()));
    assert_eq!(provider.ensure_canonical_block(9), Ok(()));
    assert_eq!(provider.ensure_canonical_block(10), Err(not_found(10)));
    assert_eq!(provider.ensure_canonical_block(u64::MAX), Err(not_found(u64::MAX)));
    provider.set_canonical_head(sealed(10, 100));
    assert_eq!(provider.ensure_canonical_block(10), Ok(()));
}

#[test]
fn headers_come_from_the_database() {
    let (provider, log) = provider();
    assert_eq!(provider.header(&h(80)), Ok(Some(header(8))));
    assert_eq!(provider.header(&h(81)), Ok(None));
    assert_eq!(provider.header_by_number(3), Ok(Some(header(3))));
    assert_eq!(provider.header_by_number(10), Ok(None));
    assert_eq!(calls(&log), ["header #80", "header #81", "header 3", "header 10"]);
    assert_eq!(provider.header_td(&h(5)), Ok(Some(u256(5))));
    assert_eq!(provider.header_td_by_number(5), Ok(Some(u256(1005))));
    assert_eq!(provider.headers_range(range()), Ok(vec![header(1), header(2)]));
    assert_eq!(provider.sealed_headers_range(range()), Ok(vec![sealed(1, 10)]));
    assert_eq!(
        calls(&log),
        [format!("headers {:?}", range()), format!("sealed headers {:?}", range())]
    );
    assert_eq!(provider.sealed_header(6), Ok(Some(sealed(6, 33))));
    assert_eq!(provider.block_hash(4), Ok(Some(h(4))));
    assert_eq!(provider.canonical_hashes_range(2, 5), Ok(vec![h(2), h(3), h(4)]));
}

#[test]
fn numbers_come_from_the_database() {
    let (provider, _) = provider();
    assert_eq!(provider.last_block_number(), Ok(2222));
    assert_eq!(provider.block_number(h(7)), Ok(Some(3007)));
}

#[test]
fn an_unreadable_database_fails_every_reader() {
    let (provider, log) = broken();
    let error = failure("no read");
    assert_eq!(provider.header(&h(80)), Err(error.clone()));
    assert_eq!(provider.last_block_number(), Err(error.clone()));
    assert_eq!(provider.transaction_sender(1), Err(error.clone()));
    assert_eq!(provider.receipts_by_block(BlockHashOrNumber::Number(1)), Err(error.clone()));
    assert_eq!(provider.latest_withdrawal(), Err(error.clone()));
    assert_eq!(provider.basic_account(Address([1; 20])), Err(error.clone()));
    assert_eq!(
        provider.find_block_by_hash(h(100), BlockSource::Any),
        Err(error.clone())
    );
    assert_eq!(provider.block(BlockHashOrNumber::Number(1)), Err(error.clone()));
    assert_eq!(provider.sealed_header_by_id(by_hash(80, None)), Err(error));
    assert!(calls(&log).is_empty());
    assert_eq!(
        provider.find_block_by_hash(h(100), BlockSource::Pending),
        Ok(Some(block(10)))
    );
}

#[test]
fn blocks_are_looked_for_where_the_source_says() {
    let (provider, log) = provider();
    assert_eq!(provider.find_block_by_hash(h(80), BlockSource::Any), Ok(Some(block(8))));
    assert_eq!(calls(&log), ["block #80"]);
    assert_eq!(provider.find_block_by_hash(h(100), BlockSource::Any), Ok(Some(block(10))));
    assert_eq!(calls(&log), ["block #100", "tree #100"]);
    assert_eq!(provider.find_block_by_hash(h(1), BlockSource::Any), Ok(None));
    assert_eq!(calls(&log), ["block #1", "tree #1"]);
    assert_eq!(provider.find_block_by_hash(h(66), BlockSource::Any), Err(failure("bad block")));
    assert_eq!(calls(&log), ["block #66"]);
    assert_eq!(provider.find_block_by_hash(h(80), BlockSource::Pending), Ok(Some(block(88))));
    assert_eq!(calls(&log), ["tree #80"]);
    assert_eq!(provider.find_block_by_hash(h(100), BlockSource::Database), Ok(None));
    assert_eq!(calls(&log), ["block #100"]);
}

#[test]
fn blocks_by_hash_or_number() {
    let (provider, log) = provider();
    assert_eq!(provider.block(BlockHashOrNumber::Hash(h(100))), Ok(Some(block(10))));
    assert_eq!(provider.block(BlockHashOrNumber::Number(4)), Ok(Some(block(4))));
    assert_eq!(provider.block(BlockHashOrNumber::Number(10)), Ok(None));
    assert_eq!(
        calls(&log),
        ["block #100", "tree #100", "block 4", "block 10"]
    );
    assert_eq!(BlockReader::block_by_hash(&provider, h(100)), Ok(Some(block(10))));
    assert_eq!(provider.block_by_number(4), Ok(Some(block(4))));
}

#[test]
fn the_pending_block_comes_from_the_tree() {
    let (provider, _) = provider();
    assert_eq!(BlockReader::pending_block(&provider), Ok(Some(sealed_block(10, 100))));
    assert_eq!(
        BlockReader::pending_block_and_receipts(&provider),
        Ok(Some((sealed_block(10, 100), vec![receipt(100)])))
    );
    assert_eq!(
        BlockIdReader::pending_block_num_hash(&provider),
        Ok(Some(BlockNumHash { number: 10, hash: h(100) }))
    );
    let (provider, _) = without_pending();
    assert_eq!(BlockReader::pending_block(&provider), Ok(None));
    assert_eq!(BlockIdReader::pending_block_num_hash(&provider), Ok(None));
}

#[test]
fn parts_of_blocks_come_from_the_database() {
    let (provider, log) = provider();
    assert_eq!(provider.ommers(BlockHashOrNumber::Hash(h(3))), Ok(Some(vec![header(4)])));
    assert_eq!(calls(&log), ["ommers #3"]);
    assert_eq!(
        provider.block_body_indices(4),
        Ok(Some(StoredBlockBodyIndices { first_tx_num: 40, tx_count: 3 }))
    );
    assert_eq!(
        provider.block_with_senders(5),
        Ok(Some(BlockWithSenders { block: block(5), senders: vec![Address([9; 20])] }))
    );
}

#[test]
fn transactions_come_from_the_database() {
    let (provider, log) = provider();
    assert_eq!(provider.transaction_id(h(10)), Ok(Some(11)));
    assert_eq!(provider.transaction_by_id(10), Ok(Some(transaction(12))));
    assert_eq!(provider.transaction_by_id_no_hash(10), Ok(Some(no_hash(13))));
    assert_eq!(provider.transaction_by_hash(h(10)), Ok(Some(transaction(14))));
    assert_eq!(
        provider.transaction_by_hash_with_meta(h(10)),
        Ok(Some((transaction(15), meta(h(10)))))
    );
    assert_eq!(provider.transaction_block(10), Ok(Some(16)));
    assert_eq!(
        provider.transactions_by_block(BlockHashOrNumber::Number(2)),
        Ok(Some(vec![transaction(7)]))
    );
    assert_eq!(
        provider.transactions_by_block_range(range()),
        Ok(vec![vec![transaction(8)], vec![]])
    );
    assert_eq!(provider.transactions_by_tx_range(range()), Ok(vec![no_hash(9)]));
    assert_eq!(provider.senders_by_tx_range(range()), Ok(vec![Address([10; 20])]));
    assert_eq!(provider.transaction_sender(10), Ok(Some(Address([21; 20]))));
    assert_eq!(
        calls(&log),
        [
            "transactions 2".to_string(),
            format!("transactions {:?}", range()),
            format!("numbered {:?}", range()),
            format!("senders {:?}", range()),
        ]
    );
}

#[test]
fn receipts_come_from_the_database() {
    let (provider, log) = provider();
    assert_eq!(provider.receipt(5), Ok(Some(receipt(6))));
    assert_eq!(provider.receipt_by_hash(h(5)), Ok(Some(receipt(7))));
    assert_eq!(
        provider.receipts_by_block(BlockHashOrNumber::Number(5)),
        Ok(Some(vec![receipt(5)]))
    );
    assert_eq!(calls(&log), ["receipts 5"]);
}

#[test]
fn receipts_by_hash_fall_back_on_the_tree() {
    let (provider, log) = provider();
    assert_eq!(provider.receipts_by_block_id(by_hash(80, None)), Ok(Some(vec![receipt(80)])));
    assert_eq!(calls(&log), ["receipts #80"]);
    for demand in [None, Some(false)] {
        assert_eq!(
            provider.receipts_by_block_id(by_hash(100, demand)),
            Ok(Some(vec![receipt(1000)]))
        );
        assert_eq!(calls(&log), ["receipts #100", "tree receipts #100"]);
    }
    assert_eq!(provider.receipts_by_block_id(by_hash(100, Some(true))), Ok(None));
    assert_eq!(calls(&log), ["receipts #100"]);
    assert_eq!(
        provider.receipts_by_block_id(by_hash(66, None)),
        Err(failure("bad receipts"))
    );
    assert_eq!(calls(&log), ["receipts #66"]);
}

#[test]
fn receipts_by_role() {
    let (mut provider, log) = provider();
    let ask = |provider: &Provider, tag| provider.receipts_by_block_id(BlockId::Number(tag));
    assert_eq!(
        ask(&provider, BlockNumberOrTag::Pending),
        Ok(Some(vec![receipt(1000)]))
    );
    assert_eq!(calls(&log), ["tree receipts #100"]);
    assert_eq!(ask(&provider, BlockNumberOrTag::Latest), Ok(Some(vec![receipt(9)])));
    assert_eq!(ask(&provider, BlockNumberOrTag::Earliest), Ok(Some(vec![receipt(0)])));
    assert_eq!(ask(&provider, BlockNumberOrTag::Number(4)), Ok(Some(vec![receipt(4)])));
    assert_eq!(calls(&log), ["receipts 9", "receipts 0", "receipts 4"]);
    assert_eq!(ask(&provider, BlockNumberOrTag::Safe), Ok(None));
    assert_eq!(ask(&provider, BlockNumberOrTag::Finalized), Ok(None));
    assert!(calls(&log).is_empty());
    provider.set_safe(sealed(6, 60));
    assert_eq!(ask(&provider, BlockNumberOrTag::Safe), Ok(Some(vec![receipt(6)])));
    let (provider, _) = without_pending();
    assert_eq!(ask(&provider, BlockNumberOrTag::Pending), Ok(None));
}

#[test]
fn records_come_from_the_database() {
    let (provider, log) = provider();
    assert_eq!(
        provider.withdrawals_by_block(BlockHashOrNumber::Hash(h(3)), 99),
        Ok(Some(vec![withdrawal(1)]))
    );
    assert_eq!(provider.latest_withdrawal(), Ok(Some(withdrawal(2))));
    let id = StageId { name: "Headers".to_string() };
    assert_eq!(
        provider.get_stage_checkpoint(id.clone()),
        Ok(Some(StageCheckpoint { block_number: 5, stage_checkpoint: None }))
    );
    assert_eq!(provider.get_stage_checkpoint_progress(id), Ok(Some(vec![1, 2, 3])));
    assert_eq!(
        provider.get_prune_checkpoint(PrunePart::Receipts),
        Ok(Some(prune_checkpoint()))
    );
    assert_eq!(
        calls(&log),
        ["withdrawals #3 99", "stage Headers", "progress Headers", "prune Receipts"]
    );
    assert_eq!(
        provider.account_block_changeset(4),
        Ok(vec![AccountBeforeTx { address: Address([4; 20]), info: None }])
    );
    assert_eq!(provider.basic_account(Address([5; 20])), Ok(Some(account(5))));
}

#[test]
fn the_chain_is_known() {
    let (provider, _) = provider();
    assert_eq!(*provider.chain_spec(), ChainSpec { chain_id: 1, genesis_hash: Some(h(0)) });
}

#[test]
fn environments_are_filled_by_the_database() {
    let (provider, log) = provider();
    let (mut cfg, mut block_env) = env();
    assert_eq!(provider.fill_env_at(&mut cfg, &mut block_env, BlockHashOrNumber::Number(3)), Ok(()));
    assert_eq!(cfg, CfgEnv { spec_id: 1, ..env().0 });
    assert_eq!(block_env, BlockEnv { number: u256(1), ..env().1 });
    let result = provider.fill_env_with_header(&mut cfg, &mut block_env, &header(8));
    assert_eq!(result, Err(failure("half filled")));
    assert_eq!(cfg.spec_id, 2);
    assert_eq!(block_env.number, u256(8));
    let (mut cfg, mut block_env) = env();
    assert_eq!(provider.fill_block_env_at(&mut block_env, BlockHashOrNumber::Hash(h(4))), Ok(()));
    assert_eq!(block_env, BlockEnv { number: u256(3), ..env().1 });
    assert_eq!(provider.fill_block_env_with_header(&mut block_env, &header(2)), Ok(()));
    assert_eq!(block_env, BlockEnv { number: u256(3), timestamp: u256(24), ..env().1 });
    assert_eq!(provider.fill_cfg_env_at(&mut cfg, BlockHashOrNumber::Number(6)), Ok(()));
    assert_eq!(cfg, CfgEnv { chain_id: 1, spec_id: 5 });
    assert_eq!(provider.fill_cfg_env_with_header(&mut cfg, &header(7)), Ok(()));
    assert_eq!(cfg, CfgEnv { chain_id: 7, spec_id: 5 });
    assert_eq!(calls(&log), ["env 3", "block env #4", "cfg env 6"]);
}

#[test]
fn environments_stay_as_they_are_when_no_read_starts() {
    let (provider, _) = broken();
    let (mut cfg, mut block_env) = env();
    assert_eq!(
        provider.fill_env_at(&mut cfg, &mut block_env, BlockHashOrNumber::Number(3)),
        Err(failure("no read"))
    );
    assert_eq!(
        provider.fill_env_with_header(&mut cfg, &mut block_env, &header(8)),
        Err(failure("no read"))
    );
    assert_eq!((cfg, block_env), env());
}

#[test]
fn roles_stand_for_numbers() {
    let (mut provider, _) = provider();
    assert_eq!(provider.convert_block_number(BlockNumberOrTag::Latest), Ok(Some(9)));
    assert_eq!(provider.convert_block_number(BlockNumberOrTag::Earliest), Ok(Some(0)));
    assert_eq!(provider.convert_block_number(BlockNumberOrTag::Number(5)), Ok(Some(5)));
    assert_eq!(provider.convert_block_number(BlockNumberOrTag::Pending), Ok(Some(10)));
    assert_eq!(provider.convert_block_number(BlockNumberOrTag::Safe), Ok(None));
    assert_eq!(provider.convert_block_number(BlockNumberOrTag::Finalized), Ok(None));
    provider.set_safe(sealed(6, 60));
    provider.set_finalized(sealed(5, 50));
    assert_eq!(provider.convert_block_number(BlockNumberOrTag::Safe), Ok(Some(6)));
    assert_eq!(provider.convert_block_number(BlockNumberOrTag::Finalized), Ok(Some(5)));
    let (provider, _) = without_pending();
    assert_eq!(provider.convert_block_number(BlockNumberOrTag::Pending), Ok(None));
}

#[test]
fn blocks_by_name() {
    let (provider, log) = provider();
    let role = |tag| provider.block_by_id(BlockId::Number(tag));
    assert_eq!(role(BlockNumberOrTag::Latest), Ok(Some(block(9))));
    assert_eq!(role(BlockNumberOrTag::Earliest), Ok(Some(block(0))));
    assert_eq!(role(BlockNumberOrTag::Number(3)), Ok(Some(block(3))));
    assert_eq!(role(BlockNumberOrTag::Pending), Ok(None));
    assert_eq!(role(BlockNumberOrTag::Safe), Ok(None));
    assert_eq!(
        calls(&log),
        ["block 9", "block 0", "block 3", "block 10"]
    );
    assert_eq!(provider.block_by_number_or_tag(BlockNumberOrTag::Number(3)), Ok(Some(block(3))));
    assert_eq!(provider.block_by_id(by_hash(100, None)), Ok(Some(block(10))));
    assert_eq!(provider.block_by_id(by_hash(100, Some(false))), Ok(Some(block(10))));
    assert_eq!(provider.block_by_id(by_hash(100, Some(true))), Ok(None));
    assert_eq!(provider.block_by_id(by_hash(80, Some(true))), Ok(Some(block(8))));
}

#[test]
fn headers_by_role() {
    let (mut provider, log) = provider();
    provider.set_safe(sealed(6, 60));
    assert_eq!(
        provider.header_by_number_or_tag(BlockNumberOrTag::Latest),
        Ok(Some(header(9)))
    );
    assert_eq!(provider.header_by_number_or_tag(BlockNumberOrTag::Safe), Ok(Some(header(6))));
    assert_eq!(provider.header_by_number_or_tag(BlockNumberOrTag::Finalized), Ok(None));
    assert_eq!(
        provider.header_by_number_or_tag(BlockNumberOrTag::Pending),
        Ok(Some(header(10)))
    );
    assert!(calls(&log).is_empty());
    assert_eq!(
        provider.header_by_number_or_tag(BlockNumberOrTag::Earliest),
        Ok(Some(header(0)))
    );
    assert_eq!(
        provider.header_by_number_or_tag(BlockNumberOrTag::Number(4)),
        Ok(Some(header(4)))
    );
    assert_eq!(calls(&log), ["header 0", "header 4"]);
}

#[test]
fn sealed_headers_by_role() {
    let (mut provider, _) = provider();
    provider.set_finalized(sealed(5, 50));
    let ask = |tag| provider.sealed_header_by_number_or_tag(tag);
    assert_eq!(ask(BlockNumberOrTag::Latest), Ok(Some(sealed(9, 90))));
    assert_eq!(ask(BlockNumberOrTag::Finalized), Ok(Some(sealed(5, 50))));
    assert_eq!(ask(BlockNumberOrTag::Safe), Ok(None));
    assert_eq!(ask(BlockNumberOrTag::Pending), Ok(Some(sealed(10, 100))));
    assert_eq!(ask(BlockNumberOrTag::Earliest), Ok(Some(sealed(0, 100))));
    assert_eq!(ask(BlockNumberOrTag::Number(4)), Ok(Some(sealed(4, 104))));
    assert_eq!(ask(BlockNumberOrTag::Number(40)), Ok(None));
    assert_eq!(ask(BlockNumberOrTag::Number(666)), Err(failure("bad sector")));
}

#[test]
fn headers_and_ommers_by_name() {
    let (provider, log) = provider();
    assert_eq!(
        provider.sealed_header_by_id(by_hash(80, None)),
        Ok(Some(sealed(8, 108)))
    );
    assert_eq!(provider.sealed_header_by_id(by_hash(100, None)), Ok(None));
    assert_eq!(
        provider.sealed_header_by_id(BlockId::Number(BlockNumberOrTag::Latest)),
        Ok(Some(sealed(9, 90)))
    );
    assert_eq!(provider.header_by_id(by_hash(80, Some(true))), Ok(Some(header(8))));
    assert_eq!(
        provider.header_by_id(BlockId::Number(BlockNumberOrTag::Number(2))),
        Ok(Some(header(2)))
    );
    calls(&log);
    assert_eq!(provider.ommers_by_id(by_hash(80, Some(true))), Ok(Some(vec![header(4)])));
    assert_eq!(
        provider.ommers_by_id(BlockId::Number(BlockNumberOrTag::Latest)),
        Ok(Some(vec![header(4)]))
    );
    assert_eq!(provider.ommers_by_number_or_tag(BlockNumberOrTag::Safe), Ok(None));
    assert_eq!(calls(&log), ["ommers #80", "ommers 9"]);
}

#[test]
fn headers_and_ommers_ignore_the_demand() {
    let (provider, _) = provider();
    for demand in [None, Some(false), Some(true)] {
        assert_eq!(provider.header_by_id(by_hash(80, demand)), Ok(Some(header(8))));
        assert_eq!(provider.sealed_header_by_id(by_hash(80, demand)), Ok(Some(sealed(8, 108))));
        assert_eq!(provider.header_by_id(by_hash(100, demand)), Ok(None));
        assert_eq!(provider.ommers_by_id(by_hash(80, demand)), Ok(Some(vec![header(4)])));
    }
}

#[test]
fn sealed_headers_agree_with_headers() {
    let (mut provider, _) = provider();
    provider.set_safe(sealed(6, 60));
    let mut names = vec![by_hash(80, None), by_hash(81, None)];
    for tag in [
        BlockNumberOrTag::Latest,
        BlockNumberOrTag::Safe,
        BlockNumberOrTag::Finalized,
        BlockNumberOrTag::Earliest,
        BlockNumberOrTag::Pending,
        BlockNumberOrTag::Number(4),
        BlockNumberOrTag::Number(40),
        BlockNumberOrTag::Number(666),
    ] {
        names.push(BlockId::Number(tag));
    }
    for id in names {
        let unsealed = provider.sealed_header_by_id(id).map(|found| found.map(|h| h.unseal()));
        assert_eq!(provider.header_by_id(id), unsealed);
    }
}

#[test]
fn equal_stored_headers_have_equal_hashes() {
    let (provider, _) = provider();
    let by_number = provider.sealed_header_by_id(BlockId::Number(BlockNumberOrTag::Number(8)));
    assert_eq!(provider.sealed_header_by_id(by_hash(80, None)), by_number);
    assert_eq!(by_number, Ok(Some(SealedHeader { header: header(8), hash: h(108) })));
    assert_eq!(
        provider.sealed_header_by_number_or_tag(BlockNumberOrTag::Earliest),
        provider.sealed_header_by_number_or_tag(BlockNumberOrTag::Number(0))
    );
}

#[test]
fn stored_states() {
    let (provider, log) = provider();
    assert_eq!(stored(provider.latest()), "latest");
    assert_eq!(stored(provider.history_by_block_number(9)), "at 9");
    assert_eq!(stored(provider.history_by_block_hash(h(80))), "at #80");
    assert_eq!(failed(provider.history_by_block_hash(h(81))), failure("no history"));
    assert_eq!(calls(&log), ["latest", "history 9", "history #80", "history #81"]);
}

#[test]
fn history_beyond_the_tip_is_refused() {
    let (mut provider, log) = provider();
    assert_eq!(failed(provider.history_by_block_number(10)), not_found(10));
    assert!(calls(&log).is_empty());
    provider.set_canonical_head(sealed(10, 100));
    assert_eq!(stored(provider.history_by_block_number(10)), "at 10");
}

#[test]
fn states_by_hash_fall_back_on_the_tree() {
    let (provider, log) = provider();
    assert_eq!(stored(provider.state_by_block_hash(h(80))), "at #80");
    assert_eq!(calls(&log), ["history #80"]);
    assert_eq!(
        bundled(provider.state_by_block_hash(h(100))),
        ("at #70".to_string(), Fork(70))
    );
    assert_eq!(calls(&log), ["history #100", "bundle #100", "history #70"]);
    // Neither has it, and the tree has it on a fork that is gone: the first error is reported.
    assert_eq!(failed(provider.state_by_block_hash(h(1))), failure("no history"));
    assert_eq!(calls(&log), ["history #1", "bundle #1"]);
    assert_eq!(failed(provider.state_by_block_hash(h(102))), failure("no history"));
}

#[test]
fn pending_states() {
    let (provider, _) = provider();
    assert_eq!(bundled(provider.pending()), ("at #70".to_string(), Fork(70)));
    assert!(matches!(
        provider.pending_state_by_hash(h(100)),
        Ok(Some(StateProviderBox::Bundle(_)))
    ));
    assert!(matches!(provider.pending_state_by_hash(h(1)), Ok(None)));
    assert!(matches!(
        provider.pending_state_by_hash(h(102)),
        Err(error) if error == failure("no history")
    ));
    assert_eq!(
        bundled(provider.pending_with_provider(Fork(80))),
        ("at #80".to_string(), Fork(80))
    );
    assert_eq!(failed(provider.pending_with_provider(Fork(81))), failure("no history"));
}

#[test]
fn without_a_pending_block_the_latest_state_is_pending() {
    let (provider, log) = without_pending();
    assert_eq!(stored(provider.pending()), "latest");
    assert_eq!(calls(&log), ["latest"]);
}

#[test]
fn a_pending_block_without_state_is_an_error() {
    let log = Log::default();
    let tree = MockTree { bundles: BTreeMap::new(), ..tree(&log) };
    let provider: Provider =
        BlockchainProvider::with_latest(factory(Data::new(), &log), tree, sealed(9, 90));
    assert_eq!(
        failed(provider.pending()),
        RethError::Provider(ProviderError::StateForHashNotFound(h(100)))
    );
}

#[test]
fn the_tree_is_changed_through_the_provider() {
    let (provider, log) = provider();
    assert_eq!(
        provider.buffer_block(with_senders(3, 30)),
        Err(InsertBlockError { block: sealed_block(3, 30), reason: "full".to_string() })
    );
    assert_eq!(
        provider.insert_block(with_senders(4, 40)),
        Ok(InsertPayloadOk::Inserted(BlockStatus::Valid))
    );
    provider.finalize_block(5);
    assert_eq!(provider.connect_buffered_blocks_to_canonical_hashes_and_finalize(6), Ok(()));
    assert_eq!(
        provider.connect_buffered_blocks_to_canonical_hashes(),
        Err(failure("nothing buffered"))
    );
    assert_eq!(
        provider.make_canonical(&h(42)),
        Ok(CanonicalOutcome::Committed { head: sealed(10, 42) })
    );
    assert_eq!(provider.unwind(7), Ok(()));
    assert_eq!(
        calls(&log),
        ["insert 4", "finalize 5", "connect and finalize 6", "connect", "unwind 7"]
    );
    assert_eq!(provider.best_block_number(), Ok(9));
}

#[test]
fn the_tree_is_seen_through_the_provider() {
    let (provider, _) = provider();
    assert_eq!(provider.blocks(), BTreeMap::from([(10, HashSet::from([h(10), h(11)]))]));
    assert_eq!(provider.header_by_hash(h(100)), Some(sealed(10, 100)));
    assert_eq!(
        BlockchainTreeViewer::block_by_hash(&provider, h(100)),
        Some(sealed_block(10, 100))
    );
    assert_eq!(provider.buffered_block_by_hash(h(3)), Some(sealed_block(20, 3)));
    assert_eq!(provider.buffered_header_by_hash(h(3)), Some(sealed(21, 3)));
    assert_eq!(provider.canonical_blocks(), BTreeMap::from([(9, h(90))]));
    assert_eq!(provider.find_canonical_ancestor(h(3)), Some(h(4)));
    assert_eq!(provider.is_canonical(h(90)), Ok(true));
    assert_eq!(provider.is_canonical(h(91)), Ok(false));
    assert_eq!(provider.is_canonical(h(66)), Err(failure("who knows")));
    assert_eq!(provider.lowest_buffered_ancestor(h(3)), Some(with_senders(22, 3)));
    assert_eq!(provider.canonical_tip(), BlockNumHash { number: 9, hash: h(90) });
    assert_eq!(provider.pending_blocks(), (10, vec![h(100), h(101)]));
    assert_eq!(
        BlockchainTreeViewer::pending_block_num_hash(&provider),
        Some(BlockNumHash { number: 10, hash: h(100) })
    );
    assert_eq!(
        BlockchainTreeViewer::pending_block_and_receipts(&provider),
        Some((sealed_block(10, 100), vec![receipt(100)]))
    );
    assert_eq!(provider.receipts_by_block_hash(h(100)), Some(vec![receipt(1000)]));
    assert_eq!(
        BlockchainTreeViewer::pending_block(&provider),
        Some(sealed_block(10, 100))
    );
    assert_eq!(provider.pending_header(), Some(sealed(10, 100)));
    assert_eq!(provider.pending_receipts(), Some(vec![receipt(1000)]));
    assert_eq!(provider.find_pending_state_provider(h(100)), Some(Fork(70)));
    assert_eq!(provider.find_pending_state_provider(h(1)), None);
    assert_eq!(provider.subscribe_to_canonical_state(), "stream");
}

#[test]
fn announced_heads_are_read_back() {
    let (mut provider, _) = provider();
    provider.set_canonical_head(sealed(12, 120));
    provider.set_safe(sealed(11, 110));
    provider.set_finalized(sealed(10, 100));
    assert_eq!(
        BlockNumReader::chain_info(&provider),
        Ok(ChainInfo { best_hash: h(120), best_number: 12 })
    );
    assert_eq!(
        provider.safe_block_num_hash(),
        Ok(Some(BlockNumHash { number: 11, hash: h(110) }))
    );
    assert_eq!(
        provider.finalized_block_num_hash(),
        Ok(Some(BlockNumHash { number: 10, hash: h(100) }))
    );
    provider.set_canonical_head(sealed(9, 91));
    assert_eq!(provider.best_block_number(), Ok(9));
    assert_eq!(
        provider.sealed_header_by_number_or_tag(BlockNumberOrTag::Safe),
        Ok(Some(sealed(11, 110)))
    );
}

#[test]
fn arrivals_are_timed() {
    let (mut provider, _) = provider();
    let update = ForkchoiceState {
        head_block_hash: h(1),
        safe_block_hash: h(2),
        finalized_block_hash: h(3),
    };
    let before = Instant::now();
    provider.on_forkchoice_update_received(&update);
    assert_eq!(provider.last_exchanged_transition_configuration_timestamp(), None);
    provider.on_transition_configuration_exchanged();
    let after = Instant::now();
    let updated = provider.last_received_update_timestamp().unwrap();
    let exchanged = provider.last_exchanged_transition_configuration_timestamp().unwrap();
    assert!(before <= updated && updated <= exchanged && exchanged <= after);
    // An update announces no head.
    assert_eq!(
        provider.sealed_header_by_number_or_tag(BlockNumberOrTag::Latest),
        Ok(Some(sealed(9, 90)))
    );
    assert_eq!(provider.safe_block_num_hash(), Ok(None));
}
