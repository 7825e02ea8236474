//! Plain values that the provider reads and hands out.

use std::sync::Arc;
use vstd::prelude::*;

verus! {

/// A block's height.
pub type BlockNumber = u64;

/// A transaction's position in the sequence of all stored transactions.
pub type TxNumber = u64;

/// The hash of a block's header.
pub type BlockHash = H256;

/// The hash of a transaction.
pub type TxHash = H256;

/// A reference-counted byte string. Cloning it shares the bytes.
pub type Bytes = Arc<Vec<u8>>;

/// A 256 bit hash.
#[derive(Debug, Clone, Copy, PartialEq, Eq, PartialOrd, Ord, Hash)]
pub struct H256(pub [u8; 32]);

/// A 256 bit unsigned integer, as four limbs from the least significant one up.
#[derive(Debug, Clone, Copy, PartialEq, Eq, Hash)]
pub struct U256(pub [u64; 4]);

/// An account's address.
#[derive(Debug, Clone, Copy, PartialEq, Eq, PartialOrd, Ord, Hash)]
pub struct Address(pub [u8; 20]);

/// A bloom filter over the logs of a block or of a receipt.
#[derive(Debug, Clone, Copy, PartialEq, Eq)]
pub struct Bloom(pub [u8; 256]);

/// A block header.
#[derive(Debug, PartialEq, Eq)]
pub struct Header {
    pub parent_hash: BlockHash,
    pub ommers_hash: H256,
    pub beneficiary: Address,
    pub state_root: H256,
    pub transactions_root: H256,
    pub receipts_root: H256,
    pub withdrawals_root: Option<H256>,
    pub logs_bloom: Bloom,
    pub difficulty: U256,
    pub number: BlockNumber,
    pub gas_limit: u64,
    pub gas_used: u64,
    pub timestamp: u64,
    pub mix_hash: H256,
    pub nonce: u64,
    pub base_fee_per_gas: Option<u64>,
    pub blob_gas_used: Option<u64>,
    pub excess_blob_gas: Option<u64>,
    pub parent_beacon_block_root: Option<H256>,
    pub extra_data: Bytes,
}

impl Clone for Header {
    fn clone(&self) -> (copy: Self)
        ensures
            copy == *self,
    {
        Header {
            parent_hash: self.parent_hash,
            ommers_hash: self.ommers_hash,
            beneficiary: self.beneficiary,
            state_root: self.state_root,
            transactions_root: self.transactions_root,
            receipts_root: self.receipts_root,
            withdrawals_root: self.withdrawals_root,
            logs_bloom: self.logs_bloom,
            difficulty: self.difficulty,
            number: self.number,
            gas_limit: self.gas_limit,
            gas_used: self.gas_used,
            timestamp: self.timestamp,
            mix_hash: self.mix_hash,
            nonce: self.nonce,
            base_fee_per_gas: self.base_fee_per_gas,
            blob_gas_used: self.blob_gas_used,
            excess_blob_gas: self.excess_blob_gas,
            parent_beacon_block_root: self.parent_beacon_block_root,
            extra_data: self.extra_data.clone(),
        }
    }
}

/// Computes the hash of a header. This is expensive: it encodes and digests the whole header.
///
/// The hash depends on the header alone: equal headers have equal hashes. Nothing else is asked of
/// it.
pub trait HeaderHasher {
    /// The hash of `header`, for contracts. It is never executed, but an implementation in ordinary
    /// Rust has to define it as well.
    spec fn spec_hash_slow(header: Header) -> BlockHash;

    /// The hash of `header`.
    fn hash_slow(header: &Header) -> (hash: BlockHash)
        ensures
            hash == Self::spec_hash_slow(*header),
    ;
}

impl Header {
    /// Pairs the header with a hash that the caller already knows. The hash is taken as it is.
    pub fn seal(self, hash: BlockHash) -> (sealed: SealedHeader)
        ensures
            sealed == (SealedHeader { header: self, hash }),
    {
        SealedHeader { header: self, hash }
    }

    /// Pairs the header with the hash that `H` computes for it.
    pub fn seal_slow<H: HeaderHasher>(self) -> (sealed: SealedHeader)
        ensures
            sealed == (SealedHeader { header: self, hash: H::spec_hash_slow(self) }),
    {
        let hash = H::hash_slow(&self);
        self.seal(hash)
    }
}

/// A header together with its hash.
#[derive(Debug, PartialEq, Eq)]
pub struct SealedHeader {
    pub header: Header,
    pub hash: BlockHash,
}

impl Clone for SealedHeader {
    fn clone(&self) -> (copy: Self)
        ensures
            copy == *self,
    {
        SealedHeader { header: self.header.clone(), hash: self.hash }
    }
}

impl SealedHeader {
    /// Drops the hash.
    pub fn unseal(self) -> (header: Header)
        ensures
            header == self.header,
    {
        self.header
    }

    /// The number and the hash of the header.
    pub open spec fn spec_num_hash(self) -> BlockNumHash {
        BlockNumHash { number: self.header.number, hash: self.hash }
    }

    /// The number and the hash of the header.
    pub fn num_hash(&self) -> (num_hash: BlockNumHash)
        ensures
            num_hash == self.spec_num_hash(),
    {
        BlockNumHash { number: self.header.number, hash: self.hash }
    }
}

/// A signed transaction in its canonical encoding, with its hash.
#[derive(Debug, Clone, PartialEq, Eq)]
pub struct TransactionSigned {
    pub hash: TxHash,
    pub encoded: Bytes,
}

/// A signed transaction in its canonical encoding, whose hash has not been computed.
#[derive(Debug, Clone, PartialEq, Eq)]
pub struct TransactionSignedNoHash {
    pub encoded: Bytes,
}

/// Where a transaction stands in the chain.
#[derive(Debug, Clone, Copy, PartialEq, Eq)]
pub struct TransactionMeta {
    pub tx_hash: TxHash,
    pub index: u64,
    pub block_hash: BlockHash,
    pub block_number: BlockNumber,
    pub base_fee: Option<u64>,
    pub excess_blob_gas: Option<u64>,
}

/// A log that a transaction emitted.
#[derive(Debug, Clone, PartialEq, Eq)]
pub struct Log {
    pub address: Address,
    pub topics: Vec<H256>,
    pub data: Bytes,
}

/// What the execution of a transaction left behind.
#[derive(Debug, Clone, PartialEq, Eq)]
pub struct Receipt {
    pub tx_type: u8,
    pub success: bool,
    pub cumulative_gas_used: u64,
    pub logs: Vec<Log>,
}

/// A withdrawal from the consensus layer.
#[derive(Debug, Clone, Copy, PartialEq, Eq)]
pub struct Withdrawal {
    pub index: u64,
    pub validator_index: u64,
    pub address: Address,
    pub amount: u64,
}

/// A block.
#[derive(Debug, Clone, PartialEq, Eq)]
pub struct Block {
    pub header: Header,
    pub body: Vec<TransactionSigned>,
    pub ommers: Vec<Header>,
    pub withdrawals: Option<Vec<Withdrawal>>,
}

/// A block whose header's hash is known.
#[derive(Debug, Clone, PartialEq, Eq)]
pub struct SealedBlock {
    pub header: SealedHeader,
    pub body: Vec<TransactionSigned>,
    pub ommers: Vec<Header>,
    pub withdrawals: Option<Vec<Withdrawal>>,
}

impl SealedBlock {
    /// The same block without its hash.
    pub open spec fn spec_unseal(self) -> Block {
        Block {
            header: self.header.header,
            body: self.body,
            ommers: self.ommers,
            withdrawals: self.withdrawals,
        }
    }

    /// Drops the hash.
    pub fn unseal(self) -> (block: Block)
        ensures
            block == self.spec_unseal(),
    {
        Block {
            header: self.header.unseal(),
            body: self.body,
            ommers: self.ommers,
            withdrawals: self.withdrawals,
        }
    }
}

/// A block with the sender of each of its transactions.
#[derive(Debug, Clone, PartialEq, Eq)]
pub struct BlockWithSenders {
    pub block: Block,
    pub senders: Vec<Address>,
}

/// A sealed block with the sender of each of its transactions.
#[derive(Debug, Clone, PartialEq, Eq)]
pub struct SealedBlockWithSenders {
    pub block: SealedBlock,
    pub senders: Vec<Address>,
}

/// The number and the hash of a block.
#[derive(Debug, Clone, Copy, PartialEq, Eq, Hash)]
pub struct BlockNumHash {
    pub number: BlockNumber,
    pub hash: BlockHash,
}

/// The tip of the canonical chain.
#[derive(Debug, Clone, Copy, PartialEq, Eq)]
pub struct ChainInfo {
    pub best_hash: BlockHash,
    pub best_number: BlockNumber,
}

/// A block, by its hash or by its number.
#[derive(Debug, Clone, Copy, PartialEq, Eq)]
pub enum BlockHashOrNumber {
    Hash(BlockHash),
    Number(BlockNumber),
}

/// A block of the canonical chain, by its number or by the role it has.
#[derive(Debug, Clone, Copy, PartialEq, Eq)]
pub enum BlockNumberOrTag {
    /// The tip of the canonical chain.
    Latest,
    /// The last block that is final.
    Finalized,
    /// The last block that is safe from reorganisations.
    Safe,
    /// The genesis block.
    Earliest,
    /// The block that is being built on top of the canonical chain.
    Pending,
    /// The block with this number.
    Number(BlockNumber),
}

/// A block's hash, with the demand that the block be canonical.
#[derive(Debug, Clone, Copy, PartialEq, Eq)]
pub struct RpcBlockHash {
    pub block_hash: BlockHash,
    /// `Some(true)` demands a canonical block. Anything else accepts side chains too.
    pub require_canonical: Option<bool>,
}

/// A block as a caller names it.
#[derive(Debug, Clone, Copy, PartialEq, Eq)]
pub enum BlockId {
    Hash(RpcBlockHash),
    Number(BlockNumberOrTag),
}

/// Where a block is looked for.
#[derive(Debug, Clone, Copy, PartialEq, Eq)]
pub enum BlockSource {
    /// In the database first, and in the tree if it is not there.
    Any,
    /// Only in the tree.
    Pending,
    /// Only in the database.
    Database,
}

/// One end of a range of numbers.
#[derive(Debug, Clone, Copy, PartialEq, Eq)]
pub enum RangeEnd {
    Included(u64),
    Excluded(u64),
    Unbounded,
}

/// A range of block or transaction numbers.
#[derive(Debug, Clone, Copy, PartialEq, Eq)]
pub struct NumberRange {
    pub start: RangeEnd,
    pub end: RangeEnd,
}

/// The transactions of a block, by their numbers.
#[derive(Debug, Clone, Copy, PartialEq, Eq)]
pub struct StoredBlockBodyIndices {
    pub first_tx_num: TxNumber,
    pub tx_count: u64,
}

/// An account.
#[derive(Debug, Clone, Copy, PartialEq, Eq)]
pub struct Account {
    pub nonce: u64,
    pub balance: U256,
    pub bytecode_hash: Option<H256>,
}

/// An account as it was before a transaction changed it. `info` is `None` where it did not exist.
#[derive(Debug, Clone, Copy, PartialEq, Eq)]
pub struct AccountBeforeTx {
    pub address: Address,
    pub info: Option<Account>,
}

/// A stage of the sync pipeline, by its name.
#[derive(Debug, Clone, PartialEq, Eq)]
pub struct StageId {
    pub name: String,
}

/// How far a stage has come, with the stage's own notes in their stored encoding.
#[derive(Debug, Clone, PartialEq, Eq)]
pub struct StageCheckpoint {
    pub block_number: BlockNumber,
    pub stage_checkpoint: Option<Bytes>,
}

/// A part of the data that can be pruned.
#[derive(Debug, Clone, Copy, PartialEq, Eq)]
pub enum PrunePart {
    SenderRecovery,
    TransactionLookup,
    Receipts,
    ContractLogs,
    AccountHistory,
    StorageHistory,
}

/// How much of a part is kept.
#[derive(Debug, Clone, Copy, PartialEq, Eq)]
pub enum PruneMode {
    /// Nothing.
    Full,
    /// This many blocks below the tip.
    Distance(u64),
    /// Everything from this block on.
    Before(BlockNumber),
}

/// How far pruning of a part has come.
#[derive(Debug, Clone, Copy, PartialEq, Eq)]
pub struct PruneCheckpoint {
    pub block_number: Option<BlockNumber>,
    pub tx_number: Option<TxNumber>,
    pub prune_mode: PruneMode,
}

/// The chain that the database holds.
#[derive(Debug, Clone, PartialEq, Eq)]
pub struct ChainSpec {
    pub chain_id: u64,
    pub genesis_hash: Option<H256>,
}

/// The settings that the virtual machine runs a block with.
#[derive(Debug, Clone, PartialEq, Eq)]
pub struct CfgEnv {
    pub chain_id: u64,
    pub spec_id: u8,
}

/// The block that the virtual machine sees.
#[derive(Debug, Clone, PartialEq, Eq)]
pub struct BlockEnv {
    pub number: U256,
    pub coinbase: Address,
    pub timestamp: U256,
    pub gas_limit: U256,
    pub basefee: U256,
    pub difficulty: U256,
    pub prevrandao: Option<H256>,
}

/// The heads that the consensus layer announces.
#[derive(Debug, Clone, Copy, PartialEq, Eq)]
pub struct ForkchoiceState {
    pub head_block_hash: BlockHash,
    pub safe_block_hash: BlockHash,
    pub finalized_block_hash: BlockHash,
}

/// What is known of a block that was handed to the tree.
#[derive(Debug, Clone, Copy, PartialEq, Eq)]
pub enum BlockStatus {
    /// It extends the canonical chain and was validated.
    Valid,
    /// It stands on a side chain and was not validated in full.
    Accepted,
    /// An ancestor of it is missing.
    Disconnected { missing_ancestor: BlockNumHash },
}

/// The tree took a block.
#[derive(Debug, Clone, Copy, PartialEq, Eq)]
pub enum InsertPayloadOk {
    AlreadySeen(BlockStatus),
    Inserted(BlockStatus),
}

/// The tree refused a block.
#[derive(Debug, Clone, PartialEq, Eq)]
pub struct InsertBlockError {
    pub block: SealedBlock,
    pub reason: String,
}

/// A block is canonical now.
#[derive(Debug, Clone, PartialEq, Eq)]
pub enum CanonicalOutcome {
    /// It was so before.
    AlreadyCanonical { header: SealedHeader },
    /// The chain was switched to it.
    Committed { head: SealedHeader },
}

} // verus!
