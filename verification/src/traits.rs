//! What can be asked of a chain.
//!
//! The database's providers, the blockchain tree and the
//! [`BlockchainProvider`](crate::provider::BlockchainProvider) on top of them implement these
//! traits. They promise nothing of the answers: a contract that speaks of an answer says, with
//! `call_ensures`, which question it answers.

use crate::error::{ProviderError, RethError, RethResult};
use crate::primitives::{
    Account, AccountBeforeTx, Address, Block, BlockEnv, BlockHash, BlockHashOrNumber, BlockId,
    BlockNumHash, BlockNumber, BlockNumberOrTag, BlockSource, BlockWithSenders, CanonicalOutcome,
    CfgEnv, ChainInfo, ChainSpec, ForkchoiceState, Header, InsertBlockError, InsertPayloadOk,
    NumberRange, PruneCheckpoint, PrunePart, Receipt, SealedBlock, SealedBlockWithSenders,
    SealedHeader, StageCheckpoint, StageId, StoredBlockBodyIndices, TransactionMeta,
    TransactionSigned, TransactionSignedNoHash, TxHash, TxNumber, Withdrawal, H256, U256,
};
use std::collections::{BTreeMap, HashSet};
use std::sync::Arc;
use std::time::Instant;
use vstd::prelude::*;

verus! {

/// Reads headers.
pub trait HeaderProvider {
    /// The header with this hash.
    fn header(&self, block_hash: &BlockHash) -> RethResult<Option<Header>>;

    /// The canonical header with this number.
    fn header_by_number(&self, num: BlockNumber) -> RethResult<Option<Header>>;

    /// The total difficulty at the block with this hash.
    fn header_td(&self, hash: &BlockHash) -> RethResult<Option<U256>>;

    /// The total difficulty at the canonical block with this number.
    fn header_td_by_number(&self, number: BlockNumber) -> RethResult<Option<U256>>;

    /// The canonical headers in this range.
    fn headers_range(&self, range: NumberRange) -> RethResult<Vec<Header>>;

    /// The canonical headers in this range, with their hashes.
    fn sealed_headers_range(&self, range: NumberRange) -> RethResult<Vec<SealedHeader>>;

    /// The canonical header with this number, with its hash.
    fn sealed_header(&self, number: BlockNumber) -> RethResult<Option<SealedHeader>>;
}

/// Reads the hashes of canonical blocks.
pub trait BlockHashReader {
    /// The hash of the canonical block with this number.
    fn block_hash(&self, number: u64) -> RethResult<Option<H256>>;

    /// The hashes of the canonical blocks from `start` up to, and without, `end`.
    fn canonical_hashes_range(&self, start: BlockNumber, end: BlockNumber) -> RethResult<Vec<H256>>;
}

/// Reads block numbers.
pub trait BlockNumReader {
    /// The tip of the canonical chain.
    fn chain_info(&self) -> RethResult<ChainInfo>;

    /// The height of the canonical chain.
    fn best_block_number(&self) -> RethResult<BlockNumber>;

    /// The highest number among the stored blocks.
    fn last_block_number(&self) -> RethResult<BlockNumber>;

    /// The number of the block with this hash.
    fn block_number(&self, hash: H256) -> RethResult<Option<BlockNumber>>;
}

/// Resolves the roles that a block can have.
pub trait BlockIdReader: BlockNumReader {
    /// The block that is being built on top of the canonical chain.
    fn pending_block_num_hash(&self) -> RethResult<Option<BlockNumHash>>;

    /// The last safe block.
    fn safe_block_num_hash(&self) -> RethResult<Option<BlockNumHash>>;

    /// The last finalized block.
    fn finalized_block_num_hash(&self) -> RethResult<Option<BlockNumHash>>;

    /// The number that `num` stands for.
    fn convert_block_number(&self, num: BlockNumberOrTag) -> RethResult<Option<BlockNumber>>;
}

/// Reads blocks.
pub trait BlockReader {
    /// The block with this hash, looked for where `source` says.
    fn find_block_by_hash(&self, hash: H256, source: BlockSource) -> RethResult<Option<Block>>;

    /// The block with this hash or number.
    fn block(&self, id: BlockHashOrNumber) -> RethResult<Option<Block>>;

    /// The block that is being built on top of the canonical chain.
    fn pending_block(&self) -> RethResult<Option<SealedBlock>>;

    /// The block that is being built on top of the canonical chain, with its receipts.
    fn pending_block_and_receipts(&self) -> RethResult<Option<(SealedBlock, Vec<Receipt>)>>;

    /// The ommers of this block.
    fn ommers(&self, id: BlockHashOrNumber) -> RethResult<Option<Vec<Header>>>;

    /// The numbers of this block's transactions.
    fn block_body_indices(&self, number: BlockNumber) -> RethResult<Option<StoredBlockBodyIndices>>;

    /// The canonical block with this number, with the senders of its transactions.
    fn block_with_senders(&self, number: BlockNumber) -> RethResult<Option<BlockWithSenders>>;

    /// The block with this hash.
    fn block_by_hash(&self, hash: H256) -> (block: RethResult<Option<Block>>)
        default_ensures
            call_ensures(Self::block, (self, BlockHashOrNumber::Hash(hash)), block),
    {
        self.block(BlockHashOrNumber::Hash(hash))
    }

    /// The canonical block with this number.
    fn block_by_number(&self, num: BlockNumber) -> (block: RethResult<Option<Block>>)
        default_ensures
            call_ensures(Self::block, (self, BlockHashOrNumber::Number(num)), block),
    {
        self.block(BlockHashOrNumber::Number(num))
    }
}

/// Reads transactions.
pub trait TransactionsProvider {
    /// The number of the transaction with this hash.
    fn transaction_id(&self, tx_hash: TxHash) -> RethResult<Option<TxNumber>>;

    /// The transaction with this number.
    fn transaction_by_id(&self, id: TxNumber) -> RethResult<Option<TransactionSigned>>;

    /// The transaction with this number, without its hash.
    fn transaction_by_id_no_hash(&self, id: TxNumber) -> RethResult<
        Option<TransactionSignedNoHash>,
    >;

    /// The transaction with this hash.
    fn transaction_by_hash(&self, hash: TxHash) -> RethResult<Option<TransactionSigned>>;

    /// The transaction with this hash, and where it stands in the chain.
    fn transaction_by_hash_with_meta(&self, tx_hash: TxHash) -> RethResult<
        Option<(TransactionSigned, TransactionMeta)>,
    >;

    /// The number of the block that holds the transaction with this number.
    fn transaction_block(&self, id: TxNumber) -> RethResult<Option<BlockNumber>>;

    /// The transactions of this block.
    fn transactions_by_block(&self, id: BlockHashOrNumber) -> RethResult<
        Option<Vec<TransactionSigned>>,
    >;

    /// The transactions of the blocks in this range, block by block.
    fn transactions_by_block_range(&self, range: NumberRange) -> RethResult<
        Vec<Vec<TransactionSigned>>,
    >;

    /// The transactions with the numbers in this range.
    fn transactions_by_tx_range(&self, range: NumberRange) -> RethResult<
        Vec<TransactionSignedNoHash>,
    >;

    /// The senders of the transactions with the numbers in this range.
    fn senders_by_tx_range(&self, range: NumberRange) -> RethResult<Vec<Address>>;

    /// The sender of the transaction with this number.
    fn transaction_sender(&self, id: TxNumber) -> RethResult<Option<Address>>;
}

/// Reads receipts.
pub trait ReceiptProvider {
    /// The receipt of the transaction with this number.
    fn receipt(&self, id: TxNumber) -> RethResult<Option<Receipt>>;

    /// The receipt of the transaction with this hash.
    fn receipt_by_hash(&self, hash: TxHash) -> RethResult<Option<Receipt>>;

    /// The receipts of this block.
    fn receipts_by_block(&self, block: BlockHashOrNumber) -> RethResult<Option<Vec<Receipt>>>;
}

/// Reads receipts by the name that a caller gives a block.
pub trait ReceiptProviderIdExt {
    /// The receipts of this block.
    fn receipts_by_block_id(&self, block: BlockId) -> RethResult<Option<Vec<Receipt>>>;
}

/// Reads withdrawals.
pub trait WithdrawalsProvider {
    /// The withdrawals of this block, which has this timestamp.
    fn withdrawals_by_block(&self, id: BlockHashOrNumber, timestamp: u64) -> RethResult<
        Option<Vec<Withdrawal>>,
    >;

    /// The last withdrawal.
    fn latest_withdrawal(&self) -> RethResult<Option<Withdrawal>>;
}

/// Reads how far the stages of the sync pipeline have come.
pub trait StageCheckpointReader {
    /// The checkpoint of this stage.
    fn get_stage_checkpoint(&self, id: StageId) -> RethResult<Option<StageCheckpoint>>;

    /// The progress of this stage within its checkpoint, in its stored encoding.
    fn get_stage_checkpoint_progress(&self, id: StageId) -> RethResult<Option<Vec<u8>>>;
}

/// Sets up what the virtual machine needs to run a block.
pub trait EvmEnvProvider {
    /// Fills in the settings and the block, for this block.
    fn fill_env_at(
        &self,
        cfg: &mut CfgEnv,
        block_env: &mut BlockEnv,
        at: BlockHashOrNumber,
    ) -> RethResult<()>;

    /// Fills in the settings and the block, for the block with this header.
    fn fill_env_with_header(
        &self,
        cfg: &mut CfgEnv,
        block_env: &mut BlockEnv,
        header: &Header,
    ) -> RethResult<()>;

    /// Fills in the block, for this block.
    fn fill_block_env_at(&self, block_env: &mut BlockEnv, at: BlockHashOrNumber) -> RethResult<()>;

    /// Fills in the block, for the block with this header.
    fn fill_block_env_with_header(&self, block_env: &mut BlockEnv, header: &Header) -> RethResult<
        (),
    >;

    /// Fills in the settings, for this block.
    fn fill_cfg_env_at(&self, cfg: &mut CfgEnv, at: BlockHashOrNumber) -> RethResult<()>;

    /// Fills in the settings, for the block with this header.
    fn fill_cfg_env_with_header(&self, cfg: &mut CfgEnv, header: &Header) -> RethResult<()>;
}

/// Reads how far pruning has come.
pub trait PruneCheckpointReader {
    /// The checkpoint of this part.
    fn get_prune_checkpoint(&self, part: PrunePart) -> RethResult<Option<PruneCheckpoint>>;
}

/// Knows which chain it holds.
pub trait ChainSpecProvider {
    /// The chain.
    fn chain_spec(&self) -> Arc<ChainSpec>;
}

/// Reads which accounts a block changed.
pub trait ChangeSetReader {
    /// The accounts that this block changed, as they were before.
    fn account_block_changeset(&self, block_number: BlockNumber) -> RethResult<
        Vec<AccountBeforeTx>,
    >;
}

/// Reads accounts.
pub trait AccountReader {
    /// The account at this address.
    fn basic_account(&self, address: Address) -> RethResult<Option<Account>>;
}

/// The changes that the blocks of a side chain make to the state below them.
pub trait BundleStateDataProvider {
    /// The canonical block that the side chain forks off.
    fn canonical_fork(&self) -> BlockNumHash;
}

/// Hands out views of the state.
pub trait StateProviderFactory {
    /// A view of the state after some block.
    type State;

    /// The changes of a side chain.
    type Bundle: BundleStateDataProvider;

    /// The state at the tip of the canonical chain.
    fn latest(&self) -> RethResult<Self::State>;

    /// The state after the canonical block with this number.
    fn history_by_block_number(&self, block_number: BlockNumber) -> RethResult<Self::State>;

    /// The state after the stored block with this hash.
    fn history_by_block_hash(&self, block_hash: BlockHash) -> RethResult<Self::State>;

    /// The state after the block with this hash, stored or pending.
    fn state_by_block_hash(&self, block: BlockHash) -> RethResult<Self::State>;

    /// The state after the pending block, or the latest state if there is none.
    fn pending(&self) -> RethResult<Self::State>;

    /// The state after the pending block with this hash.
    fn pending_state_by_hash(&self, block_hash: H256) -> RethResult<Option<Self::State>>;

    /// The state that `post_state_data` makes of the state at its fork.
    fn pending_with_provider(&self, post_state_data: Self::Bundle) -> RethResult<Self::State>;
}

/// Looks into the tree of blocks that are not stored yet.
pub trait BlockchainTreeViewer {
    /// The hashes of all blocks in the tree, by their numbers.
    fn blocks(&self) -> BTreeMap<BlockNumber, HashSet<BlockHash>>;

    /// The header with this hash.
    fn header_by_hash(&self, hash: BlockHash) -> Option<SealedHeader>;

    /// The block with this hash.
    fn block_by_hash(&self, block_hash: BlockHash) -> Option<SealedBlock>;

    /// The buffered block with this hash.
    fn buffered_block_by_hash(&self, block_hash: BlockHash) -> Option<SealedBlock>;

    /// The header of the buffered block with this hash.
    fn buffered_header_by_hash(&self, block_hash: BlockHash) -> Option<SealedHeader>;

    /// The canonical blocks that the tree remembers.
    fn canonical_blocks(&self) -> BTreeMap<BlockNumber, BlockHash>;

    /// The canonical block that the chain of this block forks off.
    fn find_canonical_ancestor(&self, hash: BlockHash) -> Option<BlockHash>;

    /// Whether the block with this hash is canonical.
    fn is_canonical(&self, hash: BlockHash) -> RethResult<bool>;

    /// The lowest buffered ancestor of the block with this hash.
    fn lowest_buffered_ancestor(&self, hash: BlockHash) -> Option<SealedBlockWithSenders>;

    /// The tip of the canonical chain, as the tree knows it.
    fn canonical_tip(&self) -> BlockNumHash;

    /// The number of the pending blocks, and their hashes.
    fn pending_blocks(&self) -> (BlockNumber, Vec<BlockHash>);

    /// The pending block.
    fn pending_block_num_hash(&self) -> Option<BlockNumHash>;

    /// The pending block, with its receipts.
    fn pending_block_and_receipts(&self) -> Option<(SealedBlock, Vec<Receipt>)>;

    /// The receipts of the block with this hash.
    fn receipts_by_block_hash(&self, block_hash: BlockHash) -> Option<Vec<Receipt>>;

    /// The pending block.
    fn pending_block(&self) -> (block: Option<SealedBlock>)
        default_ensures
            exists|tip: Option<BlockNumHash>| #[trigger]
                call_ensures(Self::pending_block_num_hash, (self,), tip) && match tip {
                    Some(tip) => call_ensures(Self::block_by_hash, (self, tip.hash), block),
                    None => block is None,
                },
    {
        match self.pending_block_num_hash() {
            Some(tip) => self.block_by_hash(tip.hash),
            None => None,
        }
    }

    /// The header of the pending block.
    fn pending_header(&self) -> (header: Option<SealedHeader>)
        default_ensures
            exists|tip: Option<BlockNumHash>| #[trigger]
                call_ensures(Self::pending_block_num_hash, (self,), tip) && match tip {
                    Some(tip) => call_ensures(Self::header_by_hash, (self, tip.hash), header),
                    None => header is None,
                },
    {
        match self.pending_block_num_hash() {
            Some(tip) => self.header_by_hash(tip.hash),
            None => None,
        }
    }

    /// The receipts of the pending block.
    fn pending_receipts(&self) -> (receipts: Option<Vec<Receipt>>)
        default_ensures
            exists|tip: Option<BlockNumHash>| #[trigger]
                call_ensures(Self::pending_block_num_hash, (self,), tip) && match tip {
                    Some(tip) => call_ensures(
                        Self::receipts_by_block_hash,
                        (self, tip.hash),
                        receipts,
                    ),
                    None => receipts is None,
                },
    {
        match self.pending_block_num_hash() {
            Some(tip) => self.receipts_by_block_hash(tip.hash),
            None => None,
        }
    }
}

/// Changes the tree.
pub trait BlockchainTreeEngine: BlockchainTreeViewer {
    /// Keeps a block whose parent is not known yet.
    fn buffer_block(&self, block: SealedBlockWithSenders) -> Result<(), InsertBlockError>;

    /// Adds a block to the tree.
    fn insert_block(&self, block: SealedBlockWithSenders) -> Result<
        InsertPayloadOk,
        InsertBlockError,
    >;

    /// Drops what the finality of the block with this number rules out.
    fn finalize_block(&self, finalized_block: BlockNumber);

    /// Reconnects buffered blocks to the canonical chain, and finalizes.
    fn connect_buffered_blocks_to_canonical_hashes_and_finalize(
        &self,
        last_finalized_block: BlockNumber,
    ) -> RethResult<()>;

    /// Reconnects buffered blocks to the canonical chain.
    fn connect_buffered_blocks_to_canonical_hashes(&self) -> RethResult<()>;

    /// Makes the chain of the block with this hash the canonical one.
    fn make_canonical(&self, block_hash: &BlockHash) -> RethResult<CanonicalOutcome>;

    /// Takes the canonical chain back to this height.
    fn unwind(&self, unwind_to: BlockNumber) -> RethResult<()>;
}

/// Hands out the changes that pending blocks make to the state.
pub trait BlockchainTreePendingStateProvider {
    /// The changes of a side chain.
    type Bundle: BundleStateDataProvider;

    /// The changes up to the pending block with this hash, if the tree has it.
    fn find_pending_state_provider(&self, block_hash: BlockHash) -> Option<Self::Bundle>;

    /// The changes up to the pending block with this hash. It is an error if the tree has it not.
    fn pending_state_provider(&self, block_hash: BlockHash) -> (bundle: RethResult<Self::Bundle>)
        default_ensures
            exists|found: Option<Self::Bundle>| #[trigger]
                call_ensures(Self::find_pending_state_provider, (self, block_hash), found)
                    && match found {
                    Some(found) => bundle == Ok::<Self::Bundle, RethError>(found),
                    None => bundle == Err::<Self::Bundle, RethError>(
                        RethError::Provider(ProviderError::StateForHashNotFound(block_hash)),
                    ),
                },
    {
        match self.find_pending_state_provider(block_hash) {
            Some(found) => Ok(found),
            None => Err(RethError::Provider(ProviderError::StateForHashNotFound(block_hash))),
        }
    }
}

/// Announces changes of the canonical chain.
pub trait CanonStateSubscriptions {
    /// A stream of announcements.
    type Notifications;

    /// A stream of all announcements from now on.
    fn subscribe_to_canonical_state(&self) -> Self::Notifications;
}

/// Follows what the consensus layer says of the chain.
pub trait CanonChainTracker {
    /// Notes that a forkchoice update arrived.
    fn on_forkchoice_update_received(&mut self, update: &ForkchoiceState);

    /// When the last forkchoice update arrived.
    fn last_received_update_timestamp(&self) -> Option<Instant>;

    /// Notes that the transition configuration was exchanged.
    fn on_transition_configuration_exchanged(&mut self);

    /// When the transition configuration was last exchanged.
    fn last_exchanged_transition_configuration_timestamp(&self) -> Option<Instant>;

    /// Moves the tip of the canonical chain.
    fn set_canonical_head(&mut self, header: SealedHeader);

    /// Sets the last safe block.
    fn set_safe(&mut self, header: SealedHeader);

    /// Sets the last finalized block.
    fn set_finalized(&mut self, header: SealedHeader);
}

/// Reads blocks and headers by the name that a caller gives a block.
pub trait BlockReaderIdExt {
    /// The block with this number or role.
    fn block_by_number_or_tag(&self, id: BlockNumberOrTag) -> RethResult<Option<Block>>;

    /// The block with this name.
    fn block_by_id(&self, id: BlockId) -> RethResult<Option<Block>>;

    /// The header of the block with this number or role.
    fn header_by_number_or_tag(&self, id: BlockNumberOrTag) -> RethResult<Option<Header>>;

    /// The header of the block with this number or role, with its hash.
    fn sealed_header_by_number_or_tag(&self, id: BlockNumberOrTag) -> RethResult<
        Option<SealedHeader>,
    >;

    /// The header of the block with this name, with its hash.
    fn sealed_header_by_id(&self, id: BlockId) -> RethResult<Option<SealedHeader>>;

    /// The header of the block with this name.
    fn header_by_id(&self, id: BlockId) -> RethResult<Option<Header>>;

    /// The ommers of the block with this number or role.
    fn ommers_by_number_or_tag(&self, id: BlockNumberOrTag) -> RethResult<Option<Vec<Header>>>;

    /// The ommers of the block with this name.
    fn ommers_by_id(&self, id: BlockId) -> RethResult<Option<Vec<Header>>>;
}

} // verus!
