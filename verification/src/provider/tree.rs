//! The blockchain tree, seen through the provider.

use crate::error::RethResult;
use crate::primitives::{
    BlockHash, BlockNumHash, BlockNumber, CanonicalOutcome, InsertBlockError, InsertPayloadOk,
    Receipt, SealedBlock, SealedBlockWithSenders, SealedHeader,
};
use crate::provider::BlockchainProvider;
use crate::traits::{
    BlockchainTreeEngine, BlockchainTreePendingStateProvider, BlockchainTreeViewer,
    CanonStateSubscriptions,
};
use std::collections::{BTreeMap, HashSet};
use vstd::prelude::*;

verus! {

impl<DB, Tree: BlockchainTreeEngine> BlockchainTreeEngine for BlockchainProvider<DB, Tree> {
    fn buffer_block(
        &self,
        block: SealedBlockWithSenders,
    ) -> (buffered: Result<(), InsertBlockError>)
        ensures
            call_ensures(Tree::buffer_block, (&self.tree(), block), buffered),
    {
        self.tree.buffer_block(block)
    }

    fn insert_block(
        &self,
        block: SealedBlockWithSenders,
    ) -> (inserted: Result<InsertPayloadOk, InsertBlockError>)
        ensures
            call_ensures(Tree::insert_block, (&self.tree(), block), inserted),
    {
        self.tree.insert_block(block)
    }

    fn finalize_block(&self, finalized_block: BlockNumber)
        ensures
            call_ensures(Tree::finalize_block, (&self.tree(), finalized_block), ()),
    {
        self.tree.finalize_block(finalized_block)
    }

    fn connect_buffered_blocks_to_canonical_hashes_and_finalize(
        &self,
        last_finalized_block: BlockNumber,
    ) -> (connected: RethResult<()>)
        ensures
            call_ensures(
                Tree::connect_buffered_blocks_to_canonical_hashes_and_finalize,
                (&self.tree(), last_finalized_block),
                connected,
            ),
    {
        self.tree.connect_buffered_blocks_to_canonical_hashes_and_finalize(last_finalized_block)
    }

    fn connect_buffered_blocks_to_canonical_hashes(&self) -> (connected: RethResult<()>)
        ensures
            call_ensures(
                Tree::connect_buffered_blocks_to_canonical_hashes,
                (&self.tree(),),
                connected,
            ),
    {
        self.tree.connect_buffered_blocks_to_canonical_hashes()
    }

    fn make_canonical(&self, block_hash: &BlockHash) -> (outcome: RethResult<CanonicalOutcome>)
        ensures
            call_ensures(Tree::make_canonical, (&self.tree(), block_hash), outcome),
    {
        self.tree.make_canonical(block_hash)
    }

    fn unwind(&self, unwind_to: BlockNumber) -> (unwound: RethResult<()>)
        ensures
            call_ensures(Tree::unwind, (&self.tree(), unwind_to), unwound),
    {
        self.tree.unwind(unwind_to)
    }
}

impl<DB, Tree: BlockchainTreeViewer> BlockchainTreeViewer for BlockchainProvider<DB, Tree> {
    fn blocks(&self) -> (blocks: BTreeMap<BlockNumber, HashSet<BlockHash>>)
        ensures
            call_ensures(Tree::blocks, (&self.tree(),), blocks),
    {
        self.tree.blocks()
    }

    fn header_by_hash(&self, hash: BlockHash) -> (header: Option<SealedHeader>)
        ensures
            call_ensures(Tree::header_by_hash, (&self.tree(), hash), header),
    {
        self.tree.header_by_hash(hash)
    }

    fn block_by_hash(&self, block_hash: BlockHash) -> (block: Option<SealedBlock>)
        ensures
            call_ensures(Tree::block_by_hash, (&self.tree(), block_hash), block),
    {
        self.tree.block_by_hash(block_hash)
    }

    fn buffered_block_by_hash(&self, block_hash: BlockHash) -> (block: Option<SealedBlock>)
        ensures
            call_ensures(Tree::buffered_block_by_hash, (&self.tree(), block_hash), block),
    {
        self.tree.buffered_block_by_hash(block_hash)
    }

    fn buffered_header_by_hash(&self, block_hash: BlockHash) -> (header: Option<SealedHeader>)
        ensures
            call_ensures(Tree::buffered_header_by_hash, (&self.tree(), block_hash), header),
    {
        self.tree.buffered_header_by_hash(block_hash)
    }

    fn canonical_blocks(&self) -> (blocks: BTreeMap<BlockNumber, BlockHash>)
        ensures
            call_ensures(Tree::canonical_blocks, (&self.tree(),), blocks),
    {
        self.tree.canonical_blocks()
    }

    fn find_canonical_ancestor(&self, hash: BlockHash) -> (ancestor: Option<BlockHash>)
        ensures
            call_ensures(Tree::find_canonical_ancestor, (&self.tree(), hash), ancestor),
    {
        self.tree.find_canonical_ancestor(hash)
    }

    fn is_canonical(&self, hash: BlockHash) -> (canonical: RethResult<bool>)
        ensures
            call_ensures(Tree::is_canonical, (&self.tree(), hash), canonical),
    {
        self.tree.is_canonical(hash)
    }

    fn lowest_buffered_ancestor(
        &self,
        hash: BlockHash,
    ) -> (ancestor: Option<SealedBlockWithSenders>)
        ensures
            call_ensures(Tree::lowest_buffered_ancestor, (&self.tree(), hash), ancestor),
    {
        self.tree.lowest_buffered_ancestor(hash)
    }

    fn canonical_tip(&self) -> (tip: BlockNumHash)
        ensures
            call_ensures(Tree::canonical_tip, (&self.tree(),), tip),
    {
        self.tree.canonical_tip()
    }

    fn pending_blocks(&self) -> (pending: (BlockNumber, Vec<BlockHash>))
        ensures
            call_ensures(Tree::pending_blocks, (&self.tree(),), pending),
    {
        self.tree.pending_blocks()
    }

    fn pending_block_num_hash(&self) -> (pending: Option<BlockNumHash>)
        ensures
            call_ensures(Tree::pending_block_num_hash, (&self.tree(),), pending),
    {
        self.tree.pending_block_num_hash()
    }

    fn pending_block_and_receipts(&self) -> (pending: Option<(SealedBlock, Vec<Receipt>)>)
        ensures
            call_ensures(Tree::pending_block_and_receipts, (&self.tree(),), pending),
    {
        self.tree.pending_block_and_receipts()
    }

    fn receipts_by_block_hash(&self, block_hash: BlockHash) -> (receipts: Option<Vec<Receipt>>)
        ensures
            call_ensures(Tree::receipts_by_block_hash, (&self.tree(), block_hash), receipts),
    {
        self.tree.receipts_by_block_hash(block_hash)
    }
}

impl<DB, Tree: BlockchainTreePendingStateProvider> BlockchainTreePendingStateProvider for BlockchainProvider<DB, Tree> {
    type Bundle = Tree::Bundle;

    fn find_pending_state_provider(&self, block_hash: BlockHash) -> (found: Option<Self::Bundle>)
        ensures
            call_ensures(Tree::find_pending_state_provider, (&self.tree(), block_hash), found),
    {
        self.tree.find_pending_state_provider(block_hash)
    }
}

impl<DB, Tree: CanonStateSubscriptions> CanonStateSubscriptions for BlockchainProvider<DB, Tree> {
    type Notifications = Tree::Notifications;

    fn subscribe_to_canonical_state(&self) -> (notifications: Self::Notifications)
        ensures
            call_ensures(Tree::subscribe_to_canonical_state, (&self.tree(),), notifications),
    {
        self.tree.subscribe_to_canonical_state()
    }
}

} // verus!
