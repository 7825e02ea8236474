//! Blocks, from the database and from the tree.

use crate::database::Database;
use crate::error::{RethError, RethResult};
use crate::primitives::{
    Block, BlockHash, BlockHashOrNumber, BlockNumber, BlockSource, BlockWithSenders, Header,
    Receipt, SealedBlock, StoredBlockBodyIndices, H256,
};
use crate::provider::{reads, BlockchainProvider};
use crate::resolve::{asks_tree, found_block, spec_unsealed_block};
use crate::traits::{self, BlockReader};
use vstd::prelude::*;

verus! {

impl<DB: Database, Tree: traits::BlockchainTreeViewer> BlockchainProvider<DB, Tree> {
    /// `block` is what the database may answer for this hash.
    pub open spec fn reads_block_by_hash(
        self,
        hash: BlockHash,
        block: RethResult<Option<Block>>,
    ) -> bool {
        reads(
            self.db(),
            |provider: DB::Provider, block: RethResult<Option<Block>>|
                call_ensures(DB::Provider::block_by_hash, (&provider, hash), block),
            block,
        )
    }

    /// `block` is what the database may answer for this number.
    pub open spec fn reads_block_by_number(
        self,
        number: BlockNumber,
        block: RethResult<Option<Block>>,
    ) -> bool {
        reads(
            self.db(),
            |provider: DB::Provider, block: RethResult<Option<Block>>|
                call_ensures(DB::Provider::block_by_number, (&provider, number), block),
            block,
        )
    }

    /// `ommers` is what the database may answer for this block.
    pub open spec fn reads_ommers(
        self,
        id: BlockHashOrNumber,
        ommers: RethResult<Option<Vec<Header>>>,
    ) -> bool {
        reads(
            self.db(),
            |provider: DB::Provider, ommers: RethResult<Option<Vec<Header>>>|
                call_ensures(DB::Provider::ommers, (&provider, id), ommers),
            ommers,
        )
    }

    /// `block` is what the tree may have for this hash, unsealed.
    pub open spec fn finds_block_in_tree(
        self,
        hash: BlockHash,
        block: RethResult<Option<Block>>,
    ) -> bool {
        exists|in_tree: Option<SealedBlock>| #[trigger]
            call_ensures(Tree::block_by_hash, (&self.tree(), hash), in_tree) && block == Ok::<
                Option<Block>,
                RethError,
            >(spec_unsealed_block(in_tree))
    }

    /// `block` is what may be found for this hash where `source` says. Where both the database and
    /// the tree are looked at, the tree counts only if the database has it not.
    pub open spec fn finds_block(
        self,
        hash: BlockHash,
        source: BlockSource,
        block: RethResult<Option<Block>>,
    ) -> bool {
        match source {
            BlockSource::Any => exists|stored: RethResult<Option<Block>>| #[trigger]
                self.reads_block_by_hash(hash, stored) && if stored == Ok::<
                    Option<Block>,
                    RethError,
                >(None) {
                    self.finds_block_in_tree(hash, block)
                } else {
                    block == stored
                },
            BlockSource::Pending => self.finds_block_in_tree(hash, block),
            BlockSource::Database => self.reads_block_by_hash(hash, block),
        }
    }

    /// `block` is what may be answered for this hash or number: a hash is looked for in the
    /// database and in the tree, a number only in the database.
    pub open spec fn answers_block(
        self,
        id: BlockHashOrNumber,
        block: RethResult<Option<Block>>,
    ) -> bool {
        match id {
            BlockHashOrNumber::Hash(hash) => self.finds_block(hash, BlockSource::Any, block),
            BlockHashOrNumber::Number(number) => self.reads_block_by_number(number, block),
        }
    }

    /// Reads the block with this hash from the database.
    fn read_block_by_hash(&self, hash: BlockHash) -> (block: RethResult<Option<Block>>)
        ensures
            self.reads_block_by_hash(hash, block),
    {
        self.provider()?.block_by_hash(hash)
    }
}

impl<DB: Database, Tree: traits::BlockchainTreeViewer> BlockReader for BlockchainProvider<DB, Tree> {
    fn find_block_by_hash(&self, hash: H256, source: BlockSource) -> (block: RethResult<
        Option<Block>,
    >)
        ensures
            self.finds_block(hash, source, block),
    {
        let stored = match source {
            BlockSource::Pending => Ok(None),
            _ => self.read_block_by_hash(hash),
        };
        // The unsealed block is fine: who asks by hash has the hash.
        let in_tree = if asks_tree(source, &stored) {
            self.tree.block_by_hash(hash)
        } else {
            None
        };
        found_block(source, stored, in_tree)
    }

    fn block(&self, id: BlockHashOrNumber) -> (block: RethResult<Option<Block>>)
        ensures
            self.answers_block(id, block),
    {
        match id {
            BlockHashOrNumber::Hash(hash) => self.find_block_by_hash(hash, BlockSource::Any),
            BlockHashOrNumber::Number(num) => self.provider()?.block_by_number(num),
        }
    }

    fn pending_block(&self) -> (pending: RethResult<Option<SealedBlock>>)
        ensures
            pending matches Ok(pending) && call_ensures(
                Tree::pending_block,
                (&self.tree(),),
                pending,
            ),
    {
        Ok(self.tree.pending_block())
    }

    fn pending_block_and_receipts(&self) -> (pending: RethResult<
        Option<(SealedBlock, Vec<Receipt>)>,
    >)
        ensures
            pending matches Ok(pending) && call_ensures(
                Tree::pending_block_and_receipts,
                (&self.tree(),),
                pending,
            ),
    {
        Ok(self.tree.pending_block_and_receipts())
    }

    fn ommers(&self, id: BlockHashOrNumber) -> (ommers: RethResult<Option<Vec<Header>>>)
        ensures
            self.reads_ommers(id, ommers),
    {
        self.provider()?.ommers(id)
    }

    fn block_body_indices(
        &self,
        number: BlockNumber,
    ) -> (indices: RethResult<Option<StoredBlockBodyIndices>>)
        ensures
            reads(
                self.db(),
                |provider: DB::Provider, indices: RethResult<Option<StoredBlockBodyIndices>>|
                    call_ensures(DB::Provider::block_body_indices, (&provider, number), indices),
                indices,
            ),
    {
        self.provider()?.block_body_indices(number)
    }

    /// Returns the block with senders with matching number from database.
    ///
    /// **NOTE: The transactions have invalid hashes, since they would need to be calculated on the
    /// spot, and we want fast querying.**
    ///
    /// Returns `None` if block is not found.
    fn block_with_senders(
        &self,
        number: BlockNumber,
    ) -> (block: RethResult<Option<BlockWithSenders>>)
        ensures
            reads(
                self.db(),
                |provider: DB::Provider, block: RethResult<Option<BlockWithSenders>>|
                    call_ensures(DB::Provider::block_with_senders, (&provider, number), block),
                block,
            ),
    {
        self.provider()?.block_with_senders(number)
    }

    fn block_by_hash(&self, hash: H256) -> (block: RethResult<Option<Block>>)
        ensures
            self.answers_block(BlockHashOrNumber::Hash(hash), block),
    {
        self.block(BlockHashOrNumber::Hash(hash))
    }

    fn block_by_number(&self, num: BlockNumber) -> (block: RethResult<Option<Block>>)
        ensures
            self.answers_block(BlockHashOrNumber::Number(num), block),
    {
        self.block(BlockHashOrNumber::Number(num))
    }
}

} // verus!
