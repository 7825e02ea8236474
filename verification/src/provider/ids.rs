//! Block numbers, and what the roles of blocks stand for.

use crate::chain_info::spec_num_hash_of;
use crate::database::Database;
use crate::error::{RethError, RethResult};
use crate::primitives::{BlockNumHash, BlockNumber, BlockNumberOrTag, ChainInfo, H256};
use crate::provider::{reads, BlockchainProvider};
use crate::resolve::{number_of, spec_number_of};
use crate::traits::{self, BlockIdReader, BlockNumReader};
use vstd::prelude::*;

verus! {

impl<DB: Database, Tree: traits::BlockchainTreeViewer> BlockNumReader for BlockchainProvider<DB, Tree> {
    fn chain_info(&self) -> (info: RethResult<ChainInfo>)
        ensures
            info == Ok::<ChainInfo, RethError>(
                ChainInfo {
                    best_hash: self.chain().canonical_head.hash,
                    best_number: self.chain().canonical_head.header.number,
                },
            ),
    {
        Ok(self.chain_info.chain_info())
    }

    fn best_block_number(&self) -> (number: RethResult<BlockNumber>)
        ensures
            number == Ok::<BlockNumber, RethError>(self.chain().canonical_head.header.number),
    {
        Ok(self.chain_info.get_canonical_block_number())
    }

    fn last_block_number(&self) -> (number: RethResult<BlockNumber>)
        ensures
            reads(
                self.db(),
                |provider: DB::Provider, number: RethResult<BlockNumber>|
                    call_ensures(DB::Provider::last_block_number, (&provider,), number),
                number,
            ),
    {
        self.provider()?.last_block_number()
    }

    fn block_number(&self, hash: H256) -> (number: RethResult<Option<BlockNumber>>)
        ensures
            reads(
                self.db(),
                |provider: DB::Provider, number: RethResult<Option<BlockNumber>>|
                    call_ensures(DB::Provider::block_number, (&provider, hash), number),
                number,
            ),
    {
        self.provider()?.block_number(hash)
    }
}

impl<DB, Tree: traits::BlockchainTreeViewer> BlockchainProvider<DB, Tree> {
    /// `number` is what `num` may stand for. Only the pending block is up to the tree. The safe and
    /// the finalized block stand for nothing until they are announced.
    pub open spec fn stands_for(self, num: BlockNumberOrTag, number: Option<BlockNumber>) -> bool {
        match num {
            BlockNumberOrTag::Latest => number == Some(self.chain().canonical_head.header.number),
            BlockNumberOrTag::Finalized => number == spec_number_of(
                spec_num_hash_of(self.chain().finalized_block),
            ),
            BlockNumberOrTag::Safe => number == spec_number_of(
                spec_num_hash_of(self.chain().safe_block),
            ),
            BlockNumberOrTag::Earliest => number == Some(0u64),
            BlockNumberOrTag::Pending => exists|pending: Option<BlockNumHash>| #[trigger]
                call_ensures(Tree::pending_block_num_hash, (&self.tree(),), pending) && number
                    == spec_number_of(pending),
            BlockNumberOrTag::Number(num) => number == Some(num),
        }
    }
}

impl<DB: Database, Tree: traits::BlockchainTreeViewer> BlockIdReader for BlockchainProvider<DB, Tree> {
    fn pending_block_num_hash(&self) -> (pending: RethResult<Option<BlockNumHash>>)
        ensures
            pending matches Ok(pending) && call_ensures(
                Tree::pending_block_num_hash,
                (&self.tree(),),
                pending,
            ),
    {
        Ok(self.tree.pending_block_num_hash())
    }

    fn safe_block_num_hash(&self) -> (safe: RethResult<Option<BlockNumHash>>)
        ensures
            safe == Ok::<Option<BlockNumHash>, RethError>(
                spec_num_hash_of(self.chain().safe_block),
            ),
    {
        Ok(self.chain_info.get_safe_num_hash())
    }

    fn finalized_block_num_hash(&self) -> (finalized: RethResult<Option<BlockNumHash>>)
        ensures
            finalized == Ok::<Option<BlockNumHash>, RethError>(
                spec_num_hash_of(self.chain().finalized_block),
            ),
    {
        Ok(self.chain_info.get_finalized_num_hash())
    }

    fn convert_block_number(&self, num: BlockNumberOrTag) -> (number: RethResult<
        Option<BlockNumber>,
    >)
        ensures
            number matches Ok(number) && self.stands_for(num, number),
    {
        match num {
            BlockNumberOrTag::Latest => Ok(Some(self.best_block_number()?)),
            BlockNumberOrTag::Finalized => Ok(number_of(self.finalized_block_num_hash()?)),
            BlockNumberOrTag::Safe => Ok(number_of(self.safe_block_num_hash()?)),
            BlockNumberOrTag::Earliest => Ok(Some(0)),
            BlockNumberOrTag::Pending => {
                Ok(number_of(self.pending_block_num_hash()?))
            },
            BlockNumberOrTag::Number(num) => Ok(Some(num)),
        }
    }
}

} // verus!
