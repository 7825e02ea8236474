//! Blocks and headers, by the name that a caller gives a block.

use crate::database::Database;
use crate::error::{RethError, RethResult};
use crate::primitives::{
    Block, BlockHashOrNumber, BlockId, BlockNumber, BlockNumberOrTag, Header, SealedHeader,
};
use crate::provider::BlockchainProvider;
use crate::resolve::{
    seal_found, source_of, spec_seal_found, spec_source_of, spec_unsealed_header, unsealed_header,
};
use crate::traits::{self, BlockIdReader, BlockReader, BlockReaderIdExt, HeaderProvider};
use vstd::prelude::*;

verus! {

impl<DB: Database, Tree: traits::BlockchainTreeViewer> BlockchainProvider<DB, Tree> {
    /// `block` is what may be answered for this number or role.
    pub open spec fn answers_block_by_tag(
        self,
        id: BlockNumberOrTag,
        block: RethResult<Option<Block>>,
    ) -> bool {
        exists|number: Option<BlockNumber>| #[trigger]
            self.stands_for(id, number) && match number {
                Some(number) => self.answers_block(BlockHashOrNumber::Number(number), block),
                None => block == Ok::<Option<Block>, RethError>(None),
            }
    }

    /// `block` is what may be answered for this name. A block that has to be canonical is looked for
    /// only in the database.
    pub open spec fn answers_block_by_id(
        self,
        id: BlockId,
        block: RethResult<Option<Block>>,
    ) -> bool {
        match id {
            BlockId::Number(num) => self.answers_block_by_tag(num, block),
            BlockId::Hash(hash) => self.finds_block(hash.block_hash, spec_source_of(hash), block),
        }
    }

    /// `header` is what may be answered for this number or role: the tracked heads are known, the
    /// pending block is in the tree, and all others are in the database.
    pub open spec fn answers_header_by_tag(
        self,
        id: BlockNumberOrTag,
        header: RethResult<Option<Header>>,
    ) -> bool {
        match id {
            BlockNumberOrTag::Latest => header == Ok::<Option<Header>, RethError>(
                Some(self.chain().canonical_head.header),
            ),
            BlockNumberOrTag::Finalized => header == Ok::<Option<Header>, RethError>(
                spec_unsealed_header(self.chain().finalized_block),
            ),
            BlockNumberOrTag::Safe => header == Ok::<Option<Header>, RethError>(
                spec_unsealed_header(self.chain().safe_block),
            ),
            BlockNumberOrTag::Earliest => self.reads_header_by_number(0, header),
            BlockNumberOrTag::Pending => exists|pending: Option<SealedHeader>| #[trigger]
                call_ensures(Tree::pending_header, (&self.tree(),), pending) && header == Ok::<
                    Option<Header>,
                    RethError,
                >(spec_unsealed_header(pending)),
            BlockNumberOrTag::Number(num) => self.reads_header_by_number(num, header),
        }
    }

    /// `sealed` is what may be answered for this number, with the hash that the header hashes to.
    pub open spec fn answers_sealed_header_by_number(
        self,
        number: BlockNumber,
        sealed: RethResult<Option<SealedHeader>>,
    ) -> bool {
        exists|found: RethResult<Option<Header>>| #[trigger]
            self.reads_header_by_number(number, found) && sealed == spec_seal_found::<DB::Hasher>(
                found,
            )
    }

    /// `sealed` is what may be answered for this number or role. The tracked heads and the pending
    /// block have their hash, and stored headers are hashed.
    pub open spec fn answers_sealed_header_by_tag(
        self,
        id: BlockNumberOrTag,
        sealed: RethResult<Option<SealedHeader>>,
    ) -> bool {
        match id {
            BlockNumberOrTag::Latest => sealed == Ok::<Option<SealedHeader>, RethError>(
                Some(self.chain().canonical_head),
            ),
            BlockNumberOrTag::Finalized => sealed == Ok::<Option<SealedHeader>, RethError>(
                self.chain().finalized_block,
            ),
            BlockNumberOrTag::Safe => sealed == Ok::<Option<SealedHeader>, RethError>(
                self.chain().safe_block,
            ),
            BlockNumberOrTag::Earliest => self.answers_sealed_header_by_number(0, sealed),
            BlockNumberOrTag::Pending => sealed matches Ok(sealed) && call_ensures(
                Tree::pending_header,
                (&self.tree(),),
                sealed,
            ),
            BlockNumberOrTag::Number(num) => self.answers_sealed_header_by_number(num, sealed),
        }
    }

    /// `header` is what may be answered for this name. A hash is looked for only in the database,
    /// whether or not the block has to be canonical.
    pub open spec fn answers_header_by_id(
        self,
        id: BlockId,
        header: RethResult<Option<Header>>,
    ) -> bool {
        match id {
            BlockId::Number(num) => self.answers_header_by_tag(num, header),
            BlockId::Hash(hash) => self.reads_header(hash.block_hash, header),
        }
    }

    /// `sealed` is what may be answered for this name. A header that is found by its hash is hashed
    /// again.
    pub open spec fn answers_sealed_header_by_id(
        self,
        id: BlockId,
        sealed: RethResult<Option<SealedHeader>>,
    ) -> bool {
        match id {
            BlockId::Number(num) => self.answers_sealed_header_by_tag(num, sealed),
            BlockId::Hash(hash) => exists|found: RethResult<Option<Header>>| #[trigger]
                self.reads_header(hash.block_hash, found) && sealed == spec_seal_found::<
                    DB::Hasher,
                >(found),
        }
    }

    /// `ommers` is what may be answered for this number or role.
    pub open spec fn answers_ommers_by_tag(
        self,
        id: BlockNumberOrTag,
        ommers: RethResult<Option<Vec<Header>>>,
    ) -> bool {
        exists|number: Option<BlockNumber>| #[trigger]
            self.stands_for(id, number) && match number {
                Some(number) => self.reads_ommers(BlockHashOrNumber::Number(number), ommers),
                None => ommers == Ok::<Option<Vec<Header>>, RethError>(None),
            }
    }

    /// `ommers` is what may be answered for this name. A hash is looked for only in the database,
    /// whether or not the block has to be canonical.
    pub open spec fn answers_ommers_by_id(
        self,
        id: BlockId,
        ommers: RethResult<Option<Vec<Header>>>,
    ) -> bool {
        match id {
            BlockId::Number(num) => self.answers_ommers_by_tag(num, ommers),
            BlockId::Hash(hash) => self.reads_ommers(
                BlockHashOrNumber::Hash(hash.block_hash),
                ommers,
            ),
        }
    }
}

impl<DB: Database, Tree: traits::BlockchainTreeEngine> BlockReaderIdExt for BlockchainProvider<
    DB,
    Tree,
> {
    fn block_by_number_or_tag(&self, id: BlockNumberOrTag) -> (block: RethResult<Option<Block>>)
        ensures
            self.answers_block_by_tag(id, block),
    {
        match self.convert_block_number(id)? {
            Some(num) => self.block(BlockHashOrNumber::Number(num)),
            None => Ok(None),
        }
    }

    fn block_by_id(&self, id: BlockId) -> (block: RethResult<Option<Block>>)
        ensures
            self.answers_block_by_id(id, block),
    {
        match id {
            BlockId::Number(num) => self.block_by_number_or_tag(num),
            BlockId::Hash(hash) => self.find_block_by_hash(hash.block_hash, source_of(hash)),
        }
    }

    fn header_by_number_or_tag(&self, id: BlockNumberOrTag) -> (header: RethResult<Option<Header>>)
        ensures
            self.answers_header_by_tag(id, header),
    {
        match id {
            BlockNumberOrTag::Latest => Ok(Some(self.chain_info.get_canonical_head().unseal())),
            BlockNumberOrTag::Finalized => {
                Ok(unsealed_header(self.chain_info.get_finalized_header()))
            },
            BlockNumberOrTag::Safe => Ok(unsealed_header(self.chain_info.get_safe_header())),
            BlockNumberOrTag::Earliest => self.header_by_number(0),
            BlockNumberOrTag::Pending => {
                let pending = self.tree.pending_header();
                assert(call_ensures(Tree::pending_header, (&self.tree(),), pending));
                Ok(unsealed_header(pending))
            },
            BlockNumberOrTag::Number(num) => self.header_by_number(num),
        }
    }

    fn sealed_header_by_number_or_tag(&self, id: BlockNumberOrTag) -> (sealed: RethResult<
        Option<SealedHeader>,
    >)
        ensures
            self.answers_sealed_header_by_tag(id, sealed),
    {
        match id {
            BlockNumberOrTag::Latest => Ok(Some(self.chain_info.get_canonical_head())),
            BlockNumberOrTag::Finalized => Ok(self.chain_info.get_finalized_header()),
            BlockNumberOrTag::Safe => Ok(self.chain_info.get_safe_header()),
            BlockNumberOrTag::Earliest => seal_found::<DB::Hasher>(self.header_by_number(0)),
            BlockNumberOrTag::Pending => Ok(self.tree.pending_header()),
            BlockNumberOrTag::Number(num) => seal_found::<DB::Hasher>(self.header_by_number(num)),
        }
    }

    fn sealed_header_by_id(&self, id: BlockId) -> (sealed: RethResult<Option<SealedHeader>>)
        ensures
            self.answers_sealed_header_by_id(id, sealed),
    {
        match id {
            BlockId::Number(num) => self.sealed_header_by_number_or_tag(num),
            BlockId::Hash(hash) => seal_found::<DB::Hasher>(self.header(&hash.block_hash)),
        }
    }

    fn header_by_id(&self, id: BlockId) -> (header: RethResult<Option<Header>>)
        ensures
            self.answers_header_by_id(id, header),
    {
        match id {
            BlockId::Number(num) => self.header_by_number_or_tag(num),
            BlockId::Hash(hash) => self.header(&hash.block_hash),
        }
    }

    fn ommers_by_number_or_tag(&self, id: BlockNumberOrTag) -> (ommers: RethResult<
        Option<Vec<Header>>,
    >)
        ensures
            self.answers_ommers_by_tag(id, ommers),
    {
        match self.convert_block_number(id)? {
            Some(num) => self.ommers(BlockHashOrNumber::Number(num)),
            None => Ok(None),
        }
    }

    fn ommers_by_id(&self, id: BlockId) -> (ommers: RethResult<Option<Vec<Header>>>)
        ensures
            self.answers_ommers_by_id(id, ommers),
    {
        match id {
            BlockId::Number(num) => self.ommers_by_number_or_tag(num),
            BlockId::Hash(hash) => self.ommers(BlockHashOrNumber::Hash(hash.block_hash)),
        }
    }
}

} // verus!
