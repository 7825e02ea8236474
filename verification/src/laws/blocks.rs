//! What is answered when a block or its ommers are asked for, said of the database and of the tree.

use crate::database::Database;
use crate::error::{RethError, RethResult};
use crate::primitives::{
    Block, BlockHashOrNumber, BlockId, BlockNumHash, BlockNumber, BlockNumberOrTag, BlockSource,
    Header, Receipt, RpcBlockHash, SealedBlock, SealedHeader, H256,
};
use crate::provider::BlockchainProvider;
use crate::resolve::spec_unsealed_block;
use crate::traits::{
    BlockReader, BlockReaderIdExt, BlockchainTreeEngine, BlockchainTreeViewer,
};
use vstd::prelude::*;

verus! {

/// A block that is looked for only in the tree is the tree's block for that hash, with nothing lost
/// but the hash: its whole header, its transactions, its ommers and its withdrawals. It is not
/// there if the tree has it not, and the lookup never fails.
pub proof fn a_block_of_the_tree_is_handed_out_whole<DB: Database, Tree: BlockchainTreeViewer>(
    provider: BlockchainProvider<DB, Tree>,
    hash: H256,
    block: RethResult<Option<Block>>,
)
    requires
        call_ensures(
            <BlockchainProvider<DB, Tree> as BlockReader>::find_block_by_hash,
            (&provider, hash, BlockSource::Pending),
            block,
        ),
    ensures
        exists|in_tree: Option<SealedBlock>| #[trigger]
            call_ensures(
                Tree::block_by_hash,
                (&provider.tree(), hash),
                in_tree,
            ) && match (in_tree, block) {
                (Some(sealed), Ok(Some(block))) => {
                    &&& block.header == sealed.header.header
                    &&& block.body == sealed.body
                    &&& block.ommers == sealed.ommers
                    &&& block.withdrawals == sealed.withdrawals
                },
                (None, Ok(None)) => true,
                _ => false,
            },
{
}

/// A block may be found in the tree for a hash exactly if the tree may have a sealed block for it
/// of which it is every part. Sealed again with the hash that the tree knows it by, its header is
/// the tree's header.
pub proof fn what_is_found_in_the_tree_seals_back<DB: Database, Tree: BlockchainTreeViewer>(
    provider: BlockchainProvider<DB, Tree>,
    hash: H256,
    block: Block,
)
    ensures
        provider.finds_block_in_tree(hash, Ok(Some(block)))
            <==> exists|sealed: SealedBlock| #[trigger]
            call_ensures(Tree::block_by_hash, (&provider.tree(), hash), Some(sealed)) && {
                &&& sealed.header == (SealedHeader {
                    header: block.header,
                    hash: sealed.header.hash,
                })
                &&& sealed.body == block.body
                &&& sealed.ommers == block.ommers
                &&& sealed.withdrawals == block.withdrawals
            },
        provider.finds_block_in_tree(hash, Ok(None)) <==> call_ensures(
            Tree::block_by_hash,
            (&provider.tree(), hash),
            None,
        ),
        forall|error: RethError| !provider.finds_block_in_tree(hash, Err(error)),
{
    if provider.finds_block_in_tree(hash, Ok(Some(block))) {
        let in_tree = choose|in_tree: Option<SealedBlock>| #[trigger]
            call_ensures(Tree::block_by_hash, (&provider.tree(), hash), in_tree) && Ok::<
                Option<Block>,
                RethError,
            >(Some(block)) == Ok::<Option<Block>, RethError>(spec_unsealed_block(in_tree));
        assert(in_tree == Some(in_tree->0));
    }
}

/// A block that is looked for only in the database, or that has to be canonical, is what one fresh
/// read of the database has for exactly that hash.
pub proof fn a_canonical_block_is_the_databases<DB: Database, Tree: BlockchainTreeEngine>(
    provider: BlockchainProvider<DB, Tree>,
    hash: H256,
    block: RethResult<Option<Block>>,
)
    requires
        ({
            ||| call_ensures(
                <BlockchainProvider<DB, Tree> as BlockReader>::find_block_by_hash,
                (&provider, hash, BlockSource::Database),
                block,
            )
            ||| call_ensures(
                <BlockchainProvider<DB, Tree> as BlockReaderIdExt>::block_by_id,
                (&provider, BlockId::Hash(
                    RpcBlockHash { block_hash: hash, require_canonical: Some(true) },
                )),
                block,
            )
        }),
    ensures
        exists|read: RethResult<DB::Provider>| #[trigger]
            call_ensures(DB::provider, (&provider.db(),), read) && match read {
                Ok(read) => call_ensures(DB::Provider::block_by_hash, (&read, hash), block),
                Err(error) => block == Err::<Option<Block>, RethError>(error),
            },
{
}

/// A block that is asked for by its hash, in any of the ways that do not demand a canonical one, is
/// what one fresh read of the database has for that hash. Only if the read has nothing for it, the
/// block is the tree's for the same hash, whole. An error is always the database's.
pub proof fn a_block_by_hash_is_stored_or_in_the_tree<DB: Database, Tree: BlockchainTreeEngine>(
    provider: BlockchainProvider<DB, Tree>,
    hash: H256,
    demand: Option<bool>,
    block: RethResult<Option<Block>>,
)
    requires
        demand != Some(true),
        ({
            ||| call_ensures(
                <BlockchainProvider<DB, Tree> as BlockReader>::find_block_by_hash,
                (&provider, hash, BlockSource::Any),
                block,
            )
            ||| call_ensures(
                <BlockchainProvider<DB, Tree> as BlockReader>::block,
                (&provider, BlockHashOrNumber::Hash(hash)),
                block,
            )
            ||| call_ensures(
                <BlockchainProvider<DB, Tree> as BlockReader>::block_by_hash,
                (&provider, hash),
                block,
            )
            ||| call_ensures(
                <BlockchainProvider<DB, Tree> as BlockReaderIdExt>::block_by_id,
                (&provider, BlockId::Hash(
                    RpcBlockHash { block_hash: hash, require_canonical: demand },
                )),
                block,
            )
        }),
    ensures
        exists|read: RethResult<DB::Provider>| #[trigger]
            call_ensures(DB::provider, (&provider.db(),), read) && match read {
                Ok(read) => exists|stored: RethResult<Option<Block>>| #[trigger]
                    call_ensures(DB::Provider::block_by_hash, (&read, hash), stored)
                        && match stored {
                        Ok(None) => exists|in_tree: Option<SealedBlock>| #[trigger]
                            call_ensures(
                                Tree::block_by_hash,
                                (&provider.tree(), hash),
                                in_tree,
                            ) && match (in_tree, block) {
                                (Some(sealed), Ok(Some(block))) => {
                                    &&& block.header == sealed.header.header
                                    &&& block.body == sealed.body
                                    &&& block.ommers == sealed.ommers
                                    &&& block.withdrawals == sealed.withdrawals
                                },
                                (None, Ok(None)) => true,
                                _ => false,
                            },
                        _ => block == stored,
                    },
                Err(error) => block == Err::<Option<Block>, RethError>(error),
            },
{
}

/// A block that is asked for by its number, in any of the ways to do so, is what one fresh read of
/// the database has for that number, whatever heads are tracked and whatever the tree has.
pub proof fn a_block_by_number_is_the_databases<DB: Database, Tree: BlockchainTreeEngine>(
    provider: BlockchainProvider<DB, Tree>,
    number: BlockNumber,
    block: RethResult<Option<Block>>,
)
    requires
        ({
            ||| call_ensures(
                <BlockchainProvider<DB, Tree> as BlockReader>::block,
                (&provider, BlockHashOrNumber::Number(number)),
                block,
            )
            ||| call_ensures(
                <BlockchainProvider<DB, Tree> as BlockReader>::block_by_number,
                (&provider, number),
                block,
            )
            ||| call_ensures(
                <BlockchainProvider<DB, Tree> as BlockReaderIdExt>::block_by_number_or_tag,
                (&provider, BlockNumberOrTag::Number(number)),
                block,
            )
            ||| call_ensures(
                <BlockchainProvider<DB, Tree> as BlockReaderIdExt>::block_by_id,
                (&provider, BlockId::Number(BlockNumberOrTag::Number(number))),
                block,
            )
        }),
    ensures
        exists|read: RethResult<DB::Provider>| #[trigger]
            call_ensures(DB::provider, (&provider.db(),), read) && match read {
                Ok(read) => call_ensures(DB::Provider::block_by_number, (&read, number), block),
                Err(error) => block == Err::<Option<Block>, RethError>(error),
            },
{
}

/// A block may be answered for a number exactly if one fresh read of the database may have it for
/// that number. So the answers of two providers over the same sources are the same, whatever heads
/// they track.
pub proof fn block_numbers_are_answered_by_reads_alone<DB: Database, Tree: BlockchainTreeViewer>(
    provider: BlockchainProvider<DB, Tree>,
    other: BlockchainProvider<DB, Tree>,
    number: BlockNumber,
    block: RethResult<Option<Block>>,
)
    ensures
        provider.answers_block(BlockHashOrNumber::Number(number), block)
            <==> exists|read: RethResult<DB::Provider>| #[trigger]
            call_ensures(DB::provider, (&provider.db(),), read) && match read {
                Ok(read) => call_ensures(DB::Provider::block_by_number, (&read, number), block),
                Err(error) => block == Err::<Option<Block>, RethError>(error),
            },
        provider.db() == other.db() ==> (provider.answers_block(
            BlockHashOrNumber::Number(number),
            block,
        ) <==> other.answers_block(BlockHashOrNumber::Number(number), block)),
{
}

/// What may be found for a hash depends on the database and on the tree alone: it is the same for
/// two providers over the same sources, whatever heads they track, wherever is looked.
pub proof fn block_hashes_are_answered_by_the_sources_alone<
    DB: Database,
    Tree: BlockchainTreeViewer,
>(
    provider: BlockchainProvider<DB, Tree>,
    other: BlockchainProvider<DB, Tree>,
    hash: H256,
    source: BlockSource,
    block: RethResult<Option<Block>>,
)
    requires
        provider.db() == other.db(),
        provider.tree() == other.tree(),
    ensures
        provider.finds_block(hash, source, block) <==> other.finds_block(hash, source, block),
{
    assert forall|stored: RethResult<Option<Block>>|
        #![trigger provider.reads_block_by_hash(hash, stored)]
        #![trigger other.reads_block_by_hash(hash, stored)]
        provider.reads_block_by_hash(hash, stored)
            <==> other.reads_block_by_hash(hash, stored) by {}
    assert(provider.finds_block_in_tree(hash, block) <==> other.finds_block_in_tree(hash, block));
}

/// A block that is asked for by its role is what one fresh read of the database has for the number
/// of the block in that role: of the tracked tip, of the announced safe or finalized block, zero
/// for the earliest, and of the tree's pending block. Where no block has the role there is none,
/// and no error.
pub proof fn a_block_by_role_is_the_block_with_its_number<DB: Database, Tree: BlockchainTreeEngine>(
    provider: BlockchainProvider<DB, Tree>,
    id: BlockNumberOrTag,
    block: RethResult<Option<Block>>,
)
    requires
        ({
            ||| call_ensures(
                <BlockchainProvider<DB, Tree> as BlockReaderIdExt>::block_by_number_or_tag,
                (&provider, id),
                block,
            )
            ||| call_ensures(
                <BlockchainProvider<DB, Tree> as BlockReaderIdExt>::block_by_id,
                (&provider, BlockId::Number(id)),
                block,
            )
        }),
    ensures
        id is Latest ==> exists|read: RethResult<DB::Provider>| #[trigger]
            call_ensures(DB::provider, (&provider.db(),), read) && match read {
                Ok(read) => call_ensures(
                    DB::Provider::block_by_number,
                    (&read, provider.chain().canonical_head.header.number),
                    block,
                ),
                Err(error) => block == Err::<Option<Block>, RethError>(error),
            },
        id is Earliest ==> exists|read: RethResult<DB::Provider>| #[trigger]
            call_ensures(DB::provider, (&provider.db(),), read) && match read {
                Ok(read) => call_ensures(DB::Provider::block_by_number, (&read, 0u64), block),
                Err(error) => block == Err::<Option<Block>, RethError>(error),
            },
        id matches BlockNumberOrTag::Number(number)
            ==> exists|read: RethResult<DB::Provider>| #[trigger]
            call_ensures(DB::provider, (&provider.db(),), read) && match read {
                Ok(read) => call_ensures(DB::Provider::block_by_number, (&read, number), block),
                Err(error) => block == Err::<Option<Block>, RethError>(error),
            },
        id is Safe ==> match provider.chain().safe_block {
            Some(safe) => exists|read: RethResult<DB::Provider>| #[trigger]
                call_ensures(DB::provider, (&provider.db(),), read) && match read {
                    Ok(read) => call_ensures(
                        DB::Provider::block_by_number,
                        (&read, safe.header.number),
                        block,
                    ),
                    Err(error) => block == Err::<Option<Block>, RethError>(error),
                },
            None => block == Ok::<Option<Block>, RethError>(None),
        },
        id is Finalized ==> match provider.chain().finalized_block {
            Some(finalized) => exists|read: RethResult<DB::Provider>| #[trigger]
                call_ensures(DB::provider, (&provider.db(),), read) && match read {
                    Ok(read) => call_ensures(
                        DB::Provider::block_by_number,
                        (&read, finalized.header.number),
                        block,
                    ),
                    Err(error) => block == Err::<Option<Block>, RethError>(error),
                },
            None => block == Ok::<Option<Block>, RethError>(None),
        },
        id is Pending ==> exists|pending: Option<BlockNumHash>| #[trigger]
            call_ensures(Tree::pending_block_num_hash, (&provider.tree(),), pending)
                && match pending {
                Some(pending) => exists|read: RethResult<DB::Provider>| #[trigger]
                    call_ensures(DB::provider, (&provider.db(),), read) && match read {
                        Ok(read) => call_ensures(
                            DB::Provider::block_by_number,
                            (&read, pending.number),
                            block,
                        ),
                        Err(error) => block == Err::<Option<Block>, RethError>(error),
                    },
                None => block == Ok::<Option<Block>, RethError>(None),
            },
{
}

/// The pending block, alone or with its receipts, is what the tree answers for it. Asking never
/// fails.
pub proof fn the_pending_block_is_the_trees<DB: Database, Tree: BlockchainTreeViewer>(
    provider: BlockchainProvider<DB, Tree>,
    block: RethResult<Option<SealedBlock>>,
    with_receipts: RethResult<Option<(SealedBlock, Vec<Receipt>)>>,
)
    ensures
        call_ensures(
            <BlockchainProvider<DB, Tree> as BlockReader>::pending_block,
            (&provider,),
            block,
        ) ==> block is Ok && call_ensures(
            Tree::pending_block,
            (&provider.tree(),),
            block->Ok_0,
        ),
        call_ensures(
            <BlockchainProvider<DB, Tree> as BlockReader>::pending_block_and_receipts,
            (&provider,),
            with_receipts,
        ) ==> with_receipts is Ok && call_ensures(
            Tree::pending_block_and_receipts,
            (&provider.tree(),),
            with_receipts->Ok_0,
        ),
{
}

/// The ommers of a block that is asked for by its role are what one fresh read of the database has
/// for the number of the block in that role. Where no block has the role there are none, and no
/// error.
pub proof fn ommers_by_role_are_those_of_the_number<DB: Database, Tree: BlockchainTreeEngine>(
    provider: BlockchainProvider<DB, Tree>,
    id: BlockNumberOrTag,
    ommers: RethResult<Option<Vec<Header>>>,
)
    requires
        ({
            ||| call_ensures(
                <BlockchainProvider<DB, Tree> as BlockReaderIdExt>::ommers_by_number_or_tag,
                (&provider, id),
                ommers,
            )
            ||| call_ensures(
                <BlockchainProvider<DB, Tree> as BlockReaderIdExt>::ommers_by_id,
                (&provider, BlockId::Number(id)),
                ommers,
            )
        }),
    ensures
        id is Latest ==> exists|read: RethResult<DB::Provider>| #[trigger]
            call_ensures(DB::provider, (&provider.db(),), read) && match read {
                Ok(read) => call_ensures(
                    DB::Provider::ommers,
                    (
                        &read,
                        BlockHashOrNumber::Number(
                            provider.chain().canonical_head.header.number,
                        ),
                    ),
                    ommers,
                ),
                Err(error) => ommers == Err::<Option<Vec<Header>>, RethError>(error),
            },
        id is Earliest ==> exists|read: RethResult<DB::Provider>| #[trigger]
            call_ensures(DB::provider, (&provider.db(),), read) && match read {
                Ok(read) => call_ensures(
                    DB::Provider::ommers,
                    (&read, BlockHashOrNumber::Number(0u64)),
                    ommers,
                ),
                Err(error) => ommers == Err::<Option<Vec<Header>>, RethError>(error),
            },
        id matches BlockNumberOrTag::Number(number)
            ==> exists|read: RethResult<DB::Provider>| #[trigger]
            call_ensures(DB::provider, (&provider.db(),), read) && match read {
                Ok(read) => call_ensures(
                    DB::Provider::ommers,
                    (&read, BlockHashOrNumber::Number(number)),
                    ommers,
                ),
                Err(error) => ommers == Err::<Option<Vec<Header>>, RethError>(error),
            },
        id is Safe ==> match provider.chain().safe_block {
            Some(safe) => exists|read: RethResult<DB::Provider>| #[trigger]
                call_ensures(DB::provider, (&provider.db(),), read) && match read {
                    Ok(read) => call_ensures(
                        DB::Provider::ommers,
                        (&read, BlockHashOrNumber::Number(safe.header.number)),
                        ommers,
                    ),
                    Err(error) => ommers == Err::<Option<Vec<Header>>, RethError>(error),
                },
            None => ommers == Ok::<Option<Vec<Header>>, RethError>(None),
        },
        id is Finalized ==> match provider.chain().finalized_block {
            Some(finalized) => exists|read: RethResult<DB::Provider>| #[trigger]
                call_ensures(DB::provider, (&provider.db(),), read) && match read {
                    Ok(read) => call_ensures(
                        DB::Provider::ommers,
                        (&read, BlockHashOrNumber::Number(finalized.header.number)),
                        ommers,
                    ),
                    Err(error) => ommers == Err::<Option<Vec<Header>>, RethError>(error),
                },
            None => ommers == Ok::<Option<Vec<Header>>, RethError>(None),
        },
        id is Pending ==> exists|pending: Option<BlockNumHash>| #[trigger]
            call_ensures(Tree::pending_block_num_hash, (&provider.tree(),), pending)
                && match pending {
                Some(pending) => exists|read: RethResult<DB::Provider>| #[trigger]
                    call_ensures(DB::provider, (&provider.db(),), read) && match read {
                        Ok(read) => call_ensures(
                            DB::Provider::ommers,
                            (&read, BlockHashOrNumber::Number(pending.number)),
                            ommers,
                        ),
                        Err(error) => ommers == Err::<Option<Vec<Header>>, RethError>(error),
                    },
                None => ommers == Ok::<Option<Vec<Header>>, RethError>(None),
            },
{
}

/// The ommers of a block that is asked for by its hash are what one fresh read of the database has
/// for that hash, whether or not the block has to be canonical.
pub proof fn ommers_by_hash_are_the_databases<DB: Database, Tree: BlockchainTreeEngine>(
    provider: BlockchainProvider<DB, Tree>,
    hash: RpcBlockHash,
    ommers: RethResult<Option<Vec<Header>>>,
)
    requires
        call_ensures(
            <BlockchainProvider<DB, Tree> as BlockReaderIdExt>::ommers_by_id,
            (&provider, BlockId::Hash(hash)),
            ommers,
        ),
    ensures
        exists|read: RethResult<DB::Provider>| #[trigger]
            call_ensures(DB::provider, (&provider.db(),), read) && match read {
                Ok(read) => call_ensures(
                    DB::Provider::ommers,
                    (&read, BlockHashOrNumber::Hash(hash.block_hash)),
                    ommers,
                ),
                Err(error) => ommers == Err::<Option<Vec<Header>>, RethError>(error),
            },
{
}

} // verus!
