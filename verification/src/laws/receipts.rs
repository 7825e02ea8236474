//! What is answered when the receipts of a block are asked for, said of the database and of the
//! tree.

use crate::database::Database;
use crate::error::{RethError, RethResult};
use crate::primitives::{BlockHashOrNumber, BlockId, BlockNumberOrTag, Receipt, RpcBlockHash};
use crate::provider::BlockchainProvider;
use crate::traits::{BlockchainTreeViewer, ReceiptProvider, ReceiptProviderIdExt};
use vstd::prelude::*;

verus! {

/// The receipts of a block that is asked for by its hash and does not have to be canonical are what
/// one fresh read of the database has for that hash. Only if the read has nothing for it, they are
/// what the tree has for the same hash. An error is always the database's.
pub proof fn receipts_by_hash_are_stored_or_in_the_tree<DB: Database, Tree: BlockchainTreeViewer>(
    provider: BlockchainProvider<DB, Tree>,
    hash: RpcBlockHash,
    receipts: RethResult<Option<Vec<Receipt>>>,
)
    requires
        hash.require_canonical != Some(true),
        call_ensures(
            <BlockchainProvider<DB, Tree> as ReceiptProviderIdExt>::receipts_by_block_id,
            (&provider, BlockId::Hash(hash)),
            receipts,
        ),
    ensures
        exists|read: RethResult<DB::Provider>| #[trigger]
            call_ensures(DB::provider, (&provider.db(),), read) && match read {
                Ok(read) => exists|stored: RethResult<Option<Vec<Receipt>>>| #[trigger]
                    call_ensures(
                        DB::Provider::receipts_by_block,
                        (&read, BlockHashOrNumber::Hash(hash.block_hash)),
                        stored,
                    ) && match stored {
                        Ok(None) => receipts is Ok && call_ensures(
                            Tree::receipts_by_block_hash,
                            (&provider.tree(), hash.block_hash),
                            receipts->Ok_0,
                        ),
                        _ => receipts == stored,
                    },
                Err(error) => receipts == Err::<Option<Vec<Receipt>>, RethError>(error),
            },
{
}

/// The receipts of a block that has to be canonical are what one fresh read of the database has for
/// its hash: the tree plays no part.
pub proof fn receipts_of_a_canonical_hash_are_the_databases<
    DB: Database,
    Tree: BlockchainTreeViewer,
>(
    provider: BlockchainProvider<DB, Tree>,
    hash: RpcBlockHash,
    receipts: RethResult<Option<Vec<Receipt>>>,
)
    requires
        hash.require_canonical == Some(true),
        call_ensures(
            <BlockchainProvider<DB, Tree> as ReceiptProviderIdExt>::receipts_by_block_id,
            (&provider, BlockId::Hash(hash)),
            receipts,
        ),
    ensures
        exists|read: RethResult<DB::Provider>| #[trigger]
            call_ensures(DB::provider, (&provider.db(),), read) && match read {
                Ok(read) => call_ensures(
                    DB::Provider::receipts_by_block,
                    (&read, BlockHashOrNumber::Hash(hash.block_hash)),
                    receipts,
                ),
                Err(error) => receipts == Err::<Option<Vec<Receipt>>, RethError>(error),
            },
{
}

/// Receipts may be answered for a hash whose block need not be canonical exactly if a fresh read of
/// the database may have them for that hash and they are not `None`, or if it may have nothing and
/// they are what the tree may have for the same hash. They are the same for two providers over the
/// same sources, whatever heads they track.
pub proof fn receipts_for_a_hash_have_two_sources<DB: Database, Tree: BlockchainTreeViewer>(
    provider: BlockchainProvider<DB, Tree>,
    other: BlockchainProvider<DB, Tree>,
    hash: RpcBlockHash,
    receipts: RethResult<Option<Vec<Receipt>>>,
)
    requires
        hash.require_canonical != Some(true),
    ensures
        provider.answers_receipts_by_id(BlockId::Hash(hash), receipts) <==> {
            ||| receipts != Ok::<Option<Vec<Receipt>>, RethError>(None)
                && exists|read: RethResult<DB::Provider>| #[trigger]
                call_ensures(DB::provider, (&provider.db(),), read) && match read {
                    Ok(read) => call_ensures(
                        DB::Provider::receipts_by_block,
                        (&read, BlockHashOrNumber::Hash(hash.block_hash)),
                        receipts,
                    ),
                    Err(error) => receipts == Err::<Option<Vec<Receipt>>, RethError>(error),
                }
            ||| (receipts is Ok && call_ensures(
                Tree::receipts_by_block_hash,
                (&provider.tree(), hash.block_hash),
                receipts->Ok_0,
            ) && exists|read: RethResult<DB::Provider>| #[trigger]
                call_ensures(DB::provider, (&provider.db(),), read) && read is Ok && call_ensures(
                    DB::Provider::receipts_by_block,
                    (&read->Ok_0, BlockHashOrNumber::Hash(hash.block_hash)),
                    Ok(None),
                ))
        },
        provider.db() == other.db() && provider.tree() == other.tree() ==> (
        provider.answers_receipts_by_id(BlockId::Hash(hash), receipts)
            <==> other.answers_receipts_by_id(BlockId::Hash(hash), receipts)),
{
    let block = BlockHashOrNumber::Hash(hash.block_hash);
    let nothing: RethResult<Option<Vec<Receipt>>> = Ok(None);
    assert(provider.answers_receipts_by_id(BlockId::Hash(hash), receipts) <==> {
        ||| receipts != nothing && provider.reads_receipts(block, receipts)
        ||| receipts is Ok && provider.reads_receipts(block, nothing) && call_ensures(
            Tree::receipts_by_block_hash,
            (&provider.tree(), hash.block_hash),
            receipts->Ok_0,
        )
    });
    assert(other.answers_receipts_by_id(BlockId::Hash(hash), receipts) <==> {
        ||| receipts != nothing && other.reads_receipts(block, receipts)
        ||| receipts is Ok && other.reads_receipts(block, nothing) && call_ensures(
            Tree::receipts_by_block_hash,
            (&other.tree(), hash.block_hash),
            receipts->Ok_0,
        )
    });
}

/// The receipts of the pending block are what the tree answers for them, and never an error. Those
/// of a block in any other role are what one fresh read of the database has for the number of the
/// block in that role, and where no block has the role there are none.
pub proof fn receipts_by_role_are_those_of_the_number<DB: Database, Tree: BlockchainTreeViewer>(
    provider: BlockchainProvider<DB, Tree>,
    id: BlockNumberOrTag,
    receipts: RethResult<Option<Vec<Receipt>>>,
)
    requires
        call_ensures(
            <BlockchainProvider<DB, Tree> as ReceiptProviderIdExt>::receipts_by_block_id,
            (&provider, BlockId::Number(id)),
            receipts,
        ),
    ensures
        id is Latest ==> exists|read: RethResult<DB::Provider>| #[trigger]
            call_ensures(DB::provider, (&provider.db(),), read) && match read {
                Ok(read) => call_ensures(
                    DB::Provider::receipts_by_block,
                    (
                        &read,
                        BlockHashOrNumber::Number(
                            provider.chain().canonical_head.header.number,
                        ),
                    ),
                    receipts,
                ),
                Err(error) => receipts == Err::<Option<Vec<Receipt>>, RethError>(error),
            },
        id is Earliest ==> exists|read: RethResult<DB::Provider>| #[trigger]
            call_ensures(DB::provider, (&provider.db(),), read) && match read {
                Ok(read) => call_ensures(
                    DB::Provider::receipts_by_block,
                    (&read, BlockHashOrNumber::Number(0u64)),
                    receipts,
                ),
                Err(error) => receipts == Err::<Option<Vec<Receipt>>, RethError>(error),
            },
        id matches BlockNumberOrTag::Number(number)
            ==> exists|read: RethResult<DB::Provider>| #[trigger]
            call_ensures(DB::provider, (&provider.db(),), read) && match read {
                Ok(read) => call_ensures(
                    DB::Provider::receipts_by_block,
                    (&read, BlockHashOrNumber::Number(number)),
                    receipts,
                ),
                Err(error) => receipts == Err::<Option<Vec<Receipt>>, RethError>(error),
            },
        id is Safe ==> match provider.chain().safe_block {
            Some(safe) => exists|read: RethResult<DB::Provider>| #[trigger]
                call_ensures(DB::provider, (&provider.db(),), read) && match read {
                    Ok(read) => call_ensures(
                        DB::Provider::receipts_by_block,
                        (&read, BlockHashOrNumber::Number(safe.header.number)),
                        receipts,
                    ),
                    Err(error) => receipts == Err::<Option<Vec<Receipt>>, RethError>(error),
                },
            None => receipts == Ok::<Option<Vec<Receipt>>, RethError>(None),
        },
        id is Finalized ==> match provider.chain().finalized_block {
            Some(finalized) => exists|read: RethResult<DB::Provider>| #[trigger]
                call_ensures(DB::provider, (&provider.db(),), read) && match read {
                    Ok(read) => call_ensures(
                        DB::Provider::receipts_by_block,
                        (&read, BlockHashOrNumber::Number(finalized.header.number)),
                        receipts,
                    ),
                    Err(error) => receipts == Err::<Option<Vec<Receipt>>, RethError>(error),
                },
            None => receipts == Ok::<Option<Vec<Receipt>>, RethError>(None),
        },
        id is Pending ==> receipts is Ok && call_ensures(
            Tree::pending_receipts,
            (&provider.tree(),),
            receipts->Ok_0,
        ),
{
}

} // verus!
