//! What is answered when a header is asked for by name, said of the database, of the tree and of
//! the tracked heads.

use crate::database::Database;
use crate::error::{RethError, RethResult};
use crate::primitives::{
    BlockId, BlockNumberOrTag, Header, HeaderHasher, RpcBlockHash, SealedHeader,
};
use crate::provider::BlockchainProvider;
use crate::traits::{
    BlockReaderIdExt, BlockchainTreeEngine, BlockchainTreeViewer, HeaderProvider,
};
use vstd::prelude::*;

verus! {

/// The header of the tip, of the safe and of the finalized block is the tracked one, in full, and
/// where none was announced there is none. The header of the pending block is the tree's. The
/// earliest header and a header by number are what one fresh read of the database has for the
/// number, zero for the earliest. Nothing that is tracked or pending fails.
pub proof fn headers_by_role_are_tracked_pending_or_stored<
    DB: Database,
    Tree: BlockchainTreeEngine,
>(
    provider: BlockchainProvider<DB, Tree>,
    id: BlockNumberOrTag,
    header: RethResult<Option<Header>>,
)
    requires
        ({
            ||| call_ensures(
                <BlockchainProvider<DB, Tree> as BlockReaderIdExt>::header_by_number_or_tag,
                (&provider, id),
                header,
            )
            ||| call_ensures(
                <BlockchainProvider<DB, Tree> as BlockReaderIdExt>::header_by_id,
                (&provider, BlockId::Number(id)),
                header,
            )
        }),
    ensures
        id is Latest ==> header == Ok::<Option<Header>, RethError>(
            Some(provider.chain().canonical_head.header),
        ),
        id is Safe ==> match provider.chain().safe_block {
            Some(safe) => header == Ok::<Option<Header>, RethError>(Some(safe.header)),
            None => header == Ok::<Option<Header>, RethError>(None),
        },
        id is Finalized ==> match provider.chain().finalized_block {
            Some(finalized) => header == Ok::<Option<Header>, RethError>(Some(finalized.header)),
            None => header == Ok::<Option<Header>, RethError>(None),
        },
        id is Earliest ==> exists|read: RethResult<DB::Provider>| #[trigger]
            call_ensures(DB::provider, (&provider.db(),), read) && match read {
                Ok(read) => call_ensures(
                    DB::Provider::header_by_number,
                    (&read, 0u64),
                    header,
                ),
                Err(error) => header == Err::<Option<Header>, RethError>(error),
            },
        id matches BlockNumberOrTag::Number(number)
            ==> exists|read: RethResult<DB::Provider>| #[trigger]
            call_ensures(DB::provider, (&provider.db(),), read) && match read {
                Ok(read) => call_ensures(
                    DB::Provider::header_by_number,
                    (&read, number),
                    header,
                ),
                Err(error) => header == Err::<Option<Header>, RethError>(error),
            },
        id is Pending ==> exists|pending: Option<SealedHeader>| #[trigger]
            call_ensures(Tree::pending_header, (&provider.tree(),), pending) && match pending {
                Some(pending) => header == Ok::<Option<Header>, RethError>(Some(pending.header)),
                None => header == Ok::<Option<Header>, RethError>(None),
            },
{
}

/// The sealed header of the tip, of the safe and of the finalized block is the tracked one, under
/// the hash that it was announced with. That of the pending block is the tree's. The earliest
/// header and a header by number are what one fresh read of the database has for the number, with
/// the hash that the database's hasher computes for that very header.
pub proof fn sealed_headers_by_role_are_tracked_pending_or_hashed<
    DB: Database,
    Tree: BlockchainTreeEngine,
>(
    provider: BlockchainProvider<DB, Tree>,
    id: BlockNumberOrTag,
    sealed: RethResult<Option<SealedHeader>>,
)
    requires
        ({
            ||| call_ensures(
                <BlockchainProvider<DB, Tree> as BlockReaderIdExt>::sealed_header_by_number_or_tag,
                (&provider, id),
                sealed,
            )
            ||| call_ensures(
                <BlockchainProvider<DB, Tree> as BlockReaderIdExt>::sealed_header_by_id,
                (&provider, BlockId::Number(id)),
                sealed,
            )
        }),
    ensures
        id is Latest ==> sealed == Ok::<Option<SealedHeader>, RethError>(
            Some(provider.chain().canonical_head),
        ),
        id is Safe ==> sealed == Ok::<Option<SealedHeader>, RethError>(provider.chain().safe_block),
        id is Finalized ==> sealed == Ok::<Option<SealedHeader>, RethError>(
            provider.chain().finalized_block,
        ),
        id is Earliest ==> exists|read: RethResult<DB::Provider>| #[trigger]
            call_ensures(DB::provider, (&provider.db(),), read) && match read {
                Ok(read) => exists|found: RethResult<Option<Header>>| #[trigger]
                    call_ensures(DB::Provider::header_by_number, (&read, 0u64), found)
                        && match found {
                        Ok(Some(header)) => sealed == Ok::<Option<SealedHeader>, RethError>(
                            Some(
                                SealedHeader {
                                    header,
                                    hash: <DB::Hasher as HeaderHasher>::spec_hash_slow(header),
                                },
                            ),
                        ),
                        Ok(None) => sealed == Ok::<Option<SealedHeader>, RethError>(None),
                        Err(error) => sealed == Err::<Option<SealedHeader>, RethError>(error),
                    },
                Err(error) => sealed == Err::<Option<SealedHeader>, RethError>(error),
            },
        id matches BlockNumberOrTag::Number(number)
            ==> exists|read: RethResult<DB::Provider>| #[trigger]
            call_ensures(DB::provider, (&provider.db(),), read) && match read {
                Ok(read) => exists|found: RethResult<Option<Header>>| #[trigger]
                    call_ensures(DB::Provider::header_by_number, (&read, number), found)
                        && match found {
                        Ok(Some(header)) => sealed == Ok::<Option<SealedHeader>, RethError>(
                            Some(
                                SealedHeader {
                                    header,
                                    hash: <DB::Hasher as HeaderHasher>::spec_hash_slow(header),
                                },
                            ),
                        ),
                        Ok(None) => sealed == Ok::<Option<SealedHeader>, RethError>(None),
                        Err(error) => sealed == Err::<Option<SealedHeader>, RethError>(error),
                    },
                Err(error) => sealed == Err::<Option<SealedHeader>, RethError>(error),
            },
        id is Pending ==> sealed is Ok && call_ensures(
            Tree::pending_header,
            (&provider.tree(),),
            sealed->Ok_0,
        ),
{
}

/// A header that is asked for by its hash is what one fresh read of the database has for that hash,
/// whether or not its block has to be canonical. The sealed one has the hash that the database's
/// hasher computes for the header, and not the hash that was asked for.
pub proof fn headers_by_hash_are_the_databases<DB: Database, Tree: BlockchainTreeEngine>(
    provider: BlockchainProvider<DB, Tree>,
    hash: RpcBlockHash,
    header: RethResult<Option<Header>>,
    sealed: RethResult<Option<SealedHeader>>,
)
    ensures
        call_ensures(
            <BlockchainProvider<DB, Tree> as BlockReaderIdExt>::header_by_id,
            (&provider, BlockId::Hash(hash)),
            header,
        ) ==> exists|read: RethResult<DB::Provider>| #[trigger]
            call_ensures(DB::provider, (&provider.db(),), read) && match read {
                Ok(read) => call_ensures(
                    DB::Provider::header,
                    (&read, &hash.block_hash),
                    header,
                ),
                Err(error) => header == Err::<Option<Header>, RethError>(error),
            },
        call_ensures(
            <BlockchainProvider<DB, Tree> as BlockReaderIdExt>::sealed_header_by_id,
            (&provider, BlockId::Hash(hash)),
            sealed,
        ) ==> exists|read: RethResult<DB::Provider>| #[trigger]
            call_ensures(DB::provider, (&provider.db(),), read) && match read {
                Ok(read) => exists|found: RethResult<Option<Header>>| #[trigger]
                    call_ensures(DB::Provider::header, (&read, &hash.block_hash), found)
                        && match found {
                        Ok(Some(header)) => sealed == Ok::<Option<SealedHeader>, RethError>(
                            Some(
                                SealedHeader {
                                    header,
                                    hash: <DB::Hasher as HeaderHasher>::spec_hash_slow(header),
                                },
                            ),
                        ),
                        Ok(None) => sealed == Ok::<Option<SealedHeader>, RethError>(None),
                        Err(error) => sealed == Err::<Option<SealedHeader>, RethError>(error),
                    },
                Err(error) => sealed == Err::<Option<SealedHeader>, RethError>(error),
            },
{
}

} // verus!
