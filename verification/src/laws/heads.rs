//! What is tracked, how it changes and what is answered of it.

use crate::database::{Database, ProviderFactory};
use crate::error::{ProviderError, RethError, RethResult};
use crate::primitives::{
    BlockHashOrNumber, BlockNumHash, BlockNumber, BlockNumberOrTag, ChainInfo, ChainSpec,
    ForkchoiceState, Header, SealedHeader,
};
use crate::provider::BlockchainProvider;
use crate::traits::{
    BlockIdReader, BlockNumReader, BlockReaderIdExt, BlockchainTreeEngine, BlockchainTreeViewer,
    CanonChainTracker, ChainSpecProvider, HeaderProvider,
};
use std::sync::Arc;
use std::time::Instant;
use vstd::prelude::*;

verus! {

/// The tip moves to the announced header, whatever it was before and whatever is safe or final.
/// Nothing else changes.
pub proof fn the_tip_moves_where_it_is_told<DB, Tree>(
    provider: &mut BlockchainProvider<DB, Tree>,
    header: SealedHeader,
)
    requires
        call_ensures(
            <BlockchainProvider<DB, Tree> as CanonChainTracker>::set_canonical_head,
            (provider, header),
            (),
        ),
    ensures
        final(provider).chain().canonical_head == header,
        final(provider).chain().safe_block == old(provider).chain().safe_block,
        final(provider).chain().finalized_block == old(provider).chain().finalized_block,
        final(provider).chain().last_forkchoice_update
            == old(provider).chain().last_forkchoice_update,
        final(provider).chain().last_transition_configuration_exchange
            == old(provider).chain().last_transition_configuration_exchange,
        final(provider).factory() == old(provider).factory(),
        final(provider).tree() == old(provider).tree(),
{
}

/// The safe block becomes the announced one, whatever it was before. Nothing else changes.
pub proof fn the_safe_block_is_the_announced_one<DB, Tree>(
    provider: &mut BlockchainProvider<DB, Tree>,
    header: SealedHeader,
)
    requires
        call_ensures(
            <BlockchainProvider<DB, Tree> as CanonChainTracker>::set_safe,
            (provider, header),
            (),
        ),
    ensures
        final(provider).chain().safe_block == Some(header),
        final(provider).chain().canonical_head == old(provider).chain().canonical_head,
        final(provider).chain().finalized_block == old(provider).chain().finalized_block,
        final(provider).chain().last_forkchoice_update
            == old(provider).chain().last_forkchoice_update,
        final(provider).chain().last_transition_configuration_exchange
            == old(provider).chain().last_transition_configuration_exchange,
        final(provider).factory() == old(provider).factory(),
        final(provider).tree() == old(provider).tree(),
{
}

/// The finalized block becomes the announced one, whatever it was before. Nothing else changes.
pub proof fn the_finalized_block_is_the_announced_one<DB, Tree>(
    provider: &mut BlockchainProvider<DB, Tree>,
    header: SealedHeader,
)
    requires
        call_ensures(
            <BlockchainProvider<DB, Tree> as CanonChainTracker>::set_finalized,
            (provider, header),
            (),
        ),
    ensures
        final(provider).chain().finalized_block == Some(header),
        final(provider).chain().canonical_head == old(provider).chain().canonical_head,
        final(provider).chain().safe_block == old(provider).chain().safe_block,
        final(provider).chain().last_forkchoice_update
            == old(provider).chain().last_forkchoice_update,
        final(provider).chain().last_transition_configuration_exchange
            == old(provider).chain().last_transition_configuration_exchange,
        final(provider).factory() == old(provider).factory(),
        final(provider).tree() == old(provider).tree(),
{
}

/// An arriving forkchoice update, or an exchanged transition configuration, is noted with a time of
/// the clock. What an update says changes no head, and nothing else changes.
pub proof fn arrivals_are_noted_with_the_time<DB, Tree>(
    provider: &mut BlockchainProvider<DB, Tree>,
    update: ForkchoiceState,
)
    ensures
        call_ensures(
            <BlockchainProvider<DB, Tree> as CanonChainTracker>::on_forkchoice_update_received,
            (provider, &update),
            (),
        ) ==> {
            &&& exists|now: Instant| #[trigger]
                call_ensures(Instant::now, (), now) && final(provider).chain()
                    .last_forkchoice_update == Some(now)
            &&& final(provider).chain().canonical_head == old(provider).chain().canonical_head
            &&& final(provider).chain().safe_block == old(provider).chain().safe_block
            &&& final(provider).chain().finalized_block == old(provider).chain().finalized_block
            &&& final(provider).chain().last_transition_configuration_exchange
                    == old(provider).chain().last_transition_configuration_exchange
            &&& final(provider).factory() == old(provider).factory()
            &&& final(provider).tree() == old(provider).tree()
        },
        call_ensures(
            <BlockchainProvider<DB, Tree> as CanonChainTracker>::on_transition_configuration_exchanged,
            (provider,),
            (),
        ) ==> {
            &&& exists|now: Instant| #[trigger]
                call_ensures(Instant::now, (), now) && final(provider).chain()
                    .last_transition_configuration_exchange == Some(now)
            &&& final(provider).chain().canonical_head == old(provider).chain().canonical_head
            &&& final(provider).chain().safe_block == old(provider).chain().safe_block
            &&& final(provider).chain().finalized_block == old(provider).chain().finalized_block
            &&& final(provider).chain().last_forkchoice_update
                    == old(provider).chain().last_forkchoice_update
            &&& final(provider).factory() == old(provider).factory()
            &&& final(provider).tree() == old(provider).tree()
        },
{
}

/// The times that were noted are what is answered for them.
pub proof fn times_are_read_back<DB, Tree>(
    provider: BlockchainProvider<DB, Tree>,
    received: Option<Instant>,
    exchanged: Option<Instant>,
)
    ensures
        call_ensures(
            <BlockchainProvider<DB, Tree> as CanonChainTracker>::last_received_update_timestamp,
            (&provider,),
            received,
        ) ==> received == provider.chain().last_forkchoice_update,
        call_ensures(
            <BlockchainProvider<DB, Tree> as CanonChainTracker>::last_exchanged_transition_configuration_timestamp,
            (&provider,),
            exchanged,
        ) ==> exchanged
            == provider.chain().last_transition_configuration_exchange,
{
}

/// The tip, the safe and the finalized block are answered with the number and the hash that they
/// are tracked with, and the pending block as the tree answers for it. Nothing of it fails, and the
/// database is not asked.
pub proof fn heads_are_answered_as_they_are_tracked<DB: Database, Tree: BlockchainTreeViewer>(
    provider: BlockchainProvider<DB, Tree>,
    info: RethResult<ChainInfo>,
    best: RethResult<BlockNumber>,
    safe: RethResult<Option<BlockNumHash>>,
    finalized: RethResult<Option<BlockNumHash>>,
    pending: RethResult<Option<BlockNumHash>>,
)
    ensures
        call_ensures(
            <BlockchainProvider<DB, Tree> as BlockNumReader>::chain_info,
            (&provider,),
            info,
        ) ==> info == Ok::<ChainInfo, RethError>(
            ChainInfo {
                best_hash: provider.chain().canonical_head.hash,
                best_number: provider.chain().canonical_head.header.number,
            },
        ),
        call_ensures(
            <BlockchainProvider<DB, Tree> as BlockNumReader>::best_block_number,
            (&provider,),
            best,
        ) ==> best == Ok::<BlockNumber, RethError>(
            provider.chain().canonical_head.header.number,
        ),
        call_ensures(
            <BlockchainProvider<DB, Tree> as BlockIdReader>::safe_block_num_hash,
            (&provider,),
            safe,
        ) ==> match provider.chain().safe_block {
            Some(block) => safe == Ok::<Option<BlockNumHash>, RethError>(
                Some(BlockNumHash { number: block.header.number, hash: block.hash }),
            ),
            None => safe == Ok::<Option<BlockNumHash>, RethError>(None),
        },
        call_ensures(
            <BlockchainProvider<DB, Tree> as BlockIdReader>::finalized_block_num_hash,
            (&provider,),
            finalized,
        ) ==> match provider.chain().finalized_block {
            Some(block) => finalized == Ok::<Option<BlockNumHash>, RethError>(
                Some(BlockNumHash { number: block.header.number, hash: block.hash }),
            ),
            None => finalized == Ok::<Option<BlockNumHash>, RethError>(None),
        },
        call_ensures(
            <BlockchainProvider<DB, Tree> as BlockIdReader>::pending_block_num_hash,
            (&provider,),
            pending,
        ) ==> pending is Ok && call_ensures(
            Tree::pending_block_num_hash,
            (&provider.tree(),),
            pending->Ok_0,
        ),
{
}

/// A role stands for the number of the block in that role: of the tip, of the safe or the finalized
/// block if one was announced, zero for the earliest, and of the tree's pending block if there is
/// one. A number stands for itself. Nothing fails.
pub proof fn roles_stand_for_numbers<DB: Database, Tree: BlockchainTreeViewer>(
    provider: BlockchainProvider<DB, Tree>,
    id: BlockNumberOrTag,
    number: RethResult<Option<BlockNumber>>,
)
    requires
        call_ensures(
            <BlockchainProvider<DB, Tree> as BlockIdReader>::convert_block_number,
            (&provider, id),
            number,
        ),
    ensures
        id is Latest ==> number == Ok::<Option<BlockNumber>, RethError>(
            Some(provider.chain().canonical_head.header.number),
        ),
        id is Safe ==> match provider.chain().safe_block {
            Some(block) => number == Ok::<Option<BlockNumber>, RethError>(
                Some(block.header.number),
            ),
            None => number == Ok::<Option<BlockNumber>, RethError>(None),
        },
        id is Finalized ==> match provider.chain().finalized_block {
            Some(block) => number == Ok::<Option<BlockNumber>, RethError>(
                Some(block.header.number),
            ),
            None => number == Ok::<Option<BlockNumber>, RethError>(None),
        },
        id is Earliest ==> number == Ok::<Option<BlockNumber>, RethError>(Some(0u64)),
        id matches BlockNumberOrTag::Number(same)
            ==> number == Ok::<Option<BlockNumber>, RethError>(Some(same)),
        id is Pending ==> exists|pending: Option<BlockNumHash>| #[trigger]
            call_ensures(Tree::pending_block_num_hash, (&provider.tree(),), pending)
                && match pending {
                Some(block) => number == Ok::<Option<BlockNumber>, RethError>(Some(block.number)),
                None => number == Ok::<Option<BlockNumber>, RethError>(None),
            },
{
}

/// A number is taken to be canonical exactly if it is not beyond the number of the tracked tip. The
/// error for one beyond it names the number.
pub proof fn numbers_up_to_the_tip_are_canonical<DB: Database, Tree>(
    provider: BlockchainProvider<DB, Tree>,
    number: BlockNumber,
    canonical: RethResult<()>,
)
    requires
        call_ensures(
            BlockchainProvider::<DB, Tree>::ensure_canonical_block,
            (&provider, number),
            canonical,
        ),
    ensures
        canonical is Ok <==> number <= provider.chain().canonical_head.header.number,
        canonical is Err ==> canonical->Err_0 == RethError::Provider(
            ProviderError::HeaderNotFound(BlockHashOrNumber::Number(number)),
        ),
{
}

/// Once a block is announced with `set_safe`, its header is answered for the role in full and under
/// the announced hash, its number and hash are answered, and the number of the role is its number.
pub proof fn after_set_safe_the_block_is_answered<DB: Database, Tree: BlockchainTreeEngine>(
    provider: &mut BlockchainProvider<DB, Tree>,
    header: SealedHeader,
    sealed: RethResult<Option<SealedHeader>>,
    num_hash: RethResult<Option<BlockNumHash>>,
    number: RethResult<Option<BlockNumber>>,
)
    requires
        call_ensures(
            <BlockchainProvider<DB, Tree> as CanonChainTracker>::set_safe,
            (provider, header),
            (),
        ),
    ensures
        call_ensures(
            <BlockchainProvider<DB, Tree> as BlockReaderIdExt>::sealed_header_by_number_or_tag,
            (final(provider), BlockNumberOrTag::Safe),
            sealed,
        ) ==> sealed == Ok::<Option<SealedHeader>, RethError>(Some(header)),
        call_ensures(
            <BlockchainProvider<DB, Tree> as BlockIdReader>::safe_block_num_hash,
            (final(provider),),
            num_hash,
        ) ==> num_hash == Ok::<Option<BlockNumHash>, RethError>(
            Some(BlockNumHash { number: header.header.number, hash: header.hash }),
        ),
        call_ensures(
            <BlockchainProvider<DB, Tree> as BlockIdReader>::convert_block_number,
            (final(provider), BlockNumberOrTag::Safe),
            number,
        ) ==> number == Ok::<Option<BlockNumber>, RethError>(
            Some(header.header.number),
        ),
{
}

/// Once a block is announced with `set_finalized`, its header is answered for the role in full and
/// under the announced hash, its number and hash are answered, and the number of the role is its
/// number.
pub proof fn after_set_finalized_the_block_is_answered<DB: Database, Tree: BlockchainTreeEngine>(
    provider: &mut BlockchainProvider<DB, Tree>,
    header: SealedHeader,
    sealed: RethResult<Option<SealedHeader>>,
    num_hash: RethResult<Option<BlockNumHash>>,
    number: RethResult<Option<BlockNumber>>,
)
    requires
        call_ensures(
            <BlockchainProvider<DB, Tree> as CanonChainTracker>::set_finalized,
            (provider, header),
            (),
        ),
    ensures
        call_ensures(
            <BlockchainProvider<DB, Tree> as BlockReaderIdExt>::sealed_header_by_number_or_tag,
            (final(provider), BlockNumberOrTag::Finalized),
            sealed,
        ) ==> sealed == Ok::<Option<SealedHeader>, RethError>(Some(header)),
        call_ensures(
            <BlockchainProvider<DB, Tree> as BlockIdReader>::finalized_block_num_hash,
            (final(provider),),
            num_hash,
        ) ==> num_hash == Ok::<Option<BlockNumHash>, RethError>(
            Some(BlockNumHash { number: header.header.number, hash: header.hash }),
        ),
        call_ensures(
            <BlockchainProvider<DB, Tree> as BlockIdReader>::convert_block_number,
            (final(provider), BlockNumberOrTag::Finalized),
            number,
        ) ==> number == Ok::<Option<BlockNumber>, RethError>(
            Some(header.header.number),
        ),
{
}

/// Once the tip is moved, its header is answered as the latest one in full and under the announced
/// hash, and its number and hash are the chain's.
pub proof fn after_set_canonical_head_the_tip_is_answered<DB: Database, Tree: BlockchainTreeEngine>(
    provider: &mut BlockchainProvider<DB, Tree>,
    header: SealedHeader,
    sealed: RethResult<Option<SealedHeader>>,
    info: RethResult<ChainInfo>,
    number: RethResult<Option<BlockNumber>>,
)
    requires
        call_ensures(
            <BlockchainProvider<DB, Tree> as CanonChainTracker>::set_canonical_head,
            (provider, header),
            (),
        ),
    ensures
        call_ensures(
            <BlockchainProvider<DB, Tree> as BlockReaderIdExt>::sealed_header_by_number_or_tag,
            (final(provider), BlockNumberOrTag::Latest),
            sealed,
        ) ==> sealed == Ok::<Option<SealedHeader>, RethError>(Some(header)),
        call_ensures(
            <BlockchainProvider<DB, Tree> as BlockNumReader>::chain_info,
            (final(provider),),
            info,
        ) ==> info == Ok::<ChainInfo, RethError>(
            ChainInfo { best_hash: header.hash, best_number: header.header.number },
        ),
        call_ensures(
            <BlockchainProvider<DB, Tree> as BlockIdReader>::convert_block_number,
            (final(provider), BlockNumberOrTag::Latest),
            number,
        ) ==> number == Ok::<Option<BlockNumber>, RethError>(
            Some(header.header.number),
        ),
{
}

/// A provider that is made with a header has it as its tip, is over the given database and tree,
/// and knows of nothing safe or final.
pub proof fn a_provider_is_made_over_what_it_is_given<DB, Tree>(
    database: ProviderFactory<DB>,
    tree: Tree,
    latest: SealedHeader,
    provider: BlockchainProvider<DB, Tree>,
)
    requires
        call_ensures(
            BlockchainProvider::<DB, Tree>::with_latest,
            (database, tree, latest),
            provider,
        ),
    ensures
        provider.factory() == database,
        provider.tree() == tree,
        provider.chain().canonical_head == latest,
        provider.chain().safe_block is None,
        provider.chain().finalized_block is None,
        provider.chain().last_forkchoice_update is None,
        provider.chain().last_transition_configuration_exchange is None,
{
}

/// A provider that is made without a header takes its tip from one fresh read of the database: the
/// header for the best number, under the best hash. If the read does not start, or one of its two
/// questions fails, that error is the answer, and a tip without a header is an error that names its
/// number. It is over the given database and tree, and knows of nothing safe or final.
pub proof fn a_provider_takes_its_tip_from_the_database<DB: Database, Tree>(
    database: ProviderFactory<DB>,
    tree: Tree,
    made: RethResult<BlockchainProvider<DB, Tree>>,
)
    requires
        call_ensures(BlockchainProvider::<DB, Tree>::new, (database, tree), made),
    ensures
        made matches Ok(provider) ==> {
            &&& provider.factory() == database
            &&& provider.tree() == tree
            &&& provider.chain().safe_block is None
            &&& provider.chain().finalized_block is None
            &&& provider.chain().last_forkchoice_update is None
            &&& provider.chain().last_transition_configuration_exchange is None
        },
        exists|read: RethResult<DB::Provider>| #[trigger]
            call_ensures(DB::provider, (&database.db(),), read) && match read {
                Ok(read) => exists|best: RethResult<ChainInfo>| #[trigger]
                    call_ensures(DB::Provider::chain_info, (&read,), best) && match best {
                        Ok(best) => exists|found: RethResult<Option<Header>>| #[trigger]
                            call_ensures(
                                DB::Provider::header_by_number,
                                (&read, best.best_number),
                                found,
                            ) && match found {
                                Ok(Some(header)) => {
                                    &&& made is Ok
                                    &&& made->Ok_0.chain().canonical_head.header == header
                                    &&& made->Ok_0.chain().canonical_head.hash == best.best_hash
                                },
                                Ok(None) => made is Err && made->Err_0 == RethError::Provider(
                                    ProviderError::HeaderNotFound(
                                        BlockHashOrNumber::Number(best.best_number),
                                    ),
                                ),
                                Err(error) => made is Err && made->Err_0 == error,
                            },
                        Err(error) => made is Err && made->Err_0 == error,
                    },
                Err(error) => made is Err && made->Err_0 == error,
            },
{
}

/// The chain that the provider is for is the one that its database was given with, and a database
/// is handed on as it was given.
pub proof fn the_chain_is_the_databases<DB, Tree>(
    provider: BlockchainProvider<DB, Tree>,
    db: DB,
    chain_spec: Arc<ChainSpec>,
    factory: ProviderFactory<DB>,
    spec: Arc<ChainSpec>,
    own: Arc<ChainSpec>,
)
    ensures
        call_ensures(
            <BlockchainProvider<DB, Tree> as ChainSpecProvider>::chain_spec,
            (&provider,),
            spec,
        ) ==> spec == provider.factory().spec(),
        call_ensures(ProviderFactory::<DB>::chain_spec, (&factory,), own) ==> own == factory.spec(),
        call_ensures(ProviderFactory::<DB>::new, (db, chain_spec), factory)
            ==> factory.db() == db && factory.spec()
            == chain_spec,
{
}

} // verus!
