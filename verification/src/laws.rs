//! What holds of the provider as a whole, whatever the database and the tree answer.
//!
//! The modules below go through the operations one by one. Their laws speak of the operation itself:
//! if `answer` is an answer that the operation may give, then it is put together, in the way that
//! the law says, from answers of the database and of the tree. The laws here relate operations to
//! each other.

pub mod blocks;
pub mod environment;
pub mod headers;
pub mod heads;
pub mod reads;
pub mod receipts;
pub mod states;
pub mod tracker;
pub mod tree;
pub mod values;

use crate::chain_info::ChainState;
use crate::database::Database;
use crate::error::{RethError, RethResult};
use crate::primitives::{
    Block, BlockHashOrNumber, BlockId, BlockNumHash, BlockNumber, BlockNumberOrTag, BlockSource,
    ChainInfo, Header, HeaderHasher, Receipt, RpcBlockHash, SealedHeader, H256,
};
use crate::provider::states::StateOf;
use crate::provider::{reads, reads_tip, BlockchainProvider};
use crate::resolve::{spec_header_not_found, spec_seal_found, spec_unsealed_header};
use crate::traits::{
    BlockNumReader, BlockchainTreePendingStateProvider, BlockchainTreeViewer, HeaderProvider,
};
use vstd::prelude::*;

verus! {

/// If a read of the database can only fail to start, and with one error, then every query of the
/// database fails with that error.
pub proof fn an_unreadable_database_fails_every_read<DB: Database, T>(
    db: DB,
    query: spec_fn(DB::Provider, RethResult<T>) -> bool,
    answer: RethResult<T>,
    error: RethError,
)
    requires
        forall|provider: RethResult<DB::Provider>| #[trigger]
            call_ensures(DB::provider, (&db,), provider) ==> provider == Err::<
                DB::Provider,
                RethError,
            >(error),
        reads(db, query, answer),
    ensures
        answer == Err::<T, RethError>(error),
{
}

/// A provider starts from the tip of the database: its head is the header that the database has for
/// the number of its tip, under the hash by which the database knows its tip, all in one read.
pub proof fn a_provider_starts_at_the_tip_of_the_database<DB: Database>(
    db: DB,
    latest: SealedHeader,
)
    requires
        reads_tip(db, Ok(latest)),
    ensures
        exists|provider: DB::Provider, best: ChainInfo|
            {
                &&& call_ensures(DB::provider, (&db,), Ok(provider))
                &&& #[trigger] call_ensures(DB::Provider::chain_info, (&provider,), Ok(best))
                &&& call_ensures(
                    DB::Provider::header_by_number,
                    (&provider, best.best_number),
                    Ok(Some(latest.header)),
                )
                &&& latest.hash == best.best_hash
            },
{
}

/// Where a block has to be canonical, the answer is the database's: no block of a side chain is
/// ever returned.
pub proof fn canonical_blocks_come_from_the_database<DB: Database, Tree: BlockchainTreeViewer>(
    provider: BlockchainProvider<DB, Tree>,
    hash: RpcBlockHash,
    block: RethResult<Option<Block>>,
)
    requires
        hash.require_canonical == Some(true),
    ensures
        provider.answers_block_by_id(BlockId::Hash(hash), block) <==> provider.reads_block_by_hash(
            hash.block_hash,
            block,
        ),
{
}

/// Where a block has to be canonical, its receipts are the database's.
pub proof fn canonical_receipts_come_from_the_database<DB: Database, Tree: BlockchainTreeViewer>(
    provider: BlockchainProvider<DB, Tree>,
    hash: RpcBlockHash,
    receipts: RethResult<Option<Vec<Receipt>>>,
)
    requires
        hash.require_canonical == Some(true),
    ensures
        provider.answers_receipts_by_id(BlockId::Hash(hash), receipts) <==> provider.reads_receipts(
            BlockHashOrNumber::Hash(hash.block_hash),
            receipts,
        ),
{
}

/// Where a block does not have to be canonical, asking by name is asking by hash.
pub proof fn side_chain_blocks_are_found_by_name<DB: Database, Tree: BlockchainTreeViewer>(
    provider: BlockchainProvider<DB, Tree>,
    hash: RpcBlockHash,
    block: RethResult<Option<Block>>,
)
    requires
        hash.require_canonical != Some(true),
    ensures
        provider.answers_block_by_id(BlockId::Hash(hash), block) <==> provider.answers_block(
            BlockHashOrNumber::Hash(hash.block_hash),
            block,
        ),
{
}

/// The database comes first: an answer for a hash is the database's own, or the database has nothing
/// for the hash and the answer is the tree's.
pub proof fn the_database_comes_first<DB: Database, Tree: BlockchainTreeViewer>(
    provider: BlockchainProvider<DB, Tree>,
    hash: H256,
    block: RethResult<Option<Block>>,
)
    requires
        provider.finds_block(hash, BlockSource::Any, block),
    ensures
        provider.reads_block_by_hash(hash, block) || {
            &&& provider.reads_block_by_hash(hash, Ok(None))
            &&& provider.finds_block(hash, BlockSource::Pending, block)
        },
{
}

/// Only the database fails: a lookup of a block by its hash fails with an error of the database, and
/// a lookup in the tree alone never fails.
pub proof fn block_lookups_fail_only_with_the_database<DB: Database, Tree: BlockchainTreeViewer>(
    provider: BlockchainProvider<DB, Tree>,
    hash: H256,
    source: BlockSource,
    error: RethError,
)
    requires
        provider.finds_block(hash, source, Err(error)),
    ensures
        source != BlockSource::Pending,
        provider.reads_block_by_hash(hash, Err(error)),
{
}

/// Headers and ommers are read from the database whether or not the block has to be canonical: the
/// demand changes no answer.
pub proof fn headers_and_ommers_ignore_the_demand<DB: Database, Tree: BlockchainTreeViewer>(
    provider: BlockchainProvider<DB, Tree>,
    one: RpcBlockHash,
    other: RpcBlockHash,
    header: RethResult<Option<Header>>,
    sealed: RethResult<Option<SealedHeader>>,
    ommers: RethResult<Option<Vec<Header>>>,
)
    requires
        one.block_hash == other.block_hash,
    ensures
        provider.answers_header_by_id(BlockId::Hash(one), header)
            <==> provider.answers_header_by_id(BlockId::Hash(other), header),
        provider.answers_sealed_header_by_id(BlockId::Hash(one), sealed)
            <==> provider.answers_sealed_header_by_id(BlockId::Hash(other), sealed),
        provider.answers_ommers_by_id(BlockId::Hash(one), ommers)
            <==> provider.answers_ommers_by_id(BlockId::Hash(other), ommers),
{
}

/// A header without its hash, as a read returns it.
pub open spec fn unsealed(sealed: RethResult<Option<SealedHeader>>) -> RethResult<Option<Header>> {
    match sealed {
        Ok(sealed) => Ok(spec_unsealed_header(sealed)),
        Err(error) => Err(error),
    }
}

/// The sealed and the unsealed header of a block agree: without its hash, what may be answered sealed
/// is what may be answered unsealed.
pub proof fn sealed_headers_agree_with_headers<DB: Database, Tree: BlockchainTreeViewer>(
    provider: BlockchainProvider<DB, Tree>,
    id: BlockId,
    header: RethResult<Option<Header>>,
)
    ensures
        provider.answers_header_by_id(id, header) <==> exists|
            sealed: RethResult<Option<SealedHeader>>,
        | #[trigger]
            provider.answers_sealed_header_by_id(id, sealed) && unsealed(sealed) == header,
{
    if provider.answers_header_by_id(id, header) {
        let chain = provider.chain();
        let sealed: RethResult<Option<SealedHeader>> = match id {
            BlockId::Number(BlockNumberOrTag::Latest) => Ok(Some(chain.canonical_head)),
            BlockId::Number(BlockNumberOrTag::Finalized) => Ok(chain.finalized_block),
            BlockId::Number(BlockNumberOrTag::Safe) => Ok(chain.safe_block),
            BlockId::Number(BlockNumberOrTag::Pending) => Ok(
                choose|pending: Option<SealedHeader>| #[trigger]
                    call_ensures(Tree::pending_header, (&provider.tree(),), pending) && header
                        == Ok::<Option<Header>, RethError>(spec_unsealed_header(pending)),
            ),
            _ => spec_seal_found::<DB::Hasher>(header),
        };
        assert(provider.answers_sealed_header_by_id(id, sealed));
    }
}

/// Sealing is a function of the header: the headers that are read from the database, by number or by
/// hash, have the hash that the database's hasher computes, so two of them that are equal are equal
/// with their hashes too.
pub proof fn equal_stored_headers_have_equal_hashes<DB: Database, Tree: BlockchainTreeViewer>(
    provider: BlockchainProvider<DB, Tree>,
    one: BlockId,
    other: BlockId,
    one_sealed: SealedHeader,
    other_sealed: SealedHeader,
)
    requires
        one matches BlockId::Number(num) ==> num is Earliest || num is Number,
        other matches BlockId::Number(num) ==> num is Earliest || num is Number,
        provider.answers_sealed_header_by_id(one, Ok(Some(one_sealed))),
        provider.answers_sealed_header_by_id(other, Ok(Some(other_sealed))),
    ensures
        one_sealed.hash == <DB::Hasher as HeaderHasher>::spec_hash_slow(one_sealed.header),
        other_sealed.hash == <DB::Hasher as HeaderHasher>::spec_hash_slow(other_sealed.header),
        one_sealed.header == other_sealed.header ==> one_sealed == other_sealed,
{
}

/// The roles that are tracked agree with the numbers they stand for: a header that is answered for
/// the latest, the safe or the finalized block has the number that the role stands for, and where
/// there is no such block there is no number.
pub proof fn tracked_roles_agree_with_their_numbers<DB: Database, Tree: BlockchainTreeViewer>(
    provider: BlockchainProvider<DB, Tree>,
    id: BlockNumberOrTag,
    sealed: RethResult<Option<SealedHeader>>,
    number: Option<BlockNumber>,
)
    requires
        id is Latest || id is Safe || id is Finalized,
        provider.answers_sealed_header_by_tag(id, sealed),
        provider.stands_for(id, number),
    ensures
        sealed is Ok,
        number == match sealed->Ok_0 {
            Some(sealed) => Some(sealed.header.number),
            None => None,
        },
{
}

/// The earliest block is the one with the number zero, for blocks, headers, ommers and receipts.
pub proof fn the_earliest_block_is_block_zero<DB: Database, Tree: BlockchainTreeViewer>(
    provider: BlockchainProvider<DB, Tree>,
    block: RethResult<Option<Block>>,
    header: RethResult<Option<Header>>,
    sealed: RethResult<Option<SealedHeader>>,
    ommers: RethResult<Option<Vec<Header>>>,
    receipts: RethResult<Option<Vec<Receipt>>>,
)
    ensures
        ({
            let earliest = BlockNumberOrTag::Earliest;
            let zero = BlockNumberOrTag::Number(0);
            &&& provider.answers_block_by_tag(earliest, block) <==> provider.answers_block_by_tag(
                zero,
                block,
            )
            &&& provider.answers_header_by_tag(earliest, header)
                <==> provider.answers_header_by_tag(zero, header)
            &&& provider.answers_sealed_header_by_tag(earliest, sealed)
                <==> provider.answers_sealed_header_by_tag(zero, sealed)
            &&& provider.answers_ommers_by_tag(earliest, ommers)
                <==> provider.answers_ommers_by_tag(zero, ommers)
            &&& provider.answers_receipts_by_tag(earliest, receipts)
                <==> provider.answers_receipts_by_tag(zero, receipts)
        }),
{
    same_number_same_answers(
        provider,
        BlockNumberOrTag::Earliest,
        BlockNumberOrTag::Number(0),
        block,
        ommers,
        receipts,
    );
}

/// The latest block is the one with the number of the tip, for blocks, ommers and receipts. The
/// header of the latest block is the tracked one, and not read.
pub proof fn the_latest_block_is_the_block_at_the_tip<DB: Database, Tree: BlockchainTreeViewer>(
    provider: BlockchainProvider<DB, Tree>,
    block: RethResult<Option<Block>>,
    ommers: RethResult<Option<Vec<Header>>>,
    receipts: RethResult<Option<Vec<Receipt>>>,
)
    ensures
        ({
            let latest = BlockNumberOrTag::Latest;
            let tip = BlockNumberOrTag::Number(provider.chain().canonical_head.header.number);
            &&& provider.answers_block_by_tag(latest, block) <==> provider.answers_block_by_tag(
                tip,
                block,
            )
            &&& provider.answers_ommers_by_tag(latest, ommers)
                <==> provider.answers_ommers_by_tag(tip, ommers)
            &&& provider.answers_receipts_by_tag(latest, receipts)
                <==> provider.answers_receipts_by_tag(tip, receipts)
        }),
{
    same_number_same_answers(
        provider,
        BlockNumberOrTag::Latest,
        BlockNumberOrTag::Number(provider.chain().canonical_head.header.number),
        block,
        ommers,
        receipts,
    );
}

/// Two names that stand for the same number have the same answers.
proof fn same_number_same_answers<DB: Database, Tree: BlockchainTreeViewer>(
    provider: BlockchainProvider<DB, Tree>,
    one: BlockNumberOrTag,
    other: BlockNumberOrTag,
    block: RethResult<Option<Block>>,
    ommers: RethResult<Option<Vec<Header>>>,
    receipts: RethResult<Option<Vec<Receipt>>>,
)
    requires
        one !is Pending,
        other !is Pending,
        forall|number: Option<BlockNumber>|
            #![auto]
            provider.stands_for(one, number) == provider.stands_for(other, number),
    ensures
        provider.answers_block_by_tag(one, block) <==> provider.answers_block_by_tag(other, block),
        provider.answers_ommers_by_tag(one, ommers) <==> provider.answers_ommers_by_tag(
            other,
            ommers,
        ),
        provider.answers_receipts_by_tag(one, receipts) <==> provider.answers_receipts_by_tag(
            other,
            receipts,
        ),
{
}

/// The header that a provider is made with is its latest one, with its number and its hash.
pub proof fn a_provider_starts_at_the_given_head<DB: Database, Tree: BlockchainTreeViewer>(
    provider: BlockchainProvider<DB, Tree>,
    latest: SealedHeader,
    sealed: RethResult<Option<SealedHeader>>,
    number: Option<BlockNumber>,
)
    requires
        provider.chain() == ChainState::starting_at(latest),
    ensures
        provider.answers_sealed_header_by_tag(BlockNumberOrTag::Latest, sealed) <==> sealed == Ok::<
            Option<SealedHeader>,
            RethError,
        >(Some(latest)),
        provider.stands_for(BlockNumberOrTag::Latest, number) <==> number == Some(
            latest.header.number,
        ),
{
}

/// Until a safe block is announced nothing is answered for it, and so for the finalized block: the
/// answer is `None` and never an error. A provider starts so.
pub proof fn nothing_is_safe_or_final_at_the_start<DB: Database, Tree: BlockchainTreeViewer>(
    provider: BlockchainProvider<DB, Tree>,
    latest: SealedHeader,
    id: BlockNumberOrTag,
    block: RethResult<Option<Block>>,
    header: RethResult<Option<Header>>,
    sealed: RethResult<Option<SealedHeader>>,
    ommers: RethResult<Option<Vec<Header>>>,
    receipts: RethResult<Option<Vec<Receipt>>>,
)
    requires
        provider.chain() == ChainState::starting_at(latest),
        id is Safe || id is Finalized,
    ensures
        provider.answers_block_by_tag(id, block) <==> block == Ok::<Option<Block>, RethError>(None),
        provider.answers_header_by_tag(id, header) <==> header == Ok::<Option<Header>, RethError>(
            None,
        ),
        provider.answers_sealed_header_by_tag(id, sealed) <==> sealed == Ok::<
            Option<SealedHeader>,
            RethError,
        >(None),
        provider.answers_ommers_by_tag(id, ommers) <==> ommers == Ok::<
            Option<Vec<Header>>,
            RethError,
        >(None),
        provider.answers_receipts_by_tag(id, receipts) <==> receipts == Ok::<
            Option<Vec<Receipt>>,
            RethError,
        >(None),
{
    assert(provider.stands_for(id, None));
}

/// An announced head is what is answered for its role from then on, and the answers for the other
/// tracked roles stay as they are.
pub proof fn announced_heads_are_read_back<DB: Database, Tree: BlockchainTreeViewer>(
    before: BlockchainProvider<DB, Tree>,
    after: BlockchainProvider<DB, Tree>,
    announced: BlockNumberOrTag,
    head: SealedHeader,
    id: BlockNumberOrTag,
    sealed: RethResult<Option<SealedHeader>>,
)
    requires
        id is Latest || id is Safe || id is Finalized,
        announced is Latest || announced is Safe || announced is Finalized,
        announced is Latest ==> after.chain() == (ChainState {
            canonical_head: head,
            ..before.chain()
        }),
        announced is Safe ==> after.chain() == (ChainState {
            safe_block: Some(head),
            ..before.chain()
        }),
        announced is Finalized ==> after.chain() == (ChainState {
            finalized_block: Some(head),
            ..before.chain()
        }),
    ensures
        after.answers_sealed_header_by_tag(announced, sealed) <==> sealed == Ok::<
            Option<SealedHeader>,
            RethError,
        >(Some(head)),
        id != announced ==> (after.answers_sealed_header_by_tag(id, sealed)
            <==> before.answers_sealed_header_by_tag(id, sealed)),
{
}

/// The history beyond the tip is refused, whatever the database has: the error names the number.
pub proof fn history_beyond_the_tip_is_refused<
    DB: Database,
    Tree: BlockchainTreePendingStateProvider + BlockchainTreeViewer,
>(
    provider: BlockchainProvider<DB, Tree>,
    number: BlockNumber,
    state: RethResult<StateOf<DB, Tree>>,
)
    requires
        number > provider.chain().canonical_head.header.number,
    ensures
        provider.answers_history_by_number(number, state) <==> state == Err::<
            StateOf<DB, Tree>,
            RethError,
        >(spec_header_not_found(number)),
{
}

/// History that is not refused stays so while the tip moves up, with the same answers.
pub proof fn history_stays_open_while_the_tip_moves_up<
    DB: Database,
    Tree: BlockchainTreePendingStateProvider + BlockchainTreeViewer,
>(
    before: BlockchainProvider<DB, Tree>,
    after: BlockchainProvider<DB, Tree>,
    number: BlockNumber,
    state: RethResult<StateOf<DB, Tree>>,
)
    requires
        after.same_sources(before),
        number <= before.chain().canonical_head.header.number,
        before.chain().canonical_head.header.number <= after.chain().canonical_head.header.number,
    ensures
        after.answers_history_by_number(number, state) <==> before.answers_history_by_number(
            number,
            state,
        ),
{
}

/// The state at a hash is the stored one or, if the database fails, the pending one. An error is
/// always the database's.
pub proof fn states_by_hash_fail_only_with_the_database<
    DB: Database,
    Tree: BlockchainTreePendingStateProvider + BlockchainTreeViewer,
>(provider: BlockchainProvider<DB, Tree>, hash: H256, state: RethResult<StateOf<DB, Tree>>)
    requires
        provider.answers_state_by_hash(hash, state),
    ensures
        match state {
            Ok(found) => provider.answers_history_by_hash(hash, state)
                || provider.answers_pending_by_hash(hash, Ok(Some(found))),
            Err(_) => provider.answers_history_by_hash(hash, state),
        },
{
}

/// If the tree has no pending block, the pending state is the latest state.
pub proof fn without_a_pending_block_the_latest_state_is_pending<
    DB: Database,
    Tree: BlockchainTreePendingStateProvider + BlockchainTreeViewer,
>(provider: BlockchainProvider<DB, Tree>, state: RethResult<StateOf<DB, Tree>>)
    requires
        forall|pending: Option<BlockNumHash>| #[trigger]
            call_ensures(Tree::pending_block_num_hash, (&provider.tree(),), pending)
                ==> pending is None,
        provider.answers_pending(state),
    ensures
        provider.answers_latest(state),
{
}

/// A state that comes from the tree stands on a stored one: what is answered for a pending hash is
/// a bundle, never a stored state.
pub proof fn pending_states_are_bundles<
    DB: Database,
    Tree: BlockchainTreePendingStateProvider + BlockchainTreeViewer,
>(provider: BlockchainProvider<DB, Tree>, hash: H256, state: StateOf<DB, Tree>)
    requires
        provider.answers_pending_by_hash(hash, Ok(Some(state))),
    ensures
        state is Bundle,
{
}

} // verus!
