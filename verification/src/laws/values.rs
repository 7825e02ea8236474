//! What the functions on plain values make of them.

use crate::database::{Database, ProviderFactory};
use crate::error::{ProviderError, RethError, RethResult};
use crate::primitives::{
    Block, BlockHash, BlockHashOrNumber, BlockNumHash, BlockNumber, BlockSource, ChainInfo, Header,
    HeaderHasher, Receipt, RpcBlockHash, SealedBlock, SealedHeader,
};
use crate::resolve::{
    asks_tree, asks_tree_for_receipts, found_block, found_receipts, header_not_found, number_of,
    seal_found, source_of, tip_header, unsealed_block, unsealed_header,
};
use crate::state::{
    bundle_state, stored_or_pending, stored_state, BundleStateProvider, StateProviderBox,
};
use vstd::prelude::*;

verus! {

/// Unsealing drops the hash and keeps every part, so sealing again with the dropped hash gives back
/// the sealed header, and unsealing what was sealed gives back the header.
pub proof fn sealing_and_unsealing_undo_each_other(
    header: Header,
    hash: BlockHash,
    sealed: SealedHeader,
    unsealed: Header,
)
    ensures
        call_ensures(Header::seal, (header, hash), sealed)
            ==> sealed.header == header && sealed.hash == hash,
        call_ensures(Header::seal, (header, hash), sealed) && call_ensures(
            SealedHeader::unseal,
            (sealed,),
            unsealed,
        )
            ==> unsealed == header,
        call_ensures(SealedHeader::unseal, (sealed,), unsealed) && hash == sealed.hash
            ==> sealed == (SealedHeader {
            header: unsealed,
            hash,
        }),
{
}

/// An unsealed block has the whole header, the transactions, the ommers and the withdrawals of the
/// sealed one.
pub proof fn an_unsealed_block_has_every_part(
    sealed: SealedBlock,
    block: Block,
)
    requires
        call_ensures(SealedBlock::unseal, (sealed,), block),
    ensures
        block.header == sealed.header.header,
        block.body == sealed.body,
        block.ommers == sealed.ommers,
        block.withdrawals == sealed.withdrawals,
{
}

/// A header that is sealed with a hasher keeps every part and has the hash that the hasher computes
/// for it.
pub proof fn a_header_is_sealed_with_its_own_hash<H: HeaderHasher>(
    header: Header,
    sealed: SealedHeader,
)
    requires
        call_ensures(Header::seal_slow::<H>, (header,), sealed),
    ensures
        sealed.header == header,
        sealed.hash == H::spec_hash_slow(header),
{
}

/// A copy of a header, sealed or not, is the header, and a sealed header is known by its own number
/// and hash.
pub proof fn copies_of_headers_are_equal(
    header: Header,
    copy: Header,
    sealed: SealedHeader,
    sealed_copy: SealedHeader,
    num_hash: BlockNumHash,
)
    ensures
        call_ensures(Header::clone, (&header,), copy) ==> copy == header,
        call_ensures(SealedHeader::clone, (&sealed,), sealed_copy) ==> sealed_copy == sealed,
        call_ensures(SealedHeader::num_hash, (&sealed,), num_hash)
            ==> num_hash.number == sealed.header.number
            && num_hash.hash == sealed.hash,
{
}

/// The header of the tip is what was found for it, under the hash of the tip. Nothing found is an
/// error that names the number of the tip, and an error stays as it is.
pub proof fn a_tip_needs_a_header(
    best: ChainInfo,
    found: RethResult<Option<Header>>,
    latest: RethResult<SealedHeader>,
    number: BlockNumber,
    error: RethError,
)
    ensures
        call_ensures(tip_header, (best, found), latest) ==> match found {
            Ok(Some(header)) => {
                &&& latest is Ok
                &&& latest->Ok_0.header == header
                &&& latest->Ok_0.hash == best.best_hash
            },
            Ok(None) => latest is Err && latest->Err_0 == RethError::Provider(
                ProviderError::HeaderNotFound(BlockHashOrNumber::Number(best.best_number)),
            ),
            Err(error) => latest is Err && latest->Err_0 == error,
        },
        call_ensures(header_not_found, (number,), error) ==> error == RethError::Provider(
            ProviderError::HeaderNotFound(BlockHashOrNumber::Number(number)),
        ),
{
}

/// What may be there is unsealed with every part, sealed with the hash that the hasher computes,
/// and numbered with its own number. What is not there stays so, and an error stays as it is.
pub proof fn what_is_found_is_unsealed_and_sealed_as_it_is<H: HeaderHasher>(
    header: Option<SealedHeader>,
    unsealed: Option<Header>,
    found: RethResult<Option<Header>>,
    sealed: RethResult<Option<SealedHeader>>,
    num_hash: Option<BlockNumHash>,
    number: Option<BlockNumber>,
)
    ensures
        call_ensures(unsealed_header, (header,), unsealed) ==> match header {
            Some(header) => unsealed == Some(header.header),
            None => unsealed is None,
        },
        call_ensures(seal_found::<H>, (found,), sealed) ==> match found {
            Ok(Some(header)) => sealed == Ok::<Option<SealedHeader>, RethError>(
                Some(SealedHeader { header, hash: H::spec_hash_slow(header) }),
            ),
            Ok(None) => sealed == Ok::<Option<SealedHeader>, RethError>(None),
            Err(error) => sealed == Err::<Option<SealedHeader>, RethError>(error),
        },
        call_ensures(number_of, (num_hash,), number) ==> match num_hash {
            Some(block) => number == Some(block.number),
            None => number is None,
        },
{
}

/// A block that may be in the tree is unsealed with every part, and is not there if the tree has it
/// not.
pub proof fn a_block_in_the_tree_is_unsealed_with_every_part(
    in_tree: Option<SealedBlock>,
    unsealed: Option<Block>,
)
    requires
        call_ensures(unsealed_block, (in_tree,), unsealed),
    ensures
        match (in_tree, unsealed) {
            (Some(sealed), Some(block)) => {
                &&& block.header == sealed.header.header
                &&& block.body == sealed.body
                &&& block.ommers == sealed.ommers
                &&& block.withdrawals == sealed.withdrawals
            },
            (None, None) => true,
            _ => false,
        },
{
}

/// The tree is asked for a block if only it is looked at, or if both are and the database has
/// nothing. The block is then the tree's, with every part, and else what the database has, an error
/// too. Only a canonical demand keeps the tree out.
pub proof fn the_tree_comes_second_for_blocks(
    source: BlockSource,
    stored: RethResult<Option<Block>>,
    in_tree: Option<SealedBlock>,
    asks: bool,
    found: RethResult<Option<Block>>,
    hash: RpcBlockHash,
    looked_at: BlockSource,
)
    ensures
        call_ensures(asks_tree, (source, &stored), asks) ==> (asks
            <==> source is Pending || (source is Any && stored is Ok
            && stored->Ok_0 is None)),
        call_ensures(found_block, (source, stored, in_tree), found)
            ==> if source is Pending || (source is Any && stored is Ok
            && stored->Ok_0 is None) {
            match (in_tree, found) {
                (Some(sealed), Ok(Some(block))) => {
                    &&& block.header == sealed.header.header
                    &&& block.body == sealed.body
                    &&& block.ommers == sealed.ommers
                    &&& block.withdrawals == sealed.withdrawals
                },
                (None, Ok(None)) => true,
                _ => false,
            }
        } else {
            found == stored
        },
        call_ensures(source_of, (hash,), looked_at)
            ==> looked_at == if hash.require_canonical == Some(true) {
            BlockSource::Database
        } else {
            BlockSource::Any
        },
{
}

/// The tree is asked for receipts if the database has none and the block does not have to be
/// canonical. They are then the tree's, and else what the database has, an error too.
pub proof fn the_tree_comes_second_for_receipts(
    hash: RpcBlockHash,
    stored: RethResult<Option<Vec<Receipt>>>,
    in_tree: Option<Vec<Receipt>>,
    asks: bool,
    found: RethResult<Option<Vec<Receipt>>>,
)
    ensures
        call_ensures(asks_tree_for_receipts, (hash, &stored), asks) ==> (asks
            <==> stored is Ok && stored->Ok_0 is None
            && hash.require_canonical != Some(true)),
        call_ensures(found_receipts, (hash, stored, in_tree), found)
            ==> found == if stored is Ok && stored->Ok_0 is None
            && hash.require_canonical != Some(true) {
            Ok(in_tree)
        } else {
            stored
        },
{
}

/// A stored state is handed out as stored, changes are put on top of the state that is given for
/// them, and errors stay as they are. A pending state counts only if there is no stored one, and of
/// what fails the error of the stored one is answered.
pub proof fn states_are_put_together_as_they_are<S, B>(
    base: RethResult<S>,
    state: S,
    data: B,
    bundle: BundleStateProvider<S, B>,
    view: RethResult<StateProviderBox<S, B>>,
    stored: RethResult<StateProviderBox<S, B>>,
    pending: RethResult<Option<StateProviderBox<S, B>>>,
)
    ensures
        call_ensures(BundleStateProvider::<S, B>::new, (state, data), bundle)
            ==> bundle.state_provider == state && bundle.post_state_data == data,
        call_ensures(stored_state::<S, B>, (base,), view) ==> match base {
            Ok(base) => view is Ok && view->Ok_0 == StateProviderBox::<S, B>::Stored(base),
            Err(error) => view is Err && view->Err_0 == error,
        },
        call_ensures(bundle_state::<S, B>, (base, data), view) ==> match base {
            Ok(base) => {
                &&& view is Ok
                &&& view->Ok_0 is Bundle
                &&& view->Ok_0->Bundle_0.state_provider == base
                &&& view->Ok_0->Bundle_0.post_state_data == data
            },
            Err(error) => view is Err && view->Err_0 == error,
        },
        call_ensures(
            stored_or_pending::<StateProviderBox<S, B>>,
            (stored, pending),
            view,
        ) ==> match stored {
            Ok(_) => view == stored,
            Err(error) => if pending is Ok && pending->Ok_0 is Some {
                view is Ok && view->Ok_0 == pending->Ok_0->0
            } else {
                view is Err && view->Err_0 == error
            },
        },
{
}

/// What is asked of a database that comes with its chain is asked of the database itself, for the
/// same number or hash.
pub proof fn a_database_is_asked_as_it_is<DB: Database>(
    factory: ProviderFactory<DB>,
    number: BlockNumber,
    hash: BlockHash,
    read: RethResult<DB::Provider>,
    state: RethResult<DB::State>,
)
    ensures
        call_ensures(ProviderFactory::<DB>::provider, (&factory,), read)
            ==> call_ensures(DB::provider, (&factory.db(),), read),
        call_ensures(ProviderFactory::<DB>::latest, (&factory,), state)
            ==> call_ensures(DB::latest, (&factory.db(),), state),
        call_ensures(
            ProviderFactory::<DB>::history_by_block_number,
            (&factory, number),
            state,
        ) ==> call_ensures(
            DB::history_by_block_number,
            (&factory.db(), number),
            state,
        ),
        call_ensures(
            ProviderFactory::<DB>::history_by_block_hash,
            (&factory, hash),
            state,
        ) ==> call_ensures(
            DB::history_by_block_hash,
            (&factory.db(), hash),
            state,
        ),
{
}

} // verus!
