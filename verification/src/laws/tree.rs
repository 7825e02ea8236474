//! What the provider shows of the tree, and what it tells the tree.

use crate::error::{ProviderError, RethError, RethResult};
use crate::primitives::{
    BlockHash, BlockNumHash, BlockNumber, CanonicalOutcome, InsertBlockError, InsertPayloadOk,
    Receipt, SealedBlock, SealedBlockWithSenders, SealedHeader,
};
use crate::provider::BlockchainProvider;
use crate::traits::{
    BlockchainTreeEngine, BlockchainTreePendingStateProvider, BlockchainTreeViewer,
    CanonStateSubscriptions,
};
use std::collections::{BTreeMap, HashSet};
use vstd::prelude::*;

verus! {

/// A command is passed on to the tree as it is: the same command, for the same block, hash or
/// height, and its outcome is one that the tree gives for that command. How often the tree is told
/// is not said.
pub proof fn commands_are_passed_on_to_the_tree<DB, Tree: BlockchainTreeEngine>(
    provider: BlockchainProvider<DB, Tree>,
    block: SealedBlockWithSenders,
    hash: BlockHash,
    number: BlockNumber,
    buffered: Result<(), InsertBlockError>,
    inserted: Result<InsertPayloadOk, InsertBlockError>,
    connected: RethResult<()>,
    outcome: RethResult<CanonicalOutcome>,
    unwound: RethResult<()>,
)
    ensures
        call_ensures(
            <BlockchainProvider<DB, Tree> as BlockchainTreeEngine>::buffer_block,
            (&provider, block),
            buffered,
        ) ==> call_ensures(
            Tree::buffer_block,
            (&provider.tree(), block),
            buffered,
        ),
        call_ensures(
            <BlockchainProvider<DB, Tree> as BlockchainTreeEngine>::insert_block,
            (&provider, block),
            inserted,
        ) ==> call_ensures(
            Tree::insert_block,
            (&provider.tree(), block),
            inserted,
        ),
        call_ensures(
            <BlockchainProvider<DB, Tree> as BlockchainTreeEngine>::finalize_block,
            (&provider, number),
            (),
        ) ==> call_ensures(
            Tree::finalize_block,
            (&provider.tree(), number),
            (),
        ),
        call_ensures(
            <BlockchainProvider<DB, Tree> as BlockchainTreeEngine>::connect_buffered_blocks_to_canonical_hashes_and_finalize,
            (&provider, number),
            connected,
        ) ==> call_ensures(
            Tree::connect_buffered_blocks_to_canonical_hashes_and_finalize,
            (&provider.tree(), number),
            connected,
        ),
        call_ensures(
            <BlockchainProvider<DB, Tree> as BlockchainTreeEngine>::connect_buffered_blocks_to_canonical_hashes,
            (&provider,),
            connected,
        ) ==> call_ensures(
            Tree::connect_buffered_blocks_to_canonical_hashes,
            (&provider.tree(),),
            connected,
        ),
        call_ensures(
            <BlockchainProvider<DB, Tree> as BlockchainTreeEngine>::make_canonical,
            (&provider, &hash),
            outcome,
        ) ==> call_ensures(
            Tree::make_canonical,
            (&provider.tree(), &hash),
            outcome,
        ),
        call_ensures(
            <BlockchainProvider<DB, Tree> as BlockchainTreeEngine>::unwind,
            (&provider, number),
            unwound,
        ) ==> call_ensures(
            Tree::unwind,
            (&provider.tree(), number),
            unwound,
        ),
{
}

/// What the provider shows of the blocks in the tree and in its buffer is what the tree shows for
/// the same hash.
pub proof fn blocks_of_the_tree_are_seen_through_the_provider<DB, Tree: BlockchainTreeViewer>(
    provider: BlockchainProvider<DB, Tree>,
    hash: BlockHash,
    header: Option<SealedHeader>,
    block: Option<SealedBlock>,
    ancestor: Option<SealedBlockWithSenders>,
    receipts: Option<Vec<Receipt>>,
    blocks: BTreeMap<BlockNumber, HashSet<BlockHash>>,
)
    ensures
        call_ensures(
            <BlockchainProvider<DB, Tree> as BlockchainTreeViewer>::blocks,
            (&provider,),
            blocks,
        ) ==> call_ensures(
            Tree::blocks,
            (&provider.tree(),),
            blocks,
        ),
        call_ensures(
            <BlockchainProvider<DB, Tree> as BlockchainTreeViewer>::header_by_hash,
            (&provider, hash),
            header,
        ) ==> call_ensures(
            Tree::header_by_hash,
            (&provider.tree(), hash),
            header,
        ),
        call_ensures(
            <BlockchainProvider<DB, Tree> as BlockchainTreeViewer>::block_by_hash,
            (&provider, hash),
            block,
        ) ==> call_ensures(
            Tree::block_by_hash,
            (&provider.tree(), hash),
            block,
        ),
        call_ensures(
            <BlockchainProvider<DB, Tree> as BlockchainTreeViewer>::buffered_block_by_hash,
            (&provider, hash),
            block,
        ) ==> call_ensures(
            Tree::buffered_block_by_hash,
            (&provider.tree(), hash),
            block,
        ),
        call_ensures(
            <BlockchainProvider<DB, Tree> as BlockchainTreeViewer>::buffered_header_by_hash,
            (&provider, hash),
            header,
        ) ==> call_ensures(
            Tree::buffered_header_by_hash,
            (&provider.tree(), hash),
            header,
        ),
        call_ensures(
            <BlockchainProvider<DB, Tree> as BlockchainTreeViewer>::lowest_buffered_ancestor,
            (&provider, hash),
            ancestor,
        ) ==> call_ensures(
            Tree::lowest_buffered_ancestor,
            (&provider.tree(), hash),
            ancestor,
        ),
        call_ensures(
            <BlockchainProvider<DB, Tree> as BlockchainTreeViewer>::receipts_by_block_hash,
            (&provider, hash),
            receipts,
        ) ==> call_ensures(
            Tree::receipts_by_block_hash,
            (&provider.tree(), hash),
            receipts,
        ),
{
}

/// What the provider shows of the canonical chain in the tree, and of the blocks that are pending
/// on it, is what the tree shows. The tracked heads play no part.
pub proof fn the_trees_canonical_chain_is_seen_through_the_provider<DB, Tree: BlockchainTreeViewer>(
    provider: BlockchainProvider<DB, Tree>,
    hash: BlockHash,
    blocks: BTreeMap<BlockNumber, BlockHash>,
    ancestor: Option<BlockHash>,
    canonical: RethResult<bool>,
    tip: BlockNumHash,
    pending_blocks: (BlockNumber, Vec<BlockHash>),
    pending: Option<BlockNumHash>,
    with_receipts: Option<(SealedBlock, Vec<Receipt>)>,
)
    ensures
        call_ensures(
            <BlockchainProvider<DB, Tree> as BlockchainTreeViewer>::canonical_blocks,
            (&provider,),
            blocks,
        ) ==> call_ensures(
            Tree::canonical_blocks,
            (&provider.tree(),),
            blocks,
        ),
        call_ensures(
            <BlockchainProvider<DB, Tree> as BlockchainTreeViewer>::find_canonical_ancestor,
            (&provider, hash),
            ancestor,
        ) ==> call_ensures(
            Tree::find_canonical_ancestor,
            (&provider.tree(), hash),
            ancestor,
        ),
        call_ensures(
            <BlockchainProvider<DB, Tree> as BlockchainTreeViewer>::is_canonical,
            (&provider, hash),
            canonical,
        ) ==> call_ensures(
            Tree::is_canonical,
            (&provider.tree(), hash),
            canonical,
        ),
        call_ensures(
            <BlockchainProvider<DB, Tree> as BlockchainTreeViewer>::canonical_tip,
            (&provider,),
            tip,
        ) ==> call_ensures(
            Tree::canonical_tip,
            (&provider.tree(),),
            tip,
        ),
        call_ensures(
            <BlockchainProvider<DB, Tree> as BlockchainTreeViewer>::pending_blocks,
            (&provider,),
            pending_blocks,
        ) ==> call_ensures(
            Tree::pending_blocks,
            (&provider.tree(),),
            pending_blocks,
        ),
        call_ensures(
            <BlockchainProvider<DB, Tree> as BlockchainTreeViewer>::pending_block_num_hash,
            (&provider,),
            pending,
        ) ==> call_ensures(
            Tree::pending_block_num_hash,
            (&provider.tree(),),
            pending,
        ),
        call_ensures(
            <BlockchainProvider<DB, Tree> as BlockchainTreeViewer>::pending_block_and_receipts,
            (&provider,),
            with_receipts,
        ) ==> call_ensures(
            Tree::pending_block_and_receipts,
            (&provider.tree(),),
            with_receipts,
        ),
{
}

/// The pending block, its header and its receipts, as the provider shows them, are what the tree
/// has for the hash of its pending block. Without a pending block there is none of them.
pub proof fn the_pending_block_is_looked_up_by_its_hash<DB, Tree: BlockchainTreeViewer>(
    provider: BlockchainProvider<DB, Tree>,
    block: Option<SealedBlock>,
    header: Option<SealedHeader>,
    receipts: Option<Vec<Receipt>>,
)
    ensures
        call_ensures(
            <BlockchainProvider<DB, Tree> as BlockchainTreeViewer>::pending_block,
            (&provider,),
            block,
        ) ==> exists|tip: Option<BlockNumHash>| #[trigger]
            call_ensures(Tree::pending_block_num_hash, (&provider.tree(),), tip) && match tip {
                Some(tip) => call_ensures(
                    Tree::block_by_hash,
                    (&provider.tree(), tip.hash),
                    block,
                ),
                None => block is None,
            },
        call_ensures(
            <BlockchainProvider<DB, Tree> as BlockchainTreeViewer>::pending_header,
            (&provider,),
            header,
        ) ==> exists|tip: Option<BlockNumHash>| #[trigger]
            call_ensures(Tree::pending_block_num_hash, (&provider.tree(),), tip) && match tip {
                Some(tip) => call_ensures(
                    Tree::header_by_hash,
                    (&provider.tree(), tip.hash),
                    header,
                ),
                None => header is None,
            },
        call_ensures(
            <BlockchainProvider<DB, Tree> as BlockchainTreeViewer>::pending_receipts,
            (&provider,),
            receipts,
        ) ==> exists|tip: Option<BlockNumHash>| #[trigger]
            call_ensures(Tree::pending_block_num_hash, (&provider.tree(),), tip) && match tip {
                Some(tip) => call_ensures(
                    Tree::receipts_by_block_hash,
                    (&provider.tree(), tip.hash),
                    receipts,
                ),
                None => receipts is None,
            },
{
}

/// The changes up to a pending block are what the tree finds for its hash. Where changes have to be
/// there, and the tree finds none, the error names the hash.
pub proof fn pending_changes_are_the_trees<DB, Tree: BlockchainTreePendingStateProvider>(
    provider: BlockchainProvider<DB, Tree>,
    hash: BlockHash,
    found: Option<Tree::Bundle>,
    changes: RethResult<Tree::Bundle>,
)
    ensures
        call_ensures(
            <BlockchainProvider<DB, Tree> as BlockchainTreePendingStateProvider>::find_pending_state_provider,
            (&provider, hash),
            found,
        ) ==> call_ensures(
            Tree::find_pending_state_provider,
            (&provider.tree(), hash),
            found,
        ),
        call_ensures(
            <BlockchainProvider<DB, Tree> as BlockchainTreePendingStateProvider>::pending_state_provider,
            (&provider, hash),
            changes,
        ) ==> exists|found: Option<Tree::Bundle>| #[trigger]
            call_ensures(Tree::find_pending_state_provider, (&provider.tree(), hash), found)
                && match found {
                Some(found) => changes == Ok::<Tree::Bundle, RethError>(found),
                None => changes == Err::<Tree::Bundle, RethError>(
                    RethError::Provider(ProviderError::StateForHashNotFound(hash)),
                ),
            },
{
}

/// Who subscribes to the canonical state gets the announcements of the tree.
pub proof fn announcements_are_the_trees<DB, Tree: CanonStateSubscriptions>(
    provider: BlockchainProvider<DB, Tree>,
    notifications: Tree::Notifications,
)
    requires
        call_ensures(
            <BlockchainProvider<DB, Tree> as CanonStateSubscriptions>::subscribe_to_canonical_state,
            (&provider,),
            notifications,
        ),
    ensures
        call_ensures(
            Tree::subscribe_to_canonical_state,
            (&provider.tree(),),
            notifications,
        ),
{
}

} // verus!
