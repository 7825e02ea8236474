//! What is handed out when a state is asked for, said of the database and of the tree.

use crate::database::Database;
use crate::error::{ProviderError, RethError, RethResult};
use crate::primitives::{BlockHash, BlockHashOrNumber, BlockNumHash, BlockNumber, H256};
use crate::provider::states::StateOf;
use crate::provider::BlockchainProvider;
use crate::state::{BundleStateProvider, StateProviderBox};
use crate::traits::{
    BlockchainTreePendingStateProvider, BlockchainTreeViewer, BundleStateDataProvider,
    StateProviderFactory,
};
use vstd::prelude::*;

verus! {

/// The latest state and the state at a hash are what the database hands out for them, as they are.
/// The tracked heads and the tree play no part.
pub proof fn stored_states_are_the_databases<
    DB: Database,
    Tree: BlockchainTreePendingStateProvider + BlockchainTreeViewer,
>(
    provider: BlockchainProvider<DB, Tree>,
    hash: BlockHash,
    state: RethResult<StateOf<DB, Tree>>,
)
    ensures
        call_ensures(
            <BlockchainProvider<DB, Tree> as StateProviderFactory>::latest,
            (&provider,),
            state,
        ) ==> exists|stored: RethResult<DB::State>| #[trigger]
            call_ensures(DB::latest, (&provider.db(),), stored) && match stored {
                Ok(stored) => state == Ok::<StateOf<DB, Tree>, RethError>(
                    StateProviderBox::Stored(stored),
                ),
                Err(error) => state == Err::<StateOf<DB, Tree>, RethError>(error),
            },
        call_ensures(
            <BlockchainProvider<DB, Tree> as StateProviderFactory>::history_by_block_hash,
            (&provider, hash),
            state,
        ) ==> exists|stored: RethResult<DB::State>| #[trigger]
            call_ensures(
                DB::history_by_block_hash,
                (&provider.db(), hash),
                stored,
            ) && match stored {
                Ok(stored) => state == Ok::<StateOf<DB, Tree>, RethError>(
                    StateProviderBox::Stored(stored),
                ),
                Err(error) => state == Err::<StateOf<DB, Tree>, RethError>(error),
            },
{
}

/// The state at a number is what the database hands out for that number, up to and with the number
/// of the tracked tip. Every number beyond it is refused, with an error that names the number.
pub proof fn states_by_number_end_at_the_tip<
    DB: Database,
    Tree: BlockchainTreePendingStateProvider + BlockchainTreeViewer,
>(
    provider: BlockchainProvider<DB, Tree>,
    number: BlockNumber,
    state: RethResult<StateOf<DB, Tree>>,
)
    requires
        call_ensures(
            <BlockchainProvider<DB, Tree> as StateProviderFactory>::history_by_block_number,
            (&provider, number),
            state,
        ),
    ensures
        number <= provider.chain().canonical_head.header.number
            ==> exists|stored: RethResult<DB::State>| #[trigger]
            call_ensures(
                DB::history_by_block_number,
                (&provider.db(), number),
                stored,
            ) && match stored {
                Ok(stored) => state == Ok::<StateOf<DB, Tree>, RethError>(
                    StateProviderBox::Stored(stored),
                ),
                Err(error) => state == Err::<StateOf<DB, Tree>, RethError>(error),
            },
        number > provider.chain().canonical_head.header.number ==> state == Err::<
            StateOf<DB, Tree>,
            RethError,
        >(RethError::Provider(ProviderError::HeaderNotFound(BlockHashOrNumber::Number(number)))),
{
}

/// The changes of a side chain are put on top of the state that the database hands out for exactly
/// the hash of the block that they fork off, and nothing of them is lost. If there is no such
/// state, the error is the database's.
pub proof fn a_bundle_stands_on_the_state_at_its_fork<
    DB: Database,
    Tree: BlockchainTreePendingStateProvider + BlockchainTreeViewer,
>(
    provider: BlockchainProvider<DB, Tree>,
    data: Tree::Bundle,
    state: RethResult<StateOf<DB, Tree>>,
)
    requires
        call_ensures(
            <BlockchainProvider<DB, Tree> as StateProviderFactory>::pending_with_provider,
            (&provider, data),
            state,
        ),
    ensures
        exists|fork: BlockNumHash| #[trigger]
            call_ensures(Tree::Bundle::canonical_fork, (&data,), fork)
                && exists|base: RethResult<DB::State>| #[trigger]
                call_ensures(DB::history_by_block_hash, (&provider.db(), fork.hash), base)
                    && match base {
                    Ok(base) => state == Ok::<StateOf<DB, Tree>, RethError>(
                        StateProviderBox::Bundle(
                            BundleStateProvider {
                                state_provider: base,
                                post_state_data: data,
                            },
                        ),
                    ),
                    Err(error) => state == Err::<
                        StateOf<DB, Tree>,
                        RethError,
                    >(error),
                },
{
}

/// A bundle may be handed out for given changes exactly if it holds those changes, and below them a
/// state that the database may hand out for the hash of a block that they may fork off.
pub proof fn bundles_are_handed_out_over_their_fork<
    DB: Database,
    Tree: BlockchainTreePendingStateProvider + BlockchainTreeViewer,
>(
    provider: BlockchainProvider<DB, Tree>,
    data: Tree::Bundle,
    bundle: BundleStateProvider<DB::State, Tree::Bundle>,
)
    ensures
        provider.applies_bundle(data, Ok(StateProviderBox::Bundle(bundle))) <==> {
            &&& bundle.post_state_data == data
            &&& exists|fork: BlockNumHash| #[trigger]
                call_ensures(Tree::Bundle::canonical_fork, (&data,), fork) && call_ensures(
                    DB::history_by_block_hash,
                    (&provider.db(), fork.hash),
                    Ok(bundle.state_provider),
                )
        },
{
    if bundle.post_state_data == data {
        assert forall|fork: BlockNumHash| #[trigger]
            call_ensures(Tree::Bundle::canonical_fork, (&data,), fork) && call_ensures(
                DB::history_by_block_hash,
                (&provider.db(), fork.hash),
                Ok(bundle.state_provider),
            ) implies provider.applies_bundle(data, Ok(StateProviderBox::Bundle(bundle))) by {
            let base: RethResult<DB::State> = Ok(bundle.state_provider);
            assert(call_ensures(DB::history_by_block_hash, (&provider.db(), fork.hash), base));
        }
    }
}

/// The pending state at a hash is there exactly if the tree finds changes for that hash. It is
/// those changes on top of the state that the database hands out for the hash of the block that
/// they fork off.
pub proof fn the_pending_state_by_hash_is_the_trees_on_its_fork<
    DB: Database,
    Tree: BlockchainTreePendingStateProvider + BlockchainTreeViewer,
>(
    provider: BlockchainProvider<DB, Tree>,
    hash: H256,
    state: RethResult<Option<StateOf<DB, Tree>>>,
)
    requires
        call_ensures(
            <BlockchainProvider<DB, Tree> as StateProviderFactory>::pending_state_by_hash,
            (&provider, hash),
            state,
        ),
    ensures
        exists|found: Option<Tree::Bundle>| #[trigger]
            call_ensures(Tree::find_pending_state_provider, (&provider.tree(), hash), found)
                && match found {
                Some(data) => exists|fork: BlockNumHash| #[trigger]
                    call_ensures(Tree::Bundle::canonical_fork, (&data,), fork)
                        && exists|base: RethResult<DB::State>| #[trigger]
                        call_ensures(DB::history_by_block_hash, (&provider.db(), fork.hash), base)
                            && match base {
                            Ok(base) => state == Ok::<Option<StateOf<DB, Tree>>, RethError>(
                                Some(
                                    StateProviderBox::Bundle(
                                        BundleStateProvider {
                                            state_provider: base,
                                            post_state_data: data,
                                        },
                                    ),
                                ),
                            ),
                            Err(error) => state == Err::<
                                Option<StateOf<DB, Tree>>,
                                RethError,
                            >(error),
                        },
                None => state == Ok::<Option<StateOf<DB, Tree>>, RethError>(None),
            },
{
}

/// The pending state is the changes that the tree has for the hash of its pending block, on top of
/// the state that the database hands out for the hash of the block that they fork off. If the tree
/// has not the changes, its error is the answer. Only if it has no pending block, the answer is the
/// latest state of the database.
pub proof fn the_pending_state_is_the_pending_blocks<
    DB: Database,
    Tree: BlockchainTreePendingStateProvider + BlockchainTreeViewer,
>(
    provider: BlockchainProvider<DB, Tree>,
    state: RethResult<StateOf<DB, Tree>>,
)
    requires
        call_ensures(
            <BlockchainProvider<DB, Tree> as StateProviderFactory>::pending,
            (&provider,),
            state,
        ),
    ensures
        exists|pending: Option<BlockNumHash>| #[trigger]
            call_ensures(Tree::pending_block_num_hash, (&provider.tree(),), pending)
                && match pending {
                Some(block) => exists|data: RethResult<Tree::Bundle>| #[trigger]
                    call_ensures(
                        Tree::pending_state_provider,
                        (&provider.tree(), block.hash),
                        data,
                    ) && match data {
                        Ok(data) => exists|fork: BlockNumHash| #[trigger]
                            call_ensures(Tree::Bundle::canonical_fork, (&data,), fork)
                                && exists|base: RethResult<DB::State>| #[trigger]
                                call_ensures(
                                    DB::history_by_block_hash,
                                    (&provider.db(), fork.hash),
                                    base,
                                )
                                    && match base {
                                    Ok(base) => state == Ok::<StateOf<DB, Tree>, RethError>(
                                        StateProviderBox::Bundle(
                                            BundleStateProvider {
                                                state_provider: base,
                                                post_state_data: data,
                                            },
                                        ),
                                    ),
                                    Err(error) => state == Err::<
                                        StateOf<DB, Tree>,
                                        RethError,
                                    >(error),
                                },
                        Err(error) => state == Err::<StateOf<DB, Tree>, RethError>(error),
                    },
                None => exists|stored: RethResult<DB::State>| #[trigger]
                    call_ensures(DB::latest, (&provider.db(),), stored) && match stored {
                        Ok(stored) => state == Ok::<StateOf<DB, Tree>, RethError>(
                            StateProviderBox::Stored(stored),
                        ),
                        Err(error) => state == Err::<StateOf<DB, Tree>, RethError>(error),
                    },
            },
{
}

/// The state at a hash is what the database hands out for that hash. Only if the database fails, it
/// is the tree's changes for the same hash on top of the state at their fork. If there are no such
/// changes, or no state at their fork, the answer is the error with which the database failed for
/// the hash.
pub proof fn the_state_at_a_hash_is_stored_or_pending<
    DB: Database,
    Tree: BlockchainTreePendingStateProvider + BlockchainTreeViewer,
>(
    provider: BlockchainProvider<DB, Tree>,
    hash: BlockHash,
    state: RethResult<StateOf<DB, Tree>>,
)
    requires
        call_ensures(
            <BlockchainProvider<DB, Tree> as StateProviderFactory>::state_by_block_hash,
            (&provider, hash),
            state,
        ),
    ensures
        exists|stored: RethResult<DB::State>| #[trigger]
            call_ensures(DB::history_by_block_hash, (&provider.db(), hash), stored)
                && match stored {
                Ok(stored) => state == Ok::<StateOf<DB, Tree>, RethError>(
                    StateProviderBox::Stored(stored),
                ),
                Err(failure) => exists|found: Option<Tree::Bundle>| #[trigger]
                    call_ensures(
                        Tree::find_pending_state_provider,
                        (&provider.tree(), hash),
                        found,
                    ) && match found {
                        Some(data) => exists|fork: BlockNumHash| #[trigger]
                            call_ensures(Tree::Bundle::canonical_fork, (&data,), fork)
                                && exists|base: RethResult<DB::State>| #[trigger]
                                call_ensures(
                                    DB::history_by_block_hash,
                                    (&provider.db(), fork.hash),
                                    base,
                                )
                                    && match base {
                                    Ok(base) => state == Ok::<StateOf<DB, Tree>, RethError>(
                                        StateProviderBox::Bundle(
                                            BundleStateProvider {
                                                state_provider: base,
                                                post_state_data: data,
                                            },
                                        ),
                                    ),
                                    Err(_) => state == Err::<StateOf<DB, Tree>, RethError>(failure),
                                },
                        None => state == Err::<StateOf<DB, Tree>, RethError>(failure),
                    },
            },
{
}

/// Two providers over the same database and the same tree hand out the same states, whatever heads
/// they track: the latest one, those at a hash, the pending ones, and what a side chain makes of
/// the state at its fork. Only the state at a number is guarded by the tip.
pub proof fn states_do_not_depend_on_the_tracked_heads<
    DB: Database,
    Tree: BlockchainTreePendingStateProvider + BlockchainTreeViewer,
>(
    provider: BlockchainProvider<DB, Tree>,
    other: BlockchainProvider<DB, Tree>,
    hash: H256,
    data: Tree::Bundle,
    state: RethResult<StateOf<DB, Tree>>,
    pending: RethResult<Option<StateOf<DB, Tree>>>,
)
    requires
        provider.db() == other.db(),
        provider.tree() == other.tree(),
    ensures
        provider.answers_latest(state) <==> other.answers_latest(state),
        provider.answers_history_by_hash(hash, state)
            <==> other.answers_history_by_hash(hash, state),
        provider.applies_bundle(data, state) <==> other.applies_bundle(data, state),
        provider.answers_pending_by_hash(hash, pending)
            <==> other.answers_pending_by_hash(hash, pending),
        provider.answers_state_by_hash(hash, state) <==> other.answers_state_by_hash(hash, state),
        provider.answers_pending(state) <==> other.answers_pending(state),
{
    assert forall|data: Tree::Bundle, state: RethResult<StateOf<DB, Tree>>|
        #![trigger provider.applies_bundle(data, state)]
        #![trigger other.applies_bundle(data, state)]
        provider.applies_bundle(data, state) <==> other.applies_bundle(data, state) by {}
    assert forall|state: RethResult<StateOf<DB, Tree>>|
        #![trigger provider.answers_history_by_hash(hash, state)]
        #![trigger other.answers_history_by_hash(hash, state)]
        provider.answers_history_by_hash(hash, state) <==> other.answers_history_by_hash(
            hash,
            state,
        ) by {}
    assert forall|pending: RethResult<Option<StateOf<DB, Tree>>>|
        #![trigger provider.answers_pending_by_hash(hash, pending)]
        #![trigger other.answers_pending_by_hash(hash, pending)]
        provider.answers_pending_by_hash(hash, pending) <==> other.answers_pending_by_hash(
            hash,
            pending,
        ) by {}
}

} // verus!
