//! Views of the state, stored and pending.

use crate::database::Database;
use crate::error::{RethError, RethResult};
use crate::primitives::{BlockHash, BlockNumHash, BlockNumber, H256};
use crate::provider::BlockchainProvider;
use crate::resolve::spec_header_not_found;
use crate::state::{
    bundle_state, spec_bundle_state, spec_stored_or_pending, spec_stored_state, stored_or_pending,
    stored_state, StateProviderBox,
};
use crate::traits::{
    BlockchainTreePendingStateProvider, BlockchainTreeViewer, BundleStateDataProvider,
    StateProviderFactory,
};
use vstd::prelude::*;

verus! {

/// The views that a provider over `DB` and `Tree` hands out.
pub type StateOf<DB, Tree> = StateProviderBox<
    <DB as Database>::State,
    <Tree as BlockchainTreePendingStateProvider>::Bundle,
>;

impl<
    DB: Database,
    Tree: BlockchainTreePendingStateProvider + BlockchainTreeViewer,
> BlockchainProvider<DB, Tree> {
    /// `state` is what the database may answer for its last block.
    pub open spec fn answers_latest(self, state: RethResult<StateOf<DB, Tree>>) -> bool {
        exists|stored: RethResult<DB::State>| #[trigger]
            call_ensures(DB::latest, (&self.db(),), stored) && state == spec_stored_state::<
                DB::State,
                Tree::Bundle,
            >(stored)
    }

    /// `state` is what may be answered for this number: numbers beyond the tip are refused, and the
    /// database answers for all others.
    pub open spec fn answers_history_by_number(
        self,
        block_number: BlockNumber,
        state: RethResult<StateOf<DB, Tree>>,
    ) -> bool {
        if block_number > self.chain().canonical_head.header.number {
            state == Err::<StateOf<DB, Tree>, RethError>(spec_header_not_found(block_number))
        } else {
            exists|stored: RethResult<DB::State>| #[trigger]
                call_ensures(DB::history_by_block_number, (&self.db(), block_number), stored)
                    && state == spec_stored_state::<DB::State, Tree::Bundle>(stored)
        }
    }

    /// `state` is what the database may answer for this hash.
    pub open spec fn answers_history_by_hash(
        self,
        block_hash: BlockHash,
        state: RethResult<StateOf<DB, Tree>>,
    ) -> bool {
        exists|stored: RethResult<DB::State>| #[trigger]
            call_ensures(DB::history_by_block_hash, (&self.db(), block_hash), stored) && state
                == spec_stored_state::<DB::State, Tree::Bundle>(stored)
    }

    /// `state` is what `data` may make of the stored state at its fork.
    pub open spec fn applies_bundle(
        self,
        data: Tree::Bundle,
        state: RethResult<StateOf<DB, Tree>>,
    ) -> bool {
        exists|fork: BlockNumHash| #[trigger]
            call_ensures(Tree::Bundle::canonical_fork, (&data,), fork) && exists|
                base: RethResult<DB::State>,
            | #[trigger]
                call_ensures(DB::history_by_block_hash, (&self.db(), fork.hash), base) && state
                    == spec_bundle_state(base, data)
    }

    /// `state` is what may be answered for the pending block with this hash. It is `None` if the
    /// tree has it not.
    pub open spec fn answers_pending_by_hash(
        self,
        block_hash: BlockHash,
        state: RethResult<Option<StateOf<DB, Tree>>>,
    ) -> bool {
        exists|found: Option<Tree::Bundle>| #[trigger]
            call_ensures(Tree::find_pending_state_provider, (&self.tree(), block_hash), found)
                && match found {
                Some(data) => match state {
                    Ok(Some(state)) => self.applies_bundle(data, Ok(state)),
                    Ok(None) => false,
                    Err(error) => self.applies_bundle(data, Err(error)),
                },
                None => state == Ok::<Option<StateOf<DB, Tree>>, RethError>(None),
            }
    }

    /// `state` is what may be answered for this hash. The pending blocks count only if the database
    /// fails, and of them only a success.
    pub open spec fn answers_state_by_hash(
        self,
        block: BlockHash,
        state: RethResult<StateOf<DB, Tree>>,
    ) -> bool {
        exists|stored: RethResult<StateOf<DB, Tree>>| #[trigger]
            self.answers_history_by_hash(block, stored) && match stored {
                Ok(_) => state == stored,
                Err(_) => exists|pending: RethResult<Option<StateOf<DB, Tree>>>| #[trigger]
                    self.answers_pending_by_hash(block, pending) && state
                        == spec_stored_or_pending(stored, pending),
            }
    }

    /// `state` is what may be answered for the pending block, or for the last block if there is no
    /// pending one.
    pub open spec fn answers_pending(self, state: RethResult<StateOf<DB, Tree>>) -> bool {
        exists|pending: Option<BlockNumHash>| #[trigger]
            call_ensures(Tree::pending_block_num_hash, (&self.tree(),), pending) && match pending {
                Some(block) => exists|data: RethResult<Tree::Bundle>| #[trigger]
                    call_ensures(Tree::pending_state_provider, (&self.tree(), block.hash), data)
                        && match data {
                        Ok(data) => self.applies_bundle(data, state),
                        Err(error) => state == Err::<StateOf<DB, Tree>, RethError>(error),
                    },
                None => self.answers_latest(state),
            }
    }
}

impl<
    DB: Database,
    Tree: BlockchainTreePendingStateProvider + BlockchainTreeViewer,
> StateProviderFactory for BlockchainProvider<DB, Tree> {
    type State = StateOf<DB, Tree>;

    type Bundle = Tree::Bundle;

    /// Storage provider for latest block
    fn latest(&self) -> (state: RethResult<Self::State>)
        ensures
            self.answers_latest(state),
    {
        let stored = self.database.latest();
        assert(call_ensures(DB::latest, (&self.db(),), stored));
        stored_state(stored)
    }

    fn history_by_block_number(&self, block_number: BlockNumber) -> (state: RethResult<Self::State>)
        ensures
            self.answers_history_by_number(block_number, state),
    {
        self.ensure_canonical_block(block_number)?;
        stored_state(self.database.history_by_block_number(block_number))
    }

    fn history_by_block_hash(&self, block_hash: BlockHash) -> (state: RethResult<Self::State>)
        ensures
            self.answers_history_by_hash(block_hash, state),
    {
        stored_state(self.database.history_by_block_hash(block_hash))
    }

    fn state_by_block_hash(&self, block: BlockHash) -> (state: RethResult<Self::State>)
        ensures
            self.answers_state_by_hash(block, state),
    {
        let stored = self.history_by_block_hash(block);
        if stored.is_ok() {
            return stored;
        }
        // The database has it not: it may be the pending block.
        let pending = self.pending_state_by_hash(block);
        stored_or_pending(stored, pending)
    }

    /// Storage provider for pending state.
    fn pending(&self) -> (state: RethResult<Self::State>)
        ensures
            self.answers_pending(state),
    {
        let pending = self.tree.pending_block_num_hash();
        assert(call_ensures(Tree::pending_block_num_hash, (&self.tree(),), pending));
        match pending {
            Some(block) => {
                let data = self.tree.pending_state_provider(block.hash)?;
                self.pending_with_provider(data)
            },
            None => self.latest(),
        }
    }

    fn pending_state_by_hash(&self, block_hash: H256) -> (state: RethResult<Option<Self::State>>)
        ensures
            self.answers_pending_by_hash(block_hash, state),
    {
        match self.tree.find_pending_state_provider(block_hash) {
            Some(data) => Ok(Some(self.pending_with_provider(data)?)),
            None => Ok(None),
        }
    }

    fn pending_with_provider(
        &self,
        post_state_data: Self::Bundle,
    ) -> (state: RethResult<Self::State>)
        ensures
            self.applies_bundle(post_state_data, state),
    {
        let canonical_fork = post_state_data.canonical_fork();
        let base = self.database.history_by_block_hash(canonical_fork.hash);
        bundle_state(base, post_state_data)
    }
}

} // verus!
