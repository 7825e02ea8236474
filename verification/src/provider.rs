//! The main entry point to the chain.

mod blocks;
pub mod environment;
mod headers;
mod ids;
mod names;
mod receipts;
mod records;
pub mod states;
mod tracker;
mod transactions;
mod tree;

use crate::chain_info::{ChainInfoTracker, ChainState};
use crate::database::{Database, ProviderFactory};
use crate::error::{RethError, RethResult};
use crate::primitives::{BlockNumber, ChainInfo, ChainSpec, Header, SealedHeader};
use crate::resolve::{header_not_found, spec_header_not_found, spec_tip_header, tip_header};
use crate::traits::{BlockNumReader, ChainSpecProvider, HeaderProvider};
use std::sync::Arc;
use vstd::prelude::*;

verus! {

/// The main type for interacting with the blockchain.
///
/// It answers from the database and from the blockchain tree, which holds the blocks that are not
/// stored yet, and it tracks which blocks the consensus layer calls the tip, safe and final.
#[derive(Debug)]
pub struct BlockchainProvider<DB, Tree> {
    /// Accesses the database.
    database: ProviderFactory<DB>,
    /// The blockchain tree.
    tree: Tree,
    /// Tracks the chain with regard to forkchoice updates.
    chain_info: ChainInfoTracker,
}

impl<DB, Tree> BlockchainProvider<DB, Tree> {
    /// The database and its chain.
    pub closed spec fn factory(self) -> ProviderFactory<DB> {
        self.database
    }

    /// The database.
    pub open spec fn db(self) -> DB {
        self.factory().db()
    }

    /// The blockchain tree.
    pub closed spec fn tree(self) -> Tree {
        self.tree
    }

    /// The tracked heads.
    pub closed spec fn chain(self) -> ChainState {
        self.chain_info@
    }

    /// Wraps the database and the tree. `latest` is the tip of the canonical chain.
    pub fn with_latest(database: ProviderFactory<DB>, tree: Tree, latest: SealedHeader) -> (provider:
        Self)
        ensures
            provider.factory() == database,
            provider.tree() == tree,
            provider.chain() == ChainState::starting_at(latest),
    {
        BlockchainProvider { database, tree, chain_info: ChainInfoTracker::new(latest) }
    }
}

/// `answer` is what a fresh read of `db` may answer to `query`: the answer of the read, or the error
/// with which it failed to start.
pub open spec fn reads<DB: Database, T>(
    db: DB,
    query: spec_fn(DB::Provider, RethResult<T>) -> bool,
    answer: RethResult<T>,
) -> bool {
    exists|provider: RethResult<DB::Provider>| #[trigger]
        call_ensures(DB::provider, (&db,), provider) && match provider {
            Ok(provider) => query(provider, answer),
            Err(error) => answer == Err::<T, RethError>(error),
        }
}

/// `latest` is what one read of `db` may find as the header of its tip.
pub open spec fn reads_tip<DB: Database>(db: DB, latest: RethResult<SealedHeader>) -> bool {
    reads(
        db,
        |provider: DB::Provider, latest: RethResult<SealedHeader>|
            exists|best: RethResult<ChainInfo>| #[trigger]
                call_ensures(DB::Provider::chain_info, (&provider,), best) && match best {
                    Ok(best) => exists|found: RethResult<Option<Header>>| #[trigger]
                        call_ensures(
                            DB::Provider::header_by_number,
                            (&provider, best.best_number),
                            found,
                        ) && latest == spec_tip_header(best, found),
                    Err(error) => latest == Err::<SealedHeader, RethError>(error),
                },
        latest,
    )
}

impl<DB: Database, Tree> BlockchainProvider<DB, Tree> {
    /// Wraps the database and the tree, and takes the tip of the canonical chain from the database.
    /// It is an error if the database has no header for its tip.
    pub fn new(database: ProviderFactory<DB>, tree: Tree) -> (provider: RethResult<Self>)
        ensures
            match provider {
                Ok(provider) => {
                    &&& reads_tip(database.db(), Ok(provider.chain().canonical_head))
                    &&& provider.chain() == ChainState::starting_at(provider.chain().canonical_head)
                    &&& provider.factory() == database
                    &&& provider.tree() == tree
                },
                Err(error) => reads_tip(database.db(), Err(error)),
            },
    {
        let provider = database.provider()?;
        let best = provider.chain_info()?;
        let found = provider.header_by_number(best.best_number);
        let latest = tip_header(best, found)?;
        Ok(Self::with_latest(database, tree, latest))
    }

    /// Starts a read of the database.
    fn provider(&self) -> (provider: RethResult<DB::Provider>)
        ensures
            call_ensures(DB::provider, (&self.db(),), provider),
    {
        self.database.provider()
    }

    /// Ensures that the block with this number is canonical (synced).
    ///
    /// Numbers beyond the tip would lead to invalid results, mainly during the initial sync. To
    /// look the number up would be expensive: it is compared with the height of the canonical
    /// chain, which moves when a block is synced.
    pub fn ensure_canonical_block(&self, block_number: BlockNumber) -> (canonical: RethResult<()>)
        ensures
            canonical == (if block_number > self.chain().canonical_head.header.number {
                Err(spec_header_not_found(block_number))
            } else {
                Ok::<(), RethError>(())
            }),
    {
        let latest: BlockNumber = self.chain_info.get_canonical_block_number();
        if block_number > latest {
            Err(header_not_found(block_number))
        } else {
            Ok(())
        }
    }
}

impl<DB, Tree> ChainSpecProvider for BlockchainProvider<DB, Tree> {
    fn chain_spec(&self) -> (chain_spec: Arc<ChainSpec>)
        ensures
            chain_spec == self.factory().spec(),
    {
        self.database.chain_spec()
    }
}

} // verus!
