//! The database below the provider.

use crate::error::RethResult;
use crate::primitives::{BlockHash, BlockNumber, ChainSpec, HeaderHasher};
use crate::traits::{
    AccountReader, BlockHashReader, BlockNumReader, BlockReader, ChangeSetReader, EvmEnvProvider,
    HeaderProvider, PruneCheckpointReader, ReceiptProvider, StageCheckpointReader,
    TransactionsProvider, WithdrawalsProvider,
};
use std::sync::Arc;
use vstd::prelude::*;

verus! {

/// A database. Nothing is promised of its answers.
pub trait Database {
    /// A consistent read of the whole database.
    type Provider: HeaderProvider
        + BlockHashReader
        + BlockNumReader
        + BlockReader
        + TransactionsProvider
        + ReceiptProvider
        + WithdrawalsProvider
        + StageCheckpointReader
        + EvmEnvProvider
        + PruneCheckpointReader
        + ChangeSetReader
        + AccountReader;

    /// A view of the state after some stored block.
    type State;

    /// The hash function of the headers.
    type Hasher: HeaderHasher;

    /// Starts a read.
    fn provider(&self) -> RethResult<Self::Provider>;

    /// The state after the last stored block.
    fn latest(&self) -> RethResult<Self::State>;

    /// The state after the stored canonical block with this number.
    fn history_by_block_number(&self, block_number: BlockNumber) -> RethResult<Self::State>;

    /// The state after the stored block with this hash.
    fn history_by_block_hash(&self, block_hash: BlockHash) -> RethResult<Self::State>;
}

/// A database together with the chain that it holds.
#[derive(Debug)]
pub struct ProviderFactory<DB> {
    db: DB,
    chain_spec: Arc<ChainSpec>,
}

impl<DB> ProviderFactory<DB> {
    /// The database.
    pub closed spec fn db(self) -> DB {
        self.db
    }

    /// The chain.
    pub closed spec fn spec(self) -> Arc<ChainSpec> {
        self.chain_spec
    }

    /// Takes `db`, which holds `chain_spec`.
    pub fn new(db: DB, chain_spec: Arc<ChainSpec>) -> (factory: Self)
        ensures
            factory.db() == db,
            factory.spec() == chain_spec,
    {
        ProviderFactory { db, chain_spec }
    }

    /// The chain that the database holds.
    pub fn chain_spec(&self) -> (chain_spec: Arc<ChainSpec>)
        ensures
            chain_spec == self.spec(),
    {
        self.chain_spec.clone()
    }
}

impl<DB: Database> ProviderFactory<DB> {
    /// Starts a read.
    pub fn provider(&self) -> (provider: RethResult<DB::Provider>)
        ensures
            call_ensures(DB::provider, (&self.db(),), provider),
    {
        self.db.provider()
    }

    /// The state after the last stored block.
    pub fn latest(&self) -> (state: RethResult<DB::State>)
        ensures
            call_ensures(DB::latest, (&self.db(),), state),
    {
        self.db.latest()
    }

    /// The state after the stored canonical block with this number.
    pub fn history_by_block_number(&self, block_number: BlockNumber) -> (state: RethResult<
        DB::State,
    >)
        ensures
            call_ensures(DB::history_by_block_number, (&self.db(), block_number), state),
    {
        self.db.history_by_block_number(block_number)
    }

    /// The state after the stored block with this hash.
    pub fn history_by_block_hash(&self, block_hash: BlockHash) -> (state: RethResult<DB::State>)
        ensures
            call_ensures(DB::history_by_block_hash, (&self.db(), block_hash), state),
    {
        self.db.history_by_block_hash(block_hash)
    }
}

} // verus!
