//! Withdrawals, checkpoints and accounts, from the database.

use crate::database::Database;
use crate::error::RethResult;
use crate::primitives::{
    Account, AccountBeforeTx, Address, BlockHashOrNumber, BlockNumber, PruneCheckpoint, PrunePart,
    StageCheckpoint, StageId, Withdrawal,
};
use crate::provider::{reads, BlockchainProvider};
use crate::traits::{
    AccountReader, ChangeSetReader, PruneCheckpointReader, StageCheckpointReader,
    WithdrawalsProvider,
};
use vstd::prelude::*;

verus! {

impl<DB: Database, Tree> WithdrawalsProvider for BlockchainProvider<DB, Tree> {
    fn withdrawals_by_block(
        &self,
        id: BlockHashOrNumber,
        timestamp: u64,
    ) -> (withdrawals: RethResult<Option<Vec<Withdrawal>>>)
        ensures
            reads(
                self.db(),
                |provider: DB::Provider, withdrawals: RethResult<Option<Vec<Withdrawal>>>|
                    call_ensures(
                        DB::Provider::withdrawals_by_block,
                        (&provider, id, timestamp),
                        withdrawals,
                    ),
                withdrawals,
            ),
    {
        self.provider()?.withdrawals_by_block(id, timestamp)
    }

    fn latest_withdrawal(&self) -> (withdrawal: RethResult<Option<Withdrawal>>)
        ensures
            reads(
                self.db(),
                |provider: DB::Provider, withdrawal: RethResult<Option<Withdrawal>>|
                    call_ensures(DB::Provider::latest_withdrawal, (&provider,), withdrawal),
                withdrawal,
            ),
    {
        self.provider()?.latest_withdrawal()
    }
}

impl<DB: Database, Tree> StageCheckpointReader for BlockchainProvider<DB, Tree> {
    fn get_stage_checkpoint(&self, id: StageId) -> (checkpoint: RethResult<Option<StageCheckpoint>>)
        ensures
            reads(
                self.db(),
                |provider: DB::Provider, checkpoint: RethResult<Option<StageCheckpoint>>|
                    call_ensures(DB::Provider::get_stage_checkpoint, (&provider, id), checkpoint),
                checkpoint,
            ),
    {
        self.provider()?.get_stage_checkpoint(id)
    }

    fn get_stage_checkpoint_progress(&self, id: StageId) -> (progress: RethResult<Option<Vec<u8>>>)
        ensures
            reads(
                self.db(),
                |provider: DB::Provider, progress: RethResult<Option<Vec<u8>>>|
                    call_ensures(
                        DB::Provider::get_stage_checkpoint_progress,
                        (&provider, id),
                        progress,
                    ),
                progress,
            ),
    {
        self.provider()?.get_stage_checkpoint_progress(id)
    }
}

impl<DB: Database, Tree> PruneCheckpointReader for BlockchainProvider<DB, Tree> {
    fn get_prune_checkpoint(
        &self,
        part: PrunePart,
    ) -> (checkpoint: RethResult<Option<PruneCheckpoint>>)
        ensures
            reads(
                self.db(),
                |provider: DB::Provider, checkpoint: RethResult<Option<PruneCheckpoint>>|
                    call_ensures(DB::Provider::get_prune_checkpoint, (&provider, part), checkpoint),
                checkpoint,
            ),
    {
        self.provider()?.get_prune_checkpoint(part)
    }
}

impl<DB: Database, Tree> ChangeSetReader for BlockchainProvider<DB, Tree> {
    fn account_block_changeset(
        &self,
        block_number: BlockNumber,
    ) -> (changes: RethResult<Vec<AccountBeforeTx>>)
        ensures
            reads(
                self.db(),
                |provider: DB::Provider, changes: RethResult<Vec<AccountBeforeTx>>|
                    call_ensures(
                        DB::Provider::account_block_changeset,
                        (&provider, block_number),
                        changes,
                    ),
                changes,
            ),
    {
        self.provider()?.account_block_changeset(block_number)
    }
}

impl<DB: Database, Tree> AccountReader for BlockchainProvider<DB, Tree> {
    /// Get basic account information.
    fn basic_account(&self, address: Address) -> (account: RethResult<Option<Account>>)
        ensures
            reads(
                self.db(),
                |provider: DB::Provider, account: RethResult<Option<Account>>|
                    call_ensures(DB::Provider::basic_account, (&provider, address), account),
                account,
            ),
    {
        self.provider()?.basic_account(address)
    }
}

} // verus!
