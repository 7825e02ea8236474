//! What the database alone answers: every such answer comes from one fresh read of the database,
//! for exactly what was asked, and neither the tree nor the tracked heads play a part.

use crate::database::Database;
use crate::error::{RethError, RethResult};
use crate::primitives::{
    Account, AccountBeforeTx, Address, BlockHash, BlockHashOrNumber, BlockNumber, BlockWithSenders,
    Header, NumberRange, PruneCheckpoint, PrunePart, Receipt, SealedHeader, StageCheckpoint,
    StageId, StoredBlockBodyIndices, TransactionMeta, TransactionSigned, TransactionSignedNoHash,
    TxHash, TxNumber, Withdrawal, H256, U256,
};
use crate::provider::BlockchainProvider;
use crate::traits::{
    AccountReader, BlockHashReader, BlockNumReader, BlockReader, BlockchainTreeViewer,
    ChangeSetReader, HeaderProvider, PruneCheckpointReader, ReceiptProvider, StageCheckpointReader,
    TransactionsProvider, WithdrawalsProvider,
};
use vstd::prelude::*;

verus! {

/// A header, its total difficulty and a range of headers are what one fresh read of the database
/// has for the hash, the number or the range that is asked for. If the read does not start, its
/// error is the answer.
pub proof fn headers_are_read_from_the_database<DB: Database, Tree>(
    provider: BlockchainProvider<DB, Tree>,
    hash: BlockHash,
    number: BlockNumber,
    range: NumberRange,
    header: RethResult<Option<Header>>,
    header_by_number: RethResult<Option<Header>>,
    difficulty: RethResult<Option<U256>>,
    difficulty_by_number: RethResult<Option<U256>>,
    headers: RethResult<Vec<Header>>,
    sealed_headers: RethResult<Vec<SealedHeader>>,
    sealed: RethResult<Option<SealedHeader>>,
)
    ensures
        call_ensures(
            <BlockchainProvider<DB, Tree> as HeaderProvider>::header,
            (&provider, &hash),
            header,
        ) ==> exists|read: RethResult<DB::Provider>| #[trigger]
            call_ensures(DB::provider, (&provider.db(),), read) && match read {
                Ok(read) => call_ensures(DB::Provider::header, (&read, &hash), header),
                Err(error) => header == Err::<Option<Header>, RethError>(error),
            },
        call_ensures(
            <BlockchainProvider<DB, Tree> as HeaderProvider>::header_by_number,
            (&provider, number),
            header_by_number,
        ) ==> exists|read: RethResult<DB::Provider>| #[trigger]
            call_ensures(DB::provider, (&provider.db(),), read) && match read {
                Ok(read) => call_ensures(
                    DB::Provider::header_by_number,
                    (&read, number),
                    header_by_number,
                ),
                Err(error) => header_by_number == Err::<Option<Header>, RethError>(error),
            },
        call_ensures(
            <BlockchainProvider<DB, Tree> as HeaderProvider>::header_td,
            (&provider, &hash),
            difficulty,
        ) ==> exists|read: RethResult<DB::Provider>| #[trigger]
            call_ensures(DB::provider, (&provider.db(),), read) && match read {
                Ok(read) => call_ensures(DB::Provider::header_td, (&read, &hash), difficulty),
                Err(error) => difficulty == Err::<Option<U256>, RethError>(error),
            },
        call_ensures(
            <BlockchainProvider<DB, Tree> as HeaderProvider>::header_td_by_number,
            (&provider, number),
            difficulty_by_number,
        ) ==> exists|read: RethResult<DB::Provider>| #[trigger]
            call_ensures(DB::provider, (&provider.db(),), read) && match read {
                Ok(read) => call_ensures(
                    DB::Provider::header_td_by_number,
                    (&read, number),
                    difficulty_by_number,
                ),
                Err(error) => difficulty_by_number == Err::<Option<U256>, RethError>(error),
            },
        call_ensures(
            <BlockchainProvider<DB, Tree> as HeaderProvider>::headers_range,
            (&provider, range),
            headers,
        ) ==> exists|read: RethResult<DB::Provider>| #[trigger]
            call_ensures(DB::provider, (&provider.db(),), read) && match read {
                Ok(read) => call_ensures(DB::Provider::headers_range, (&read, range), headers),
                Err(error) => headers == Err::<Vec<Header>, RethError>(error),
            },
        call_ensures(
            <BlockchainProvider<DB, Tree> as HeaderProvider>::sealed_headers_range,
            (&provider, range),
            sealed_headers,
        ) ==> exists|read: RethResult<DB::Provider>| #[trigger]
            call_ensures(DB::provider, (&provider.db(),), read) && match read {
                Ok(read) => call_ensures(
                    DB::Provider::sealed_headers_range,
                    (&read, range),
                    sealed_headers,
                ),
                Err(error) => sealed_headers == Err::<Vec<SealedHeader>, RethError>(error),
            },
        call_ensures(
            <BlockchainProvider<DB, Tree> as HeaderProvider>::sealed_header,
            (&provider, number),
            sealed,
        ) ==> exists|read: RethResult<DB::Provider>| #[trigger]
            call_ensures(DB::provider, (&provider.db(),), read) && match read {
                Ok(read) => call_ensures(DB::Provider::sealed_header, (&read, number), sealed),
                Err(error) => sealed == Err::<Option<SealedHeader>, RethError>(error),
            },
{
}

/// The hashes of canonical blocks are what one fresh read of the database has for the number or for
/// the range, with its two ends in their order.
pub proof fn hashes_are_read_from_the_database<DB: Database, Tree>(
    provider: BlockchainProvider<DB, Tree>,
    number: u64,
    start: BlockNumber,
    end: BlockNumber,
    hash: RethResult<Option<H256>>,
    hashes: RethResult<Vec<H256>>,
)
    ensures
        call_ensures(
            <BlockchainProvider<DB, Tree> as BlockHashReader>::block_hash,
            (&provider, number),
            hash,
        ) ==> exists|read: RethResult<DB::Provider>| #[trigger]
            call_ensures(DB::provider, (&provider.db(),), read) && match read {
                Ok(read) => call_ensures(DB::Provider::block_hash, (&read, number), hash),
                Err(error) => hash == Err::<Option<H256>, RethError>(error),
            },
        call_ensures(
            <BlockchainProvider<DB, Tree> as BlockHashReader>::canonical_hashes_range,
            (&provider, start, end),
            hashes,
        ) ==> exists|read: RethResult<DB::Provider>| #[trigger]
            call_ensures(DB::provider, (&provider.db(),), read) && match read {
                Ok(read) => call_ensures(
                    DB::Provider::canonical_hashes_range,
                    (&read, start, end),
                    hashes,
                ),
                Err(error) => hashes == Err::<Vec<H256>, RethError>(error),
            },
{
}

/// The highest stored number, and the number of a hash, are what one fresh read of the database
/// has. The tracked heads play no part.
pub proof fn numbers_are_read_from_the_database<DB: Database, Tree: BlockchainTreeViewer>(
    provider: BlockchainProvider<DB, Tree>,
    hash: H256,
    last: RethResult<BlockNumber>,
    number: RethResult<Option<BlockNumber>>,
)
    ensures
        call_ensures(
            <BlockchainProvider<DB, Tree> as BlockNumReader>::last_block_number,
            (&provider,),
            last,
        ) ==> exists|read: RethResult<DB::Provider>| #[trigger]
            call_ensures(DB::provider, (&provider.db(),), read) && match read {
                Ok(read) => call_ensures(DB::Provider::last_block_number, (&read,), last),
                Err(error) => last == Err::<BlockNumber, RethError>(error),
            },
        call_ensures(
            <BlockchainProvider<DB, Tree> as BlockNumReader>::block_number,
            (&provider, hash),
            number,
        ) ==> exists|read: RethResult<DB::Provider>| #[trigger]
            call_ensures(DB::provider, (&provider.db(),), read) && match read {
                Ok(read) => call_ensures(DB::Provider::block_number, (&read, hash), number),
                Err(error) => number == Err::<Option<BlockNumber>, RethError>(error),
            },
{
}

/// The ommers of a block, the numbers of its transactions and the block with its senders are what
/// one fresh read of the database has for the block.
pub proof fn parts_of_blocks_are_read_from_the_database<DB: Database, Tree: BlockchainTreeViewer>(
    provider: BlockchainProvider<DB, Tree>,
    id: BlockHashOrNumber,
    number: BlockNumber,
    ommers: RethResult<Option<Vec<Header>>>,
    indices: RethResult<Option<StoredBlockBodyIndices>>,
    block: RethResult<Option<BlockWithSenders>>,
)
    ensures
        call_ensures(
            <BlockchainProvider<DB, Tree> as BlockReader>::ommers,
            (&provider, id),
            ommers,
        ) ==> exists|read: RethResult<DB::Provider>| #[trigger]
            call_ensures(DB::provider, (&provider.db(),), read) && match read {
                Ok(read) => call_ensures(DB::Provider::ommers, (&read, id), ommers),
                Err(error) => ommers == Err::<Option<Vec<Header>>, RethError>(error),
            },
        call_ensures(
            <BlockchainProvider<DB, Tree> as BlockReader>::block_body_indices,
            (&provider, number),
            indices,
        ) ==> exists|read: RethResult<DB::Provider>| #[trigger]
            call_ensures(DB::provider, (&provider.db(),), read) && match read {
                Ok(read) => call_ensures(
                    DB::Provider::block_body_indices,
                    (&read, number),
                    indices,
                ),
                Err(error) => indices == Err::<Option<StoredBlockBodyIndices>, RethError>(error),
            },
        call_ensures(
            <BlockchainProvider<DB, Tree> as BlockReader>::block_with_senders,
            (&provider, number),
            block,
        ) ==> exists|read: RethResult<DB::Provider>| #[trigger]
            call_ensures(DB::provider, (&provider.db(),), read) && match read {
                Ok(read) => call_ensures(DB::Provider::block_with_senders, (&read, number), block),
                Err(error) => block == Err::<Option<BlockWithSenders>, RethError>(error),
            },
{
}

/// A transaction, its number, its block and its sender are what one fresh read of the database has
/// for the transaction that is asked for.
pub proof fn transactions_are_read_from_the_database<DB: Database, Tree>(
    provider: BlockchainProvider<DB, Tree>,
    hash: TxHash,
    id: TxNumber,
    number: RethResult<Option<TxNumber>>,
    by_id: RethResult<Option<TransactionSigned>>,
    by_id_no_hash: RethResult<Option<TransactionSignedNoHash>>,
    by_hash: RethResult<Option<TransactionSigned>>,
    with_meta: RethResult<Option<(TransactionSigned, TransactionMeta)>>,
    block: RethResult<Option<BlockNumber>>,
    sender: RethResult<Option<Address>>,
)
    ensures
        call_ensures(
            <BlockchainProvider<DB, Tree> as TransactionsProvider>::transaction_id,
            (&provider, hash),
            number,
        ) ==> exists|read: RethResult<DB::Provider>| #[trigger]
            call_ensures(DB::provider, (&provider.db(),), read) && match read {
                Ok(read) => call_ensures(DB::Provider::transaction_id, (&read, hash), number),
                Err(error) => number == Err::<Option<TxNumber>, RethError>(error),
            },
        call_ensures(
            <BlockchainProvider<DB, Tree> as TransactionsProvider>::transaction_by_id,
            (&provider, id),
            by_id,
        ) ==> exists|read: RethResult<DB::Provider>| #[trigger]
            call_ensures(DB::provider, (&provider.db(),), read) && match read {
                Ok(read) => call_ensures(DB::Provider::transaction_by_id, (&read, id), by_id),
                Err(error) => by_id == Err::<Option<TransactionSigned>, RethError>(error),
            },
        call_ensures(
            <BlockchainProvider<DB, Tree> as TransactionsProvider>::transaction_by_id_no_hash,
            (&provider, id),
            by_id_no_hash,
        ) ==> exists|read: RethResult<DB::Provider>| #[trigger]
            call_ensures(DB::provider, (&provider.db(),), read) && match read {
                Ok(read) => call_ensures(
                    DB::Provider::transaction_by_id_no_hash,
                    (&read, id),
                    by_id_no_hash,
                ),
                Err(error) => by_id_no_hash == Err::<
                    Option<TransactionSignedNoHash>,
                    RethError,
                >(error),
            },
        call_ensures(
            <BlockchainProvider<DB, Tree> as TransactionsProvider>::transaction_by_hash,
            (&provider, hash),
            by_hash,
        ) ==> exists|read: RethResult<DB::Provider>| #[trigger]
            call_ensures(DB::provider, (&provider.db(),), read) && match read {
                Ok(read) => call_ensures(DB::Provider::transaction_by_hash, (&read, hash), by_hash),
                Err(error) => by_hash == Err::<Option<TransactionSigned>, RethError>(error),
            },
        call_ensures(
            <BlockchainProvider<DB, Tree> as TransactionsProvider>::transaction_by_hash_with_meta,
            (&provider, hash),
            with_meta,
        ) ==> exists|read: RethResult<DB::Provider>| #[trigger]
            call_ensures(DB::provider, (&provider.db(),), read) && match read {
                Ok(read) => call_ensures(
                    DB::Provider::transaction_by_hash_with_meta,
                    (&read, hash),
                    with_meta,
                ),
                Err(error) => with_meta == Err::<
                    Option<(TransactionSigned, TransactionMeta)>,
                    RethError,
                >(error),
            },
        call_ensures(
            <BlockchainProvider<DB, Tree> as TransactionsProvider>::transaction_block,
            (&provider, id),
            block,
        ) ==> exists|read: RethResult<DB::Provider>| #[trigger]
            call_ensures(DB::provider, (&provider.db(),), read) && match read {
                Ok(read) => call_ensures(DB::Provider::transaction_block, (&read, id), block),
                Err(error) => block == Err::<Option<BlockNumber>, RethError>(error),
            },
        call_ensures(
            <BlockchainProvider<DB, Tree> as TransactionsProvider>::transaction_sender,
            (&provider, id),
            sender,
        ) ==> exists|read: RethResult<DB::Provider>| #[trigger]
            call_ensures(DB::provider, (&provider.db(),), read) && match read {
                Ok(read) => call_ensures(DB::Provider::transaction_sender, (&read, id), sender),
                Err(error) => sender == Err::<Option<Address>, RethError>(error),
            },
{
}

/// The transactions of a block, of a range of blocks and of a range of transaction numbers, and the
/// senders in such a range, are what one fresh read of the database has for it.
pub proof fn ranges_of_transactions_are_read_from_the_database<DB: Database, Tree>(
    provider: BlockchainProvider<DB, Tree>,
    block: BlockHashOrNumber,
    range: NumberRange,
    of_block: RethResult<Option<Vec<TransactionSigned>>>,
    of_blocks: RethResult<Vec<Vec<TransactionSigned>>>,
    transactions: RethResult<Vec<TransactionSignedNoHash>>,
    senders: RethResult<Vec<Address>>,
)
    ensures
        call_ensures(
            <BlockchainProvider<DB, Tree> as TransactionsProvider>::transactions_by_block,
            (&provider, block),
            of_block,
        ) ==> exists|read: RethResult<DB::Provider>| #[trigger]
            call_ensures(DB::provider, (&provider.db(),), read) && match read {
                Ok(read) => call_ensures(
                    DB::Provider::transactions_by_block,
                    (&read, block),
                    of_block,
                ),
                Err(error) => of_block == Err::<Option<Vec<TransactionSigned>>, RethError>(error),
            },
        call_ensures(
            <BlockchainProvider<DB, Tree> as TransactionsProvider>::transactions_by_block_range,
            (&provider, range),
            of_blocks,
        ) ==> exists|read: RethResult<DB::Provider>| #[trigger]
            call_ensures(DB::provider, (&provider.db(),), read) && match read {
                Ok(read) => call_ensures(
                    DB::Provider::transactions_by_block_range,
                    (&read, range),
                    of_blocks,
                ),
                Err(error) => of_blocks == Err::<Vec<Vec<TransactionSigned>>, RethError>(error),
            },
        call_ensures(
            <BlockchainProvider<DB, Tree> as TransactionsProvider>::transactions_by_tx_range,
            (&provider, range),
            transactions,
        ) ==> exists|read: RethResult<DB::Provider>| #[trigger]
            call_ensures(DB::provider, (&provider.db(),), read) && match read {
                Ok(read) => call_ensures(
                    DB::Provider::transactions_by_tx_range,
                    (&read, range),
                    transactions,
                ),
                Err(error) => transactions == Err::<Vec<TransactionSignedNoHash>, RethError>(error),
            },
        call_ensures(
            <BlockchainProvider<DB, Tree> as TransactionsProvider>::senders_by_tx_range,
            (&provider, range),
            senders,
        ) ==> exists|read: RethResult<DB::Provider>| #[trigger]
            call_ensures(DB::provider, (&provider.db(),), read) && match read {
                Ok(read) => call_ensures(
                    DB::Provider::senders_by_tx_range,
                    (&read, range),
                    senders,
                ),
                Err(error) => senders == Err::<Vec<Address>, RethError>(error),
            },
{
}

/// The receipt of a transaction, and the receipts of a block, are what one fresh read of the
/// database has for it.
pub proof fn receipts_are_read_from_the_database<DB: Database, Tree>(
    provider: BlockchainProvider<DB, Tree>,
    id: TxNumber,
    hash: TxHash,
    block: BlockHashOrNumber,
    receipt: RethResult<Option<Receipt>>,
    by_hash: RethResult<Option<Receipt>>,
    receipts: RethResult<Option<Vec<Receipt>>>,
)
    ensures
        call_ensures(
            <BlockchainProvider<DB, Tree> as ReceiptProvider>::receipt,
            (&provider, id),
            receipt,
        ) ==> exists|read: RethResult<DB::Provider>| #[trigger]
            call_ensures(DB::provider, (&provider.db(),), read) && match read {
                Ok(read) => call_ensures(DB::Provider::receipt, (&read, id), receipt),
                Err(error) => receipt == Err::<Option<Receipt>, RethError>(error),
            },
        call_ensures(
            <BlockchainProvider<DB, Tree> as ReceiptProvider>::receipt_by_hash,
            (&provider, hash),
            by_hash,
        ) ==> exists|read: RethResult<DB::Provider>| #[trigger]
            call_ensures(DB::provider, (&provider.db(),), read) && match read {
                Ok(read) => call_ensures(DB::Provider::receipt_by_hash, (&read, hash), by_hash),
                Err(error) => by_hash == Err::<Option<Receipt>, RethError>(error),
            },
        call_ensures(
            <BlockchainProvider<DB, Tree> as ReceiptProvider>::receipts_by_block,
            (&provider, block),
            receipts,
        ) ==> exists|read: RethResult<DB::Provider>| #[trigger]
            call_ensures(DB::provider, (&provider.db(),), read) && match read {
                Ok(read) => call_ensures(DB::Provider::receipts_by_block, (&read, block), receipts),
                Err(error) => receipts == Err::<Option<Vec<Receipt>>, RethError>(error),
            },
{
}

/// The withdrawals of a block with a timestamp, and the last withdrawal, are what one fresh read of
/// the database has.
pub proof fn withdrawals_are_read_from_the_database<DB: Database, Tree>(
    provider: BlockchainProvider<DB, Tree>,
    id: BlockHashOrNumber,
    timestamp: u64,
    withdrawals: RethResult<Option<Vec<Withdrawal>>>,
    latest: RethResult<Option<Withdrawal>>,
)
    ensures
        call_ensures(
            <BlockchainProvider<DB, Tree> as WithdrawalsProvider>::withdrawals_by_block,
            (&provider, id, timestamp),
            withdrawals,
        ) ==> exists|read: RethResult<DB::Provider>| #[trigger]
            call_ensures(DB::provider, (&provider.db(),), read) && match read {
                Ok(read) => call_ensures(
                    DB::Provider::withdrawals_by_block,
                    (&read, id, timestamp),
                    withdrawals,
                ),
                Err(error) => withdrawals == Err::<Option<Vec<Withdrawal>>, RethError>(error),
            },
        call_ensures(
            <BlockchainProvider<DB, Tree> as WithdrawalsProvider>::latest_withdrawal,
            (&provider,),
            latest,
        ) ==> exists|read: RethResult<DB::Provider>| #[trigger]
            call_ensures(DB::provider, (&provider.db(),), read) && match read {
                Ok(read) => call_ensures(DB::Provider::latest_withdrawal, (&read,), latest),
                Err(error) => latest == Err::<Option<Withdrawal>, RethError>(error),
            },
{
}

/// The checkpoint of a stage, and its progress, are what one fresh read of the database has for the
/// stage.
pub proof fn stage_checkpoints_are_read_from_the_database<DB: Database, Tree>(
    provider: BlockchainProvider<DB, Tree>,
    id: StageId,
    checkpoint: RethResult<Option<StageCheckpoint>>,
    progress: RethResult<Option<Vec<u8>>>,
)
    ensures
        call_ensures(
            <BlockchainProvider<DB, Tree> as StageCheckpointReader>::get_stage_checkpoint,
            (&provider, id),
            checkpoint,
        ) ==> exists|read: RethResult<DB::Provider>| #[trigger]
            call_ensures(DB::provider, (&provider.db(),), read) && match read {
                Ok(read) => call_ensures(
                    DB::Provider::get_stage_checkpoint,
                    (&read, id),
                    checkpoint,
                ),
                Err(error) => checkpoint == Err::<Option<StageCheckpoint>, RethError>(error),
            },
        call_ensures(
            <BlockchainProvider<DB, Tree> as StageCheckpointReader>::get_stage_checkpoint_progress,
            (&provider, id),
            progress,
        ) ==> exists|read: RethResult<DB::Provider>| #[trigger]
            call_ensures(DB::provider, (&provider.db(),), read) && match read {
                Ok(read) => call_ensures(
                    DB::Provider::get_stage_checkpoint_progress,
                    (&read, id),
                    progress,
                ),
                Err(error) => progress == Err::<Option<Vec<u8>>, RethError>(error),
            },
{
}

/// The checkpoint of a part that is pruned is what one fresh read of the database has for the part.
pub proof fn prune_checkpoints_are_read_from_the_database<DB: Database, Tree>(
    provider: BlockchainProvider<DB, Tree>,
    part: PrunePart,
    checkpoint: RethResult<Option<PruneCheckpoint>>,
)
    ensures
        call_ensures(
            <BlockchainProvider<DB, Tree> as PruneCheckpointReader>::get_prune_checkpoint,
            (&provider, part),
            checkpoint,
        ) ==> exists|read: RethResult<DB::Provider>| #[trigger]
            call_ensures(DB::provider, (&provider.db(),), read) && match read {
                Ok(read) => call_ensures(
                    DB::Provider::get_prune_checkpoint,
                    (&read, part),
                    checkpoint,
                ),
                Err(error) => checkpoint == Err::<Option<PruneCheckpoint>, RethError>(error),
            },
{
}

/// The accounts that a block changed are what one fresh read of the database has for the number.
pub proof fn changed_accounts_are_read_from_the_database<DB: Database, Tree>(
    provider: BlockchainProvider<DB, Tree>,
    number: BlockNumber,
    changes: RethResult<Vec<AccountBeforeTx>>,
)
    ensures
        call_ensures(
            <BlockchainProvider<DB, Tree> as ChangeSetReader>::account_block_changeset,
            (&provider, number),
            changes,
        ) ==> exists|read: RethResult<DB::Provider>| #[trigger]
            call_ensures(DB::provider, (&provider.db(),), read) && match read {
                Ok(read) => call_ensures(
                    DB::Provider::account_block_changeset,
                    (&read, number),
                    changes,
                ),
                Err(error) => changes == Err::<Vec<AccountBeforeTx>, RethError>(error),
            },
{
}

/// The account at an address is what one fresh read of the database has for the address.
pub proof fn accounts_are_read_from_the_database<DB: Database, Tree>(
    provider: BlockchainProvider<DB, Tree>,
    address: Address,
    account: RethResult<Option<Account>>,
)
    ensures
        call_ensures(
            <BlockchainProvider<DB, Tree> as AccountReader>::basic_account,
            (&provider, address),
            account,
        ) ==> exists|read: RethResult<DB::Provider>| #[trigger]
            call_ensures(DB::provider, (&provider.db(),), read) && match read {
                Ok(read) => call_ensures(DB::Provider::basic_account, (&read, address), account),
                Err(error) => account == Err::<Option<Account>, RethError>(error),
            },
{
}

} // verus!
