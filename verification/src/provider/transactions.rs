//! Transactions, from the database.

use crate::database::Database;
use crate::error::RethResult;
use crate::primitives::{
    Address, BlockHashOrNumber, BlockNumber, NumberRange, TransactionMeta, TransactionSigned,
    TransactionSignedNoHash, TxHash, TxNumber,
};
use crate::provider::{reads, BlockchainProvider};
use crate::traits::TransactionsProvider;
use vstd::prelude::*;

verus! {

impl<DB: Database, Tree> TransactionsProvider for BlockchainProvider<DB, Tree> {
    fn transaction_id(&self, tx_hash: TxHash) -> (id: RethResult<Option<TxNumber>>)
        ensures
            reads(
                self.db(),
                |provider: DB::Provider, id: RethResult<Option<TxNumber>>|
                    call_ensures(DB::Provider::transaction_id, (&provider, tx_hash), id),
                id,
            ),
    {
        self.provider()?.transaction_id(tx_hash)
    }

    fn transaction_by_id(
        &self,
        id: TxNumber,
    ) -> (transaction: RethResult<Option<TransactionSigned>>)
        ensures
            reads(
                self.db(),
                |provider: DB::Provider, transaction: RethResult<Option<TransactionSigned>>|
                    call_ensures(DB::Provider::transaction_by_id, (&provider, id), transaction),
                transaction,
            ),
    {
        self.provider()?.transaction_by_id(id)
    }

    fn transaction_by_id_no_hash(
        &self,
        id: TxNumber,
    ) -> (transaction: RethResult<Option<TransactionSignedNoHash>>)
        ensures
            reads(
                self.db(),
                |provider: DB::Provider, transaction: RethResult<Option<TransactionSignedNoHash>>|
                    call_ensures(
                        DB::Provider::transaction_by_id_no_hash,
                        (&provider, id),
                        transaction,
                    ),
                transaction,
            ),
    {
        self.provider()?.transaction_by_id_no_hash(id)
    }

    fn transaction_by_hash(
        &self,
        hash: TxHash,
    ) -> (transaction: RethResult<Option<TransactionSigned>>)
        ensures
            reads(
                self.db(),
                |provider: DB::Provider, transaction: RethResult<Option<TransactionSigned>>|
                    call_ensures(DB::Provider::transaction_by_hash, (&provider, hash), transaction),
                transaction,
            ),
    {
        self.provider()?.transaction_by_hash(hash)
    }

    fn transaction_by_hash_with_meta(
        &self,
        tx_hash: TxHash,
    ) -> (transaction: RethResult<Option<(TransactionSigned, TransactionMeta)>>)
        ensures
            reads(
                self.db(),
                |
                    provider: DB::Provider,
                    transaction: RethResult<Option<(TransactionSigned, TransactionMeta)>>,
                |
                    call_ensures(
                        DB::Provider::transaction_by_hash_with_meta,
                        (&provider, tx_hash),
                        transaction,
                    ),
                transaction,
            ),
    {
        self.provider()?.transaction_by_hash_with_meta(tx_hash)
    }

    fn transaction_block(&self, id: TxNumber) -> (number: RethResult<Option<BlockNumber>>)
        ensures
            reads(
                self.db(),
                |provider: DB::Provider, number: RethResult<Option<BlockNumber>>|
                    call_ensures(DB::Provider::transaction_block, (&provider, id), number),
                number,
            ),
    {
        self.provider()?.transaction_block(id)
    }

    fn transactions_by_block(
        &self,
        id: BlockHashOrNumber,
    ) -> (transactions: RethResult<Option<Vec<TransactionSigned>>>)
        ensures
            reads(
                self.db(),
                |provider: DB::Provider, transactions: RethResult<Option<Vec<TransactionSigned>>>|
                    call_ensures(
                        DB::Provider::transactions_by_block,
                        (&provider, id),
                        transactions,
                    ),
                transactions,
            ),
    {
        self.provider()?.transactions_by_block(id)
    }

    fn transactions_by_block_range(
        &self,
        range: NumberRange,
    ) -> (transactions: RethResult<Vec<Vec<TransactionSigned>>>)
        ensures
            reads(
                self.db(),
                |provider: DB::Provider, transactions: RethResult<Vec<Vec<TransactionSigned>>>|
                    call_ensures(
                        DB::Provider::transactions_by_block_range,
                        (&provider, range),
                        transactions,
                    ),
                transactions,
            ),
    {
        self.provider()?.transactions_by_block_range(range)
    }

    fn transactions_by_tx_range(
        &self,
        range: NumberRange,
    ) -> (transactions: RethResult<Vec<TransactionSignedNoHash>>)
        ensures
            reads(
                self.db(),
                |provider: DB::Provider, transactions: RethResult<Vec<TransactionSignedNoHash>>|
                    call_ensures(
                        DB::Provider::transactions_by_tx_range,
                        (&provider, range),
                        transactions,
                    ),
                transactions,
            ),
    {
        self.provider()?.transactions_by_tx_range(range)
    }

    fn senders_by_tx_range(&self, range: NumberRange) -> (senders: RethResult<Vec<Address>>)
        ensures
            reads(
                self.db(),
                |provider: DB::Provider, senders: RethResult<Vec<Address>>|
                    call_ensures(DB::Provider::senders_by_tx_range, (&provider, range), senders),
                senders,
            ),
    {
        self.provider()?.senders_by_tx_range(range)
    }

    fn transaction_sender(&self, id: TxNumber) -> (sender: RethResult<Option<Address>>)
        ensures
            reads(
                self.db(),
                |provider: DB::Provider, sender: RethResult<Option<Address>>|
                    call_ensures(DB::Provider::transaction_sender, (&provider, id), sender),
                sender,
            ),
    {
        self.provider()?.transaction_sender(id)
    }
}

} // verus!
