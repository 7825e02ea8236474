//! Receipts, from the database and from the tree.

use crate::database::Database;
use crate::error::{RethError, RethResult};
use crate::primitives::{
    BlockHashOrNumber, BlockId, BlockNumber, BlockNumberOrTag, Receipt, RpcBlockHash, TxHash,
    TxNumber,
};
use crate::provider::{reads, BlockchainProvider};
use crate::resolve::{asks_tree_for_receipts, found_receipts, spec_asks_tree_for_receipts};
use crate::traits::{BlockIdReader, BlockchainTreeViewer, ReceiptProvider, ReceiptProviderIdExt};
use vstd::prelude::*;

verus! {

impl<DB: Database, Tree> ReceiptProvider for BlockchainProvider<DB, Tree> {
    fn receipt(&self, id: TxNumber) -> (receipt: RethResult<Option<Receipt>>)
        ensures
            reads(
                self.db(),
                |provider: DB::Provider, receipt: RethResult<Option<Receipt>>|
                    call_ensures(DB::Provider::receipt, (&provider, id), receipt),
                receipt,
            ),
    {
        self.provider()?.receipt(id)
    }

    fn receipt_by_hash(&self, hash: TxHash) -> (receipt: RethResult<Option<Receipt>>)
        ensures
            reads(
                self.db(),
                |provider: DB::Provider, receipt: RethResult<Option<Receipt>>|
                    call_ensures(DB::Provider::receipt_by_hash, (&provider, hash), receipt),
                receipt,
            ),
    {
        self.provider()?.receipt_by_hash(hash)
    }

    fn receipts_by_block(&self, block: BlockHashOrNumber) -> (receipts: RethResult<
        Option<Vec<Receipt>>,
    >)
        ensures
            self.reads_receipts(block, receipts),
    {
        self.provider()?.receipts_by_block(block)
    }
}

impl<DB: Database, Tree> BlockchainProvider<DB, Tree> {
    /// `receipts` is what the database may answer for this block.
    pub open spec fn reads_receipts(
        self,
        block: BlockHashOrNumber,
        receipts: RethResult<Option<Vec<Receipt>>>,
    ) -> bool {
        reads(
            self.db(),
            |provider: DB::Provider, receipts: RethResult<Option<Vec<Receipt>>>|
                call_ensures(DB::Provider::receipts_by_block, (&provider, block), receipts),
            receipts,
        )
    }
}

impl<DB: Database, Tree: BlockchainTreeViewer> BlockchainProvider<DB, Tree> {
    /// `receipts` is what may be answered for this hash: what the database has, and if it has
    /// nothing and the block does not have to be canonical, what the tree has.
    pub open spec fn answers_receipts_by_hash(
        self,
        hash: RpcBlockHash,
        receipts: RethResult<Option<Vec<Receipt>>>,
    ) -> bool {
        exists|stored: RethResult<Option<Vec<Receipt>>>| #[trigger]
            self.reads_receipts(BlockHashOrNumber::Hash(hash.block_hash), stored)
                && if spec_asks_tree_for_receipts(hash, stored) {
                receipts matches Ok(in_tree) && call_ensures(
                    Tree::receipts_by_block_hash,
                    (&self.tree(), hash.block_hash),
                    in_tree,
                )
            } else {
                receipts == stored
            }
    }

    /// `receipts` is what may be answered for this number or role: the tree has those of the pending
    /// block, and the database has all others.
    pub open spec fn answers_receipts_by_tag(
        self,
        num: BlockNumberOrTag,
        receipts: RethResult<Option<Vec<Receipt>>>,
    ) -> bool {
        match num {
            BlockNumberOrTag::Pending => receipts matches Ok(pending) && call_ensures(
                Tree::pending_receipts,
                (&self.tree(),),
                pending,
            ),
            _ => exists|number: Option<BlockNumber>| #[trigger]
                self.stands_for(num, number) && match number {
                    Some(number) => self.reads_receipts(
                        BlockHashOrNumber::Number(number),
                        receipts,
                    ),
                    None => receipts == Ok::<Option<Vec<Receipt>>, RethError>(None),
                },
        }
    }

    /// `receipts` is what may be answered for this name.
    pub open spec fn answers_receipts_by_id(
        self,
        block: BlockId,
        receipts: RethResult<Option<Vec<Receipt>>>,
    ) -> bool {
        match block {
            BlockId::Hash(hash) => self.answers_receipts_by_hash(hash, receipts),
            BlockId::Number(num) => self.answers_receipts_by_tag(num, receipts),
        }
    }
}

impl<DB: Database, Tree: BlockchainTreeViewer> ReceiptProviderIdExt for BlockchainProvider<
    DB,
    Tree,
> {
    fn receipts_by_block_id(&self, block: BlockId) -> (receipts: RethResult<Option<Vec<Receipt>>>)
        ensures
            self.answers_receipts_by_id(block, receipts),
    {
        match block {
            BlockId::Hash(hash) => {
                let stored = self.receipts_by_block(BlockHashOrNumber::Hash(hash.block_hash));
                let in_tree = if asks_tree_for_receipts(hash, &stored) {
                    self.tree.receipts_by_block_hash(hash.block_hash)
                } else {
                    None
                };
                found_receipts(hash, stored, in_tree)
            },
            BlockId::Number(num) => match num {
                BlockNumberOrTag::Pending => Ok(self.tree.pending_receipts()),
                _ => match self.convert_block_number(num)? {
                    Some(num) => self.receipts_by_block(BlockHashOrNumber::Number(num)),
                    None => Ok(None),
                },
            },
        }
    }
}

} // verus!
