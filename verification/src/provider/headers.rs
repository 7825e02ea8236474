//! Headers and hashes, from the database.

use crate::database::Database;
use crate::error::RethResult;
use crate::primitives::{BlockHash, BlockNumber, Header, NumberRange, SealedHeader, H256, U256};
use crate::provider::{reads, BlockchainProvider};
use crate::traits::{BlockHashReader, HeaderProvider};
use vstd::prelude::*;

verus! {

impl<DB: Database, Tree> BlockchainProvider<DB, Tree> {
    /// `header` is what the database may answer for this hash.
    pub open spec fn reads_header(
        self,
        hash: BlockHash,
        header: RethResult<Option<Header>>,
    ) -> bool {
        reads(
            self.db(),
            |provider: DB::Provider, header: RethResult<Option<Header>>|
                call_ensures(DB::Provider::header, (&provider, &hash), header),
            header,
        )
    }

    /// `header` is what the database may answer for this number.
    pub open spec fn reads_header_by_number(
        self,
        number: BlockNumber,
        header: RethResult<Option<Header>>,
    ) -> bool {
        reads(
            self.db(),
            |provider: DB::Provider, header: RethResult<Option<Header>>|
                call_ensures(DB::Provider::header_by_number, (&provider, number), header),
            header,
        )
    }
}

impl<DB: Database, Tree> HeaderProvider for BlockchainProvider<DB, Tree> {
    fn header(&self, block_hash: &BlockHash) -> (header: RethResult<Option<Header>>)
        ensures
            self.reads_header(*block_hash, header),
    {
        self.provider()?.header(block_hash)
    }

    fn header_by_number(&self, num: BlockNumber) -> (header: RethResult<Option<Header>>)
        ensures
            self.reads_header_by_number(num, header),
    {
        self.provider()?.header_by_number(num)
    }

    fn header_td(&self, hash: &BlockHash) -> (difficulty: RethResult<Option<U256>>)
        ensures
            reads(
                self.db(),
                |provider: DB::Provider, difficulty: RethResult<Option<U256>>|
                    call_ensures(DB::Provider::header_td, (&provider, hash), difficulty),
                difficulty,
            ),
    {
        self.provider()?.header_td(hash)
    }

    fn header_td_by_number(&self, number: BlockNumber) -> (difficulty: RethResult<Option<U256>>)
        ensures
            reads(
                self.db(),
                |provider: DB::Provider, difficulty: RethResult<Option<U256>>|
                    call_ensures(
                        DB::Provider::header_td_by_number,
                        (&provider, number),
                        difficulty,
                    ),
                difficulty,
            ),
    {
        self.provider()?.header_td_by_number(number)
    }

    fn headers_range(&self, range: NumberRange) -> (headers: RethResult<Vec<Header>>)
        ensures
            reads(
                self.db(),
                |provider: DB::Provider, headers: RethResult<Vec<Header>>|
                    call_ensures(DB::Provider::headers_range, (&provider, range), headers),
                headers,
            ),
    {
        self.provider()?.headers_range(range)
    }

    fn sealed_headers_range(&self, range: NumberRange) -> (headers: RethResult<Vec<SealedHeader>>)
        ensures
            reads(
                self.db(),
                |provider: DB::Provider, headers: RethResult<Vec<SealedHeader>>|
                    call_ensures(DB::Provider::sealed_headers_range, (&provider, range), headers),
                headers,
            ),
    {
        self.provider()?.sealed_headers_range(range)
    }

    fn sealed_header(&self, number: BlockNumber) -> (header: RethResult<Option<SealedHeader>>)
        ensures
            reads(
                self.db(),
                |provider: DB::Provider, header: RethResult<Option<SealedHeader>>|
                    call_ensures(DB::Provider::sealed_header, (&provider, number), header),
                header,
            ),
    {
        self.provider()?.sealed_header(number)
    }
}

impl<DB: Database, Tree> BlockHashReader for BlockchainProvider<DB, Tree> {
    fn block_hash(&self, number: u64) -> (hash: RethResult<Option<H256>>)
        ensures
            reads(
                self.db(),
                |provider: DB::Provider, hash: RethResult<Option<H256>>|
                    call_ensures(DB::Provider::block_hash, (&provider, number), hash),
                hash,
            ),
    {
        self.provider()?.block_hash(number)
    }

    fn canonical_hashes_range(
        &self,
        start: BlockNumber,
        end: BlockNumber,
    ) -> (hashes: RethResult<Vec<H256>>)
        ensures
            reads(
                self.db(),
                |provider: DB::Provider, hashes: RethResult<Vec<H256>>|
                    call_ensures(
                        DB::Provider::canonical_hashes_range,
                        (&provider, start, end),
                        hashes,
                    ),
                hashes,
            ),
    {
        self.provider()?.canonical_hashes_range(start, end)
    }
}

} // verus!
