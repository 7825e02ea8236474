//! The rules by which an answer is put together from what the database and the tree returned.

use crate::error::{ProviderError, RethError, RethResult};
use crate::primitives::{
    Block, BlockHashOrNumber, BlockNumHash, BlockNumber, BlockSource, ChainInfo, Header,
    HeaderHasher, Receipt, RpcBlockHash, SealedBlock, SealedHeader,
};
use vstd::prelude::*;

verus! {

/// There is no header for the block with this number.
pub open spec fn spec_header_not_found(number: BlockNumber) -> RethError {
    RethError::Provider(ProviderError::HeaderNotFound(BlockHashOrNumber::Number(number)))
}

/// There is no header for the block with this number.
pub fn header_not_found(number: BlockNumber) -> (error: RethError)
    ensures
        error == spec_header_not_found(number),
{
    RethError::Provider(ProviderError::HeaderNotFound(BlockHashOrNumber::Number(number)))
}

/// The header of the tip, sealed with the hash that the tip is known by.
pub open spec fn spec_tip_header(best: ChainInfo, found: RethResult<Option<Header>>) -> RethResult<
    SealedHeader,
> {
    match found {
        Ok(Some(header)) => Ok(SealedHeader { header, hash: best.best_hash }),
        Ok(None) => Err(spec_header_not_found(best.best_number)),
        Err(error) => Err(error),
    }
}

/// The header of the tip `best`, if `found` is what the database has for its number. It is sealed
/// with the hash that the tip is known by. A tip without a header is an error.
pub fn tip_header(best: ChainInfo, found: RethResult<Option<Header>>) -> (latest: RethResult<
    SealedHeader,
>)
    ensures
        latest == spec_tip_header(best, found),
{
    match found? {
        Some(header) => Ok(header.seal(best.best_hash)),
        None => Err(header_not_found(best.best_number)),
    }
}

/// The header without its hash, if it is there.
pub open spec fn spec_unsealed_header(header: Option<SealedHeader>) -> Option<Header> {
    match header {
        Some(header) => Some(header.header),
        None => None,
    }
}

/// The header without its hash, if it is there.
pub fn unsealed_header(header: Option<SealedHeader>) -> (unsealed: Option<Header>)
    ensures
        unsealed == spec_unsealed_header(header),
{
    match header {
        Some(header) => Some(header.unseal()),
        None => None,
    }
}

/// `found`, sealed with the hash that `H` computes for it.
pub open spec fn spec_seal_found<H: HeaderHasher>(found: RethResult<Option<Header>>) -> RethResult<
    Option<SealedHeader>,
> {
    match found {
        Ok(Some(header)) => Ok(Some(SealedHeader { header, hash: H::spec_hash_slow(header) })),
        Ok(None) => Ok(None),
        Err(error) => Err(error),
    }
}

/// Seals `found` with the hash that `H` computes for it. `None` and errors stay as they are.
pub fn seal_found<H: HeaderHasher>(found: RethResult<Option<Header>>) -> (sealed: RethResult<
    Option<SealedHeader>,
>)
    ensures
        sealed == spec_seal_found::<H>(found),
{
    match found? {
        Some(header) => Ok(Some(header.seal_slow::<H>())),
        None => Ok(None),
    }
}

/// The block without its hash, if it is there.
pub open spec fn spec_unsealed_block(block: Option<SealedBlock>) -> Option<Block> {
    match block {
        Some(block) => Some(block.spec_unseal()),
        None => None,
    }
}

/// The block without its hash, if it is there.
pub fn unsealed_block(block: Option<SealedBlock>) -> (unsealed: Option<Block>)
    ensures
        unsealed == spec_unsealed_block(block),
{
    match block {
        Some(block) => Some(block.unseal()),
        None => None,
    }
}

/// Whether the tree has to be asked for a block, once the database has answered `stored`.
pub open spec fn spec_asks_tree(source: BlockSource, stored: RethResult<Option<Block>>) -> bool {
    match source {
        BlockSource::Any => stored == Ok::<Option<Block>, RethError>(None),
        BlockSource::Pending => true,
        BlockSource::Database => false,
    }
}

/// Whether the tree has to be asked for a block, once the database has answered `stored`: always
/// if only the tree is looked at, and if both are looked at when the database has it not. An error
/// of the database is final.
pub fn asks_tree(source: BlockSource, stored: &RethResult<Option<Block>>) -> (asks: bool)
    ensures
        asks == spec_asks_tree(source, *stored),
{
    match source {
        BlockSource::Any => match stored {
            Ok(None) => true,
            _ => false,
        },
        BlockSource::Pending => true,
        BlockSource::Database => false,
    }
}

/// The block that was looked for, from what the database and the tree have for its hash.
pub open spec fn spec_found_block(
    source: BlockSource,
    stored: RethResult<Option<Block>>,
    in_tree: Option<SealedBlock>,
) -> RethResult<Option<Block>> {
    if spec_asks_tree(source, stored) {
        Ok(spec_unsealed_block(in_tree))
    } else {
        stored
    }
}

/// The block that was looked for, from what the database and the tree have for its hash.
pub fn found_block(
    source: BlockSource,
    stored: RethResult<Option<Block>>,
    in_tree: Option<SealedBlock>,
) -> (block: RethResult<Option<Block>>)
    ensures
        block == spec_found_block(source, stored, in_tree),
{
    if asks_tree(source, &stored) {
        Ok(unsealed_block(in_tree))
    } else {
        stored
    }
}

/// Where to look for a block with this hash.
pub open spec fn spec_source_of(hash: RpcBlockHash) -> BlockSource {
    if hash.require_canonical == Some(true) {
        BlockSource::Database
    } else {
        BlockSource::Any
    }
}

/// Where to look for a block with this hash: only in the database if it has to be canonical, since
/// canonical blocks are stored nowhere else, and else also in the tree.
pub fn source_of(hash: RpcBlockHash) -> (source: BlockSource)
    ensures
        source == spec_source_of(hash),
{
    match hash.require_canonical {
        Some(true) => BlockSource::Database,
        _ => BlockSource::Any,
    }
}

/// Whether the tree has to be asked for receipts, once the database has answered `stored`.
pub open spec fn spec_asks_tree_for_receipts(
    hash: RpcBlockHash,
    stored: RethResult<Option<Vec<Receipt>>>,
) -> bool {
    stored == Ok::<Option<Vec<Receipt>>, RethError>(None) && hash.require_canonical != Some(true)
}

/// Whether the tree has to be asked for receipts, once the database has answered `stored`: if the
/// database has them not and the block does not have to be canonical.
pub fn asks_tree_for_receipts(
    hash: RpcBlockHash,
    stored: &RethResult<Option<Vec<Receipt>>>,
) -> (asks: bool)
    ensures
        asks == spec_asks_tree_for_receipts(hash, *stored),
{
    match stored {
        Ok(None) => match hash.require_canonical {
            Some(true) => false,
            _ => true,
        },
        _ => false,
    }
}

/// The receipts that were looked for, from what the database and the tree have for the hash.
pub open spec fn spec_found_receipts(
    hash: RpcBlockHash,
    stored: RethResult<Option<Vec<Receipt>>>,
    in_tree: Option<Vec<Receipt>>,
) -> RethResult<Option<Vec<Receipt>>> {
    if spec_asks_tree_for_receipts(hash, stored) {
        Ok(in_tree)
    } else {
        stored
    }
}

/// The receipts that were looked for, from what the database and the tree have for the hash.
pub fn found_receipts(
    hash: RpcBlockHash,
    stored: RethResult<Option<Vec<Receipt>>>,
    in_tree: Option<Vec<Receipt>>,
) -> (receipts: RethResult<Option<Vec<Receipt>>>)
    ensures
        receipts == spec_found_receipts(hash, stored, in_tree),
{
    if asks_tree_for_receipts(hash, &stored) {
        Ok(in_tree)
    } else {
        stored
    }
}

/// The number of a block that may be there.
pub open spec fn spec_number_of(block: Option<BlockNumHash>) -> Option<BlockNumber> {
    match block {
        Some(block) => Some(block.number),
        None => None,
    }
}

/// The number of a block that may be there.
pub fn number_of(block: Option<BlockNumHash>) -> (number: Option<BlockNumber>)
    ensures
        number == spec_number_of(block),
{
    match block {
        Some(block) => Some(block.number),
        None => None,
    }
}

} // verus!
