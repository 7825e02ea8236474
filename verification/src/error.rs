//! The errors that readers return.

use crate::primitives::{BlockHash, BlockHashOrNumber};
use vstd::prelude::*;

verus! {

/// Something that was asked for is not there.
#[derive(Debug, Clone, PartialEq, Eq)]
pub enum ProviderError {
    /// No header with this hash or number.
    HeaderNotFound(BlockHashOrNumber),
    /// No state for the block with this hash.
    StateForHashNotFound(BlockHash),
}

/// Why a read failed.
#[derive(Debug, Clone, PartialEq, Eq)]
pub enum RethError {
    /// Something that was asked for is not there.
    Provider(ProviderError),
    /// Any other failure, in words.
    Custom(String),
}

/// The result of a read.
pub type RethResult<T> = Result<T, RethError>;

} // verus!
