//! The tracked heads of the chain.

use crate::primitives::{BlockNumHash, BlockNumber, ChainInfo, SealedHeader};
use std::time::Instant;
use vstd::prelude::*;

verus! {

/// `std::time::Instant`, a point in time. Nothing is known of what is inside.
#[verifier::external_type_specification]
#[verifier::external_body]
pub struct ExInstant(std::time::Instant);

/// `std::time::Instant::now` returns the current time. Nothing is claimed of which time that is.
pub assume_specification[ std::time::Instant::now ]() -> std::time::Instant;

/// What a [`ChainInfoTracker`] holds.
pub struct ChainState {
    /// The tip of the canonical chain.
    pub canonical_head: SealedHeader,
    /// The last safe block, once one was announced.
    pub safe_block: Option<SealedHeader>,
    /// The last finalized block, once one was announced.
    pub finalized_block: Option<SealedHeader>,
    /// When the last forkchoice update arrived.
    pub last_forkchoice_update: Option<Instant>,
    /// When the transition configuration was last exchanged.
    pub last_transition_configuration_exchange: Option<Instant>,
}

impl ChainState {
    /// Only the tip is known.
    pub open spec fn starting_at(head: SealedHeader) -> Self {
        ChainState {
            canonical_head: head,
            safe_block: None,
            finalized_block: None,
            last_forkchoice_update: None,
            last_transition_configuration_exchange: None,
        }
    }
}

/// The number and the hash of a header that may be there.
pub open spec fn spec_num_hash_of(header: Option<SealedHeader>) -> Option<BlockNumHash> {
    match header {
        Some(header) => Some(header.spec_num_hash()),
        None => None,
    }
}

/// Tracks the canonical head, the safe block and the finalized block.
#[derive(Debug)]
pub struct ChainInfoTracker {
    canonical_head: SealedHeader,
    safe_block: Option<SealedHeader>,
    finalized_block: Option<SealedHeader>,
    last_forkchoice_update: Option<Instant>,
    last_transition_configuration_exchange: Option<Instant>,
}

impl View for ChainInfoTracker {
    type V = ChainState;

    closed spec fn view(&self) -> ChainState {
        ChainState {
            canonical_head: self.canonical_head,
            safe_block: self.safe_block,
            finalized_block: self.finalized_block,
            last_forkchoice_update: self.last_forkchoice_update,
            last_transition_configuration_exchange: self.last_transition_configuration_exchange,
        }
    }
}

impl ChainInfoTracker {
    /// Starts with `head` as the tip of the canonical chain and nothing else known.
    pub fn new(head: SealedHeader) -> (tracker: Self)
        ensures
            tracker@ == ChainState::starting_at(head),
    {
        ChainInfoTracker {
            canonical_head: head,
            safe_block: None,
            finalized_block: None,
            last_forkchoice_update: None,
            last_transition_configuration_exchange: None,
        }
    }

    /// The tip of the canonical chain, by number and hash.
    pub fn chain_info(&self) -> (info: ChainInfo)
        ensures
            info == (ChainInfo {
                best_hash: self@.canonical_head.hash,
                best_number: self@.canonical_head.header.number,
            }),
    {
        ChainInfo {
            best_hash: self.canonical_head.hash,
            best_number: self.canonical_head.header.number,
        }
    }

    /// Notes that a forkchoice update arrived at `at`.
    pub fn record_forkchoice_update(&mut self, at: Instant)
        ensures
            final(self)@ == (ChainState { last_forkchoice_update: Some(at), ..old(self)@ }),
    {
        self.last_forkchoice_update = Some(at);
    }

    /// Notes that a forkchoice update arrived just now.
    pub fn on_forkchoice_update_received(&mut self)
        ensures
            exists|now: Instant| #[trigger]
                call_ensures(Instant::now, (), now) && final(self)@ == (ChainState {
                    last_forkchoice_update: Some(now),
                    ..old(self)@
                }),
    {
        self.record_forkchoice_update(Instant::now());
    }

    /// When the last forkchoice update arrived.
    pub fn last_forkchoice_update_received_at(&self) -> (at: Option<Instant>)
        ensures
            at == self@.last_forkchoice_update,
    {
        self.last_forkchoice_update
    }

    /// Notes that the transition configuration was exchanged at `at`.
    pub fn record_transition_configuration_exchange(&mut self, at: Instant)
        ensures
            final(self)@ == (ChainState {
                last_transition_configuration_exchange: Some(at),
                ..old(self)@
            }),
    {
        self.last_transition_configuration_exchange = Some(at);
    }

    /// Notes that the transition configuration was exchanged just now.
    pub fn on_transition_configuration_exchanged(&mut self)
        ensures
            exists|now: Instant| #[trigger]
                call_ensures(Instant::now, (), now) && final(self)@ == (ChainState {
                    last_transition_configuration_exchange: Some(now),
                    ..old(self)@
                }),
    {
        self.record_transition_configuration_exchange(Instant::now());
    }

    /// When the transition configuration was last exchanged.
    pub fn last_transition_configuration_exchanged_at(&self) -> (at: Option<Instant>)
        ensures
            at == self@.last_transition_configuration_exchange,
    {
        self.last_transition_configuration_exchange
    }

    /// The tip of the canonical chain.
    pub fn get_canonical_head(&self) -> (head: SealedHeader)
        ensures
            head == self@.canonical_head,
    {
        self.canonical_head.clone()
    }

    /// The last safe block.
    pub fn get_safe_header(&self) -> (header: Option<SealedHeader>)
        ensures
            header == self@.safe_block,
    {
        self.safe_block.clone()
    }

    /// The last finalized block.
    pub fn get_finalized_header(&self) -> (header: Option<SealedHeader>)
        ensures
            header == self@.finalized_block,
    {
        self.finalized_block.clone()
    }

    /// The height of the canonical chain.
    pub fn get_canonical_block_number(&self) -> (number: BlockNumber)
        ensures
            number == self@.canonical_head.header.number,
    {
        self.canonical_head.header.number
    }

    /// The last safe block, by number and hash.
    pub fn get_safe_num_hash(&self) -> (num_hash: Option<BlockNumHash>)
        ensures
            num_hash == spec_num_hash_of(self@.safe_block),
    {
        match &self.safe_block {
            Some(header) => Some(header.num_hash()),
            None => None,
        }
    }

    /// The last finalized block, by number and hash.
    pub fn get_finalized_num_hash(&self) -> (num_hash: Option<BlockNumHash>)
        ensures
            num_hash == spec_num_hash_of(self@.finalized_block),
    {
        match &self.finalized_block {
            Some(header) => Some(header.num_hash()),
            None => None,
        }
    }

    /// Moves the tip of the canonical chain to `header`.
    pub fn set_canonical_head(&mut self, header: SealedHeader)
        ensures
            final(self)@ == (ChainState { canonical_head: header, ..old(self)@ }),
    {
        self.canonical_head = header;
    }

    /// Makes `header` the last safe block.
    pub fn set_safe(&mut self, header: SealedHeader)
        ensures
            final(self)@ == (ChainState { safe_block: Some(header), ..old(self)@ }),
    {
        self.safe_block = Some(header);
    }

    /// Makes `header` the last finalized block.
    pub fn set_finalized(&mut self, header: SealedHeader)
        ensures
            final(self)@ == (ChainState { finalized_block: Some(header), ..old(self)@ }),
    {
        self.finalized_block = Some(header);
    }
}

} // verus!
