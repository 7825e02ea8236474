//! What the consensus layer says of the chain.

use crate::chain_info::ChainState;
use crate::primitives::{ForkchoiceState, SealedHeader};
use crate::provider::BlockchainProvider;
use crate::traits::CanonChainTracker;
use std::time::Instant;
use vstd::prelude::*;

verus! {

impl<DB, Tree> BlockchainProvider<DB, Tree> {
    /// Only the tracked heads may differ between `self` and `other`.
    pub open spec fn same_sources(self, other: Self) -> bool {
        &&& self.factory() == other.factory()
        &&& self.tree() == other.tree()
    }
}

impl<DB, Tree> CanonChainTracker for BlockchainProvider<DB, Tree> {
    fn on_forkchoice_update_received(&mut self, _update: &ForkchoiceState)
        ensures
            final(self).same_sources(*old(self)),
            exists|now: Instant| #[trigger]
                call_ensures(Instant::now, (), now) && final(self).chain() == (ChainState {
                    last_forkchoice_update: Some(now),
                    ..old(self).chain()
                }),
    {
        self.chain_info.on_forkchoice_update_received();
    }

    fn last_received_update_timestamp(&self) -> (at: Option<Instant>)
        ensures
            at == self.chain().last_forkchoice_update,
    {
        self.chain_info.last_forkchoice_update_received_at()
    }

    fn on_transition_configuration_exchanged(&mut self)
        ensures
            final(self).same_sources(*old(self)),
            exists|now: Instant| #[trigger]
                call_ensures(Instant::now, (), now) && final(self).chain() == (ChainState {
                    last_transition_configuration_exchange: Some(now),
                    ..old(self).chain()
                }),
    {
        self.chain_info.on_transition_configuration_exchanged();
    }

    fn last_exchanged_transition_configuration_timestamp(&self) -> (at: Option<Instant>)
        ensures
            at == self.chain().last_transition_configuration_exchange,
    {
        self.chain_info.last_transition_configuration_exchanged_at()
    }

    fn set_canonical_head(&mut self, header: SealedHeader)
        ensures
            final(self).same_sources(*old(self)),
            final(self).chain() == (ChainState { canonical_head: header, ..old(self).chain() }),
    {
        self.chain_info.set_canonical_head(header);
    }

    fn set_safe(&mut self, header: SealedHeader)
        ensures
            final(self).same_sources(*old(self)),
            final(self).chain() == (ChainState { safe_block: Some(header), ..old(self).chain() }),
    {
        self.chain_info.set_safe(header);
    }

    fn set_finalized(&mut self, header: SealedHeader)
        ensures
            final(self).same_sources(*old(self)),
            final(self).chain() == (ChainState {
                finalized_block: Some(header),
                ..old(self).chain()
            }),
    {
        self.chain_info.set_finalized(header);
    }
}

} // verus!
