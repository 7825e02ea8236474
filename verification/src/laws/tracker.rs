//! What the tracker of the heads keeps.

use crate::chain_info::ChainInfoTracker;
use crate::primitives::{BlockNumHash, BlockNumber, ChainInfo, SealedHeader};
use std::time::Instant;
use vstd::prelude::*;

verus! {

/// The tracker takes an announced header for the role that it is announced for, whatever it had
/// before, and keeps the rest.
pub proof fn a_tracker_takes_what_it_is_told(
    tracker: &mut ChainInfoTracker,
    header: SealedHeader,
)
    ensures
        call_ensures(ChainInfoTracker::set_canonical_head, (tracker, header), ()) ==> {
            &&& final(tracker)@.canonical_head == header
            &&& final(tracker)@.safe_block == old(tracker)@.safe_block
            &&& final(tracker)@.finalized_block == old(tracker)@.finalized_block
            &&& final(tracker)@.last_forkchoice_update == old(tracker)@.last_forkchoice_update
            &&& final(tracker)@.last_transition_configuration_exchange
                    == old(tracker)@.last_transition_configuration_exchange
        },
        call_ensures(ChainInfoTracker::set_safe, (tracker, header), ()) ==> {
            &&& final(tracker)@.safe_block == Some(header)
            &&& final(tracker)@.canonical_head == old(tracker)@.canonical_head
            &&& final(tracker)@.finalized_block == old(tracker)@.finalized_block
            &&& final(tracker)@.last_forkchoice_update == old(tracker)@.last_forkchoice_update
            &&& final(tracker)@.last_transition_configuration_exchange
                    == old(tracker)@.last_transition_configuration_exchange
        },
        call_ensures(ChainInfoTracker::set_finalized, (tracker, header), ()) ==> {
            &&& final(tracker)@.finalized_block == Some(header)
            &&& final(tracker)@.canonical_head == old(tracker)@.canonical_head
            &&& final(tracker)@.safe_block == old(tracker)@.safe_block
            &&& final(tracker)@.last_forkchoice_update == old(tracker)@.last_forkchoice_update
            &&& final(tracker)@.last_transition_configuration_exchange
                    == old(tracker)@.last_transition_configuration_exchange
        },
{
}

/// The tracker notes the time that it is told, or a time of the clock, and keeps the rest.
pub proof fn a_tracker_notes_the_time(
    tracker: &mut ChainInfoTracker,
    at: Instant,
)
    ensures
        call_ensures(ChainInfoTracker::record_forkchoice_update, (tracker, at), ()) ==> {
            &&& final(tracker)@.last_forkchoice_update == Some(at)
            &&& final(tracker)@.canonical_head == old(tracker)@.canonical_head
            &&& final(tracker)@.safe_block == old(tracker)@.safe_block
            &&& final(tracker)@.finalized_block == old(tracker)@.finalized_block
            &&& final(tracker)@.last_transition_configuration_exchange
                    == old(tracker)@.last_transition_configuration_exchange
        },
        call_ensures(
            ChainInfoTracker::record_transition_configuration_exchange,
            (tracker, at),
            (),
        ) ==> {
            &&& final(tracker)@.last_transition_configuration_exchange == Some(at)
            &&& final(tracker)@.canonical_head == old(tracker)@.canonical_head
            &&& final(tracker)@.safe_block == old(tracker)@.safe_block
            &&& final(tracker)@.finalized_block == old(tracker)@.finalized_block
            &&& final(tracker)@.last_forkchoice_update == old(tracker)@.last_forkchoice_update
        },
        call_ensures(ChainInfoTracker::on_forkchoice_update_received, (tracker,), ()) ==> {
            &&& exists|now: Instant| #[trigger]
                call_ensures(Instant::now, (), now) && final(tracker)@.last_forkchoice_update
                    == Some(now)
            &&& final(tracker)@.canonical_head == old(tracker)@.canonical_head
            &&& final(tracker)@.safe_block == old(tracker)@.safe_block
            &&& final(tracker)@.finalized_block == old(tracker)@.finalized_block
            &&& final(tracker)@.last_transition_configuration_exchange
                    == old(tracker)@.last_transition_configuration_exchange
        },
        call_ensures(
            ChainInfoTracker::on_transition_configuration_exchanged,
            (tracker,),
            (),
        ) ==> {
            &&& exists|now: Instant| #[trigger]
                call_ensures(Instant::now, (), now) && final(tracker)@
                    .last_transition_configuration_exchange == Some(now)
            &&& final(tracker)@.canonical_head == old(tracker)@.canonical_head
            &&& final(tracker)@.safe_block == old(tracker)@.safe_block
            &&& final(tracker)@.finalized_block == old(tracker)@.finalized_block
            &&& final(tracker)@.last_forkchoice_update == old(tracker)@.last_forkchoice_update
        },
{
}

/// A new tracker has the given header as its tip, and nothing is safe, final or noted.
pub proof fn a_tracker_starts_with_a_tip(
    head: SealedHeader,
    tracker: ChainInfoTracker,
)
    requires
        call_ensures(ChainInfoTracker::new, (head,), tracker),
    ensures
        tracker@.canonical_head == head,
        tracker@.safe_block is None,
        tracker@.finalized_block is None,
        tracker@.last_forkchoice_update is None,
        tracker@.last_transition_configuration_exchange is None,
{
}

/// The tracker answers with the headers, the numbers, the hashes and the times that it has.
pub proof fn a_tracker_answers_what_it_has(
    tracker: ChainInfoTracker,
    info: ChainInfo,
    head: SealedHeader,
    header: Option<SealedHeader>,
    number: BlockNumber,
    num_hash: Option<BlockNumHash>,
    at: Option<Instant>,
)
    ensures
        call_ensures(ChainInfoTracker::chain_info, (&tracker,), info)
            ==> info.best_hash == tracker@.canonical_head.hash
            && info.best_number == tracker@.canonical_head.header.number,
        call_ensures(ChainInfoTracker::get_canonical_head, (&tracker,), head)
            ==> head == tracker@.canonical_head,
        call_ensures(ChainInfoTracker::get_safe_header, (&tracker,), header)
            ==> header == tracker@.safe_block,
        call_ensures(ChainInfoTracker::get_finalized_header, (&tracker,), header)
            ==> header == tracker@.finalized_block,
        call_ensures(ChainInfoTracker::get_canonical_block_number, (&tracker,), number)
            ==> number == tracker@.canonical_head.header.number,
        call_ensures(ChainInfoTracker::get_safe_num_hash, (&tracker,), num_hash)
            ==> match tracker@.safe_block {
            Some(block) => num_hash == Some(
                BlockNumHash { number: block.header.number, hash: block.hash },
            ),
            None => num_hash is None,
        },
        call_ensures(ChainInfoTracker::get_finalized_num_hash, (&tracker,), num_hash)
            ==> match tracker@.finalized_block {
            Some(block) => num_hash == Some(
                BlockNumHash { number: block.header.number, hash: block.hash },
            ),
            None => num_hash is None,
        },
        call_ensures(
            ChainInfoTracker::last_forkchoice_update_received_at,
            (&tracker,),
            at,
        ) ==> at == tracker@.last_forkchoice_update,
        call_ensures(
            ChainInfoTracker::last_transition_configuration_exchanged_at,
            (&tracker,),
            at,
        ) ==> at == tracker@.last_transition_configuration_exchange,
{
}

} // verus!
