//! Claims as the facade relays them.

use vstd::prelude::*;
use crate::events::{Event, EventView, RollupsClaim, RollupsClaimView, HASH_SIZE};

verus! {

/// A claim on the state after an epoch.
#[derive(Clone, Copy, Debug, PartialEq, Eq)]
pub struct RollupClaim {
    /// Digest of the claimed state.
    pub hash: [u8; HASH_SIZE],
    /// Epoch that the claim is about.
    pub number: u64,
}

/// Model of [`RollupClaim`].
pub struct RollupClaimView {
    pub hash: Seq<u8>,
    pub number: nat,
}

impl View for RollupClaim {
    type V = RollupClaimView;

    open spec fn view(&self) -> RollupClaimView {
        RollupClaimView { hash: self.hash@, number: self.number as nat }
    }
}

/// The claim that an entry of the claims stream carries: its digest, numbered
/// by its epoch.
pub open spec fn claim_of_event(event: EventView<RollupsClaimView>) -> RollupClaimView {
    RollupClaimView { hash: event.payload.claim, number: event.payload.epoch_index }
}

impl vstd::std_specs::convert::FromSpecImpl<Event<RollupsClaim>> for RollupClaim {
    open spec fn obeys_from_spec() -> bool {
        true
    }

    open spec fn from_spec(event: Event<RollupsClaim>) -> RollupClaim {
        RollupClaim { hash: event.payload.claim, number: event.payload.epoch_index }
    }
}

impl From<Event<RollupsClaim>> for RollupClaim {
    fn from(event: Event<RollupsClaim>) -> (claim: RollupClaim)
        ensures
            claim@ == claim_of_event(event@),
    {
        RollupClaim { hash: event.payload.claim, number: event.payload.epoch_index }
    }
}

} // verus!
