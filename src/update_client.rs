use crate::types::{height_le, Height};
use vstd::prelude::*;

verus! {

/// What the update-client builder does for a required source height.
#[derive(Clone, Copy, Debug, PartialEq, Eq, Structural)]
pub enum UpdateClientDecision {
    /// The destination's client already certifies the height: no message.
    Skip,
    /// Another update in flight will certify it: wait for that one, then
    /// decide again.
    Wait,
    /// Build the update-client messages from the source's header.
    Build,
}

pub open spec fn update_client_decision_of(client_height: Height, required: Height, in_flight: Seq<Height>) -> UpdateClientDecision {
    if height_le(required, client_height) {
        UpdateClientDecision::Skip
    } else if exists|i: int| 0 <= i < in_flight.len() && height_le(required, #[trigger] in_flight[i]) {
        UpdateClientDecision::Wait
    } else {
        UpdateClientDecision::Build
    }
}

/// Skip, then wait, then build: `client_height` is the latest height that
/// the destination's client of the source certifies, `in_flight` the heights
/// of the updates that other calls are building or submitting now.
pub fn update_client_decision(client_height: &Height, required: &Height, in_flight: &Vec<Height>) -> (r: UpdateClientDecision)
    ensures
        r == update_client_decision_of(*client_height, *required, in_flight@),
{
    if required.le(client_height) {
        return UpdateClientDecision::Skip;
    }
    let mut i: usize = 0;
    while i < in_flight.len()
        invariant
            i <= in_flight@.len(),
            !height_le(*required, *client_height),
            forall|j: int| 0 <= j < i ==> !height_le(*required, #[trigger] in_flight@[j]),
        decreases in_flight.len() - i,
    {
        if required.le(&in_flight[i]) {
            assert(height_le(*required, in_flight@[i as int]));
            return UpdateClientDecision::Wait;
        }
        i = i + 1;
    }
    UpdateClientDecision::Build
}

} // verus!
