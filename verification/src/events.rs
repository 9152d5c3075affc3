//! Notification values appended after a completed mutation.

use vstd::prelude::*;
use crate::identity::Identity;

verus! {

/// An immutable notification of a completed price update, for off-ledger
/// observers. The core only builds the value; appending it to the host's
/// event log is the host's work, inside the same atomic unit.
#[derive(Clone, Copy, Debug)]
pub struct PriceUpdateEvent {
    pub collection: Identity,
    pub owner: Identity,
    pub timestamp: i64,
}

impl PriceUpdateEvent {
    /// Build the event recording that `owner` updated the prices of
    /// `collection` at the host-supplied `timestamp`.
    pub fn new(collection: Identity, owner: Identity, timestamp: i64) -> (e: PriceUpdateEvent)
        ensures
            e.collection == collection,
            e.owner == owner,
            e.timestamp == timestamp,
    {
        PriceUpdateEvent { collection, owner, timestamp }
    }
}

} // verus!
