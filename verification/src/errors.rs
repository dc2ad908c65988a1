//! The error taxonomy the core surfaces to its callers. Errors are returned,
//! never recovered internally.

use vstd::prelude::*;

use crate::region::{Region, RegionEpoch};

verus! {

/// Why a request or a key was refused.
#[derive(Debug)]
pub enum Error {
    /// The key lies outside the region's range; carries the key and a copy of
    /// the region descriptor so the caller can re-route.
    KeyNotInRegion(Vec<u8>, Region),
    /// The command was addressed to another store.
    StoreNotMatch { to_store_id: u64, my_store_id: u64 },
    /// The command's term lags the current term by two or more; leadership
    /// may have changed, so the command is dropped.
    StaleCommand,
    /// The epoch fields the command carries differ from the region's; the
    /// attached regions (when requested) let the caller refresh its route
    /// cache.
    EpochNotMatch { region_id: u64, current_epoch: RegionEpoch, request_epoch: RegionEpoch, regions: Vec<Region> },
    /// The command required a region epoch but its header carries none.
    MissingEpoch,
    /// The command names a peer other than the one expected here.
    PeerIdMismatch { request_peer_id: u64, expected_peer_id: u64 },
}

} // verus!
