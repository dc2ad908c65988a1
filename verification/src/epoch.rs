//! The admin-command epoch policy and the per-request validation gate.
//!
//! Every admin command type declares which epoch components a request header
//! must match and which ones applying the command will change. The table is a
//! correctness invariant: changing an entry breaks upgrade compatibility and
//! the downstream command-epoch bookkeeping, so the policy is fixed here and
//! pinned by the contracts.

use vstd::prelude::*;

use crate::errors::Error;
use crate::region::{Peer, Region, RegionEpoch};

verus! {

/// The admin command types a replicated command can carry.
#[derive(Clone, Copy, PartialEq, Eq, Structural, Debug)]
pub enum AdminCmdType {
    InvalidAdmin,
    ChangePeer,
    Split,
    CompactLog,
    TransferLeader,
    ComputeHash,
    VerifyHash,
    PrepareMerge,
    CommitMerge,
    RollbackMerge,
    BatchSplit,
    ChangePeerV2,
}

/// Which epoch components an admin command checks against the region, and
/// which ones applying it changes.
#[derive(Clone, Copy, PartialEq, Eq, Structural, Debug)]
pub struct AdminCmdEpochState {
    pub check_ver: bool,
    pub check_conf_ver: bool,
    pub change_ver: bool,
    pub change_conf_ver: bool,
}

impl AdminCmdEpochState {
    fn new(check_ver: bool, check_conf_ver: bool, change_ver: bool, change_conf_ver: bool) -> (r:
        AdminCmdEpochState)
        ensures
            r == (AdminCmdEpochState { check_ver, check_conf_ver, change_ver, change_conf_ver }),
    {
        AdminCmdEpochState { check_ver, check_conf_ver, change_ver, change_conf_ver }
    }
}

/// The fixed epoch policy, one entry per admin command type: membership
/// changes check and change `conf_ver`; splits, merges and rollbacks check
/// both components and change `version`; `PrepareMerge` changes both;
/// leadership transfer checks both and changes neither; log compaction and
/// hash bookkeeping neither check nor change.
pub open spec fn spec_admin_cmd_epoch(ty: AdminCmdType) -> AdminCmdEpochState {
    match ty {
        AdminCmdType::InvalidAdmin => AdminCmdEpochState {
            check_ver: false,
            check_conf_ver: false,
            change_ver: false,
            change_conf_ver: false,
        },
        AdminCmdType::CompactLog => AdminCmdEpochState {
            check_ver: false,
            check_conf_ver: false,
            change_ver: false,
            change_conf_ver: false,
        },
        AdminCmdType::ComputeHash => AdminCmdEpochState {
            check_ver: false,
            check_conf_ver: false,
            change_ver: false,
            change_conf_ver: false,
        },
        AdminCmdType::VerifyHash => AdminCmdEpochState {
            check_ver: false,
            check_conf_ver: false,
            change_ver: false,
            change_conf_ver: false,
        },
        AdminCmdType::ChangePeer => AdminCmdEpochState {
            check_ver: false,
            check_conf_ver: true,
            change_ver: false,
            change_conf_ver: true,
        },
        AdminCmdType::ChangePeerV2 => AdminCmdEpochState {
            check_ver: false,
            check_conf_ver: true,
            change_ver: false,
            change_conf_ver: true,
        },
        AdminCmdType::Split => AdminCmdEpochState {
            check_ver: true,
            check_conf_ver: true,
            change_ver: true,
            change_conf_ver: false,
        },
        AdminCmdType::BatchSplit => AdminCmdEpochState {
            check_ver: true,
            check_conf_ver: true,
            change_ver: true,
            change_conf_ver: false,
        },
        AdminCmdType::PrepareMerge => AdminCmdEpochState {
            check_ver: true,
            check_conf_ver: true,
            change_ver: true,
            change_conf_ver: true,
        },
        AdminCmdType::CommitMerge => AdminCmdEpochState {
            check_ver: true,
            check_conf_ver: true,
            change_ver: true,
            change_conf_ver: false,
        },
        AdminCmdType::RollbackMerge => AdminCmdEpochState {
            check_ver: true,
            check_conf_ver: true,
            change_ver: true,
            change_conf_ver: false,
        },
        AdminCmdType::TransferLeader => AdminCmdEpochState {
            check_ver: true,
            check_conf_ver: true,
            change_ver: false,
            change_conf_ver: false,
        },
    }
}

/// Looks up the fixed epoch policy of an admin command type.
///
/// The existing entries must never be changed: a different policy breaks
/// upgrade compatibility and the downstream command-epoch bookkeeping. A new
/// behavior takes a new command type instead.
pub fn admin_cmd_epoch_lookup(admin_cmd_type: AdminCmdType) -> (r: AdminCmdEpochState)
    ensures
        r == spec_admin_cmd_epoch(admin_cmd_type),
{
    match admin_cmd_type {
        AdminCmdType::InvalidAdmin => AdminCmdEpochState::new(false, false, false, false),
        AdminCmdType::CompactLog => AdminCmdEpochState::new(false, false, false, false),
        AdminCmdType::ComputeHash => AdminCmdEpochState::new(false, false, false, false),
        AdminCmdType::VerifyHash => AdminCmdEpochState::new(false, false, false, false),
        AdminCmdType::ChangePeer => AdminCmdEpochState::new(false, true, false, true),
        AdminCmdType::ChangePeerV2 => AdminCmdEpochState::new(false, true, false, true),
        AdminCmdType::Split => AdminCmdEpochState::new(true, true, true, false),
        AdminCmdType::BatchSplit => AdminCmdEpochState::new(true, true, true, false),
        AdminCmdType::PrepareMerge => AdminCmdEpochState::new(true, true, true, true),
        AdminCmdType::CommitMerge => AdminCmdEpochState::new(true, true, true, false),
        AdminCmdType::RollbackMerge => AdminCmdEpochState::new(true, true, true, false),
        AdminCmdType::TransferLeader => AdminCmdEpochState::new(true, true, false, false),
    }
}

/// A non-admin (data) request checks `version` only. These two values must
/// never be changed, for the same reason as the admin table.
pub const NORMAL_REQ_CHECK_VER: bool = true;

/// See `NORMAL_REQ_CHECK_VER`.
pub const NORMAL_REQ_CHECK_CONF_VER: bool = false;

/// The header of a replicated command: the peer it is addressed to, the
/// sender's term, and the region epoch the sender routed by, if any.
#[derive(Clone, Copy, PartialEq, Eq, Structural, Debug)]
pub struct RequestHeader {
    pub peer: Peer,
    pub term: u64,
    pub region_epoch: Option<RegionEpoch>,
}

/// What request validation reads of a replicated command: its header, and the
/// admin command type when the command carries an admin request.
#[derive(Clone, Copy, PartialEq, Eq, Structural, Debug)]
pub struct RaftCmdRequest {
    pub header: RequestHeader,
    pub admin_cmd_type: Option<AdminCmdType>,
}

/// The epoch components this request must match against the region's.
pub open spec fn spec_request_check_flags(req: RaftCmdRequest) -> (bool, bool) {
    match req.admin_cmd_type {
        Some(ty) => (spec_admin_cmd_epoch(ty).check_ver, spec_admin_cmd_epoch(ty).check_conf_ver),
        None => (NORMAL_REQ_CHECK_VER, NORMAL_REQ_CHECK_CONF_VER),
    }
}

/// The request epoch differs from the current one in a checked component.
pub open spec fn spec_epoch_mismatch(
    from_epoch: RegionEpoch,
    current_epoch: RegionEpoch,
    check_conf_ver: bool,
    check_ver: bool,
) -> bool {
    ||| (check_conf_ver && from_epoch.conf_ver != current_epoch.conf_ver)
    ||| (check_ver && from_epoch.version != current_epoch.version)
}

/// Compares a request's epoch against the region's, strictly: each checked
/// component must be equal. Strict equality (not mere staleness) is
/// deliberate: after a merge, a route cache can hold an epoch ahead of a
/// laggard replica's, and that replica must also reject so the client is
/// redirected instead of reading a snapshot that predates the merge. On
/// mismatch, `include_region` attaches the current descriptor to the error so
/// the caller can refresh its route cache.
pub fn compare_region_epoch(
    from_epoch: &RegionEpoch,
    region: &Region,
    check_conf_ver: bool,
    check_ver: bool,
    include_region: bool,
) -> (r: Result<(), Error>)
    ensures
        r is Ok <==> !spec_epoch_mismatch(
            *from_epoch,
            region@.region_epoch,
            check_conf_ver,
            check_ver,
        ),
        r matches Err(e) ==> {
            &&& e matches Error::EpochNotMatch { region_id, current_epoch, request_epoch, regions }
            &&& region_id == region@.id
            &&& current_epoch == region@.region_epoch
            &&& request_epoch == *from_epoch
            &&& (include_region ==> regions@.len() == 1 && regions@[0]@ == region@)
            &&& (!include_region ==> regions@.len() == 0)
        },
{
    let current_epoch = region.region_epoch;
    if (check_conf_ver && from_epoch.conf_ver != current_epoch.conf_ver) || (check_ver
        && from_epoch.version != current_epoch.version) {
        let mut regions: Vec<Region> = Vec::new();
        if include_region {
            regions.push(region.clone());
        }
        Err(
            Error::EpochNotMatch {
                region_id: region.id,
                current_epoch,
                request_epoch: *from_epoch,
                regions,
            },
        )
    } else {
        Ok(())
    }
}

/// Validates a request's epoch against the region under the fixed policy:
/// a data request checks `version` only; an admin request checks what its
/// policy entry says; when the policy checks nothing the header may omit the
/// epoch, otherwise a missing epoch is an error of its own.
pub fn check_region_epoch(req: &RaftCmdRequest, region: &Region, include_region: bool) -> (r:
    Result<(), Error>)
    ensures
        ({
            let (check_ver, check_conf_ver) = spec_request_check_flags(*req);
            &&& (!check_ver && !check_conf_ver ==> r is Ok)
            &&& ((check_ver || check_conf_ver) && req.header.region_epoch is None ==> (r
                matches Err(e) && e is MissingEpoch))
            &&& ((check_ver || check_conf_ver) ==> (req.header.region_epoch matches Some(from_epoch)
                ==> {
                &&& r is Ok <==> !spec_epoch_mismatch(
                    from_epoch,
                    region@.region_epoch,
                    check_conf_ver,
                    check_ver,
                )
                &&& r matches Err(e) ==> {
                    &&& e matches Error::EpochNotMatch {
                        region_id,
                        current_epoch,
                        request_epoch,
                        regions,
                    }
                    &&& region_id == region@.id
                    &&& current_epoch == region@.region_epoch
                    &&& request_epoch == from_epoch
                    &&& (include_region ==> regions@.len() == 1 && regions@[0]@ == region@)
                    &&& (!include_region ==> regions@.len() == 0)
                }
            }))
        }),
{
    let (check_ver, check_conf_ver) = match req.admin_cmd_type {
        None => (NORMAL_REQ_CHECK_VER, NORMAL_REQ_CHECK_CONF_VER),
        Some(ty) => {
            let epoch_state = admin_cmd_epoch_lookup(ty);
            (epoch_state.check_ver, epoch_state.check_conf_ver)
        },
    };
    if !check_ver && !check_conf_ver {
        return Ok(());
    }
    match req.header.region_epoch {
        None => Err(Error::MissingEpoch),
        Some(from_epoch) => compare_region_epoch(
            &from_epoch,
            region,
            check_conf_ver,
            check_ver,
            include_region,
        ),
    }
}

/// Checks that the command is addressed to this store.
pub fn check_store_id(req: &RaftCmdRequest, store_id: u64) -> (r: Result<(), Error>)
    ensures
        r is Ok <==> req.header.peer.store_id == store_id,
        r matches Err(e) ==> e == (Error::StoreNotMatch {
            to_store_id: req.header.peer.store_id,
            my_store_id: store_id,
        }),
{
    let peer = req.header.peer;
    if peer.store_id == store_id {
        Ok(())
    } else {
        Err(Error::StoreNotMatch { to_store_id: peer.store_id, my_store_id: store_id })
    }
}

/// Checks the command's term: a zero header term always passes; otherwise the
/// current term may exceed the header's by at most one. A command two or more
/// terms behind is stale — leadership may have changed away and the command
/// could double-apply under a new leader.
pub fn check_term(req: &RaftCmdRequest, term: u64) -> (r: Result<(), Error>)
    ensures
        r is Ok <==> (req.header.term == 0 || term <= req.header.term + 1),
        r matches Err(e) ==> e is StaleCommand,
{
    let header_term = req.header.term;
    if header_term == 0 || term <= header_term || term - header_term == 1 {
        Ok(())
    } else {
        Err(Error::StaleCommand)
    }
}

/// Checks that the command names the peer expected here.
pub fn check_peer_id(req: &RaftCmdRequest, peer_id: u64) -> (r: Result<(), Error>)
    ensures
        r is Ok <==> req.header.peer.id == peer_id,
        r matches Err(e) ==> e == (Error::PeerIdMismatch {
            request_peer_id: req.header.peer.id,
            expected_peer_id: peer_id,
        }),
{
    if req.header.peer.id == peer_id {
        Ok(())
    } else {
        Err(Error::PeerIdMismatch { request_peer_id: req.header.peer.id, expected_peer_id: peer_id })
    }
}

} // verus!
