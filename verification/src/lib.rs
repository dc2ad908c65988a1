//! Core safety and coordination primitives of a sharded, Raft-replicated
//! key-value store's per-region state layer: region descriptors and
//! key-range predicates, the admin-command epoch policy, leader leases with
//! remote observation, and the safe-timestamp read progress pipeline.

pub mod cache;
pub mod config;
pub mod confchange;
pub mod epoch;
pub mod errors;
pub mod keys;
pub mod lease;
pub mod monotime;
pub mod msg;
pub mod progress;
pub mod region;

pub use cache::{Broacast, Getter, Observer, Receiver, VersionCache};
pub use config::Config;
pub use confchange::{
    conf_change_type_str, conf_state_from_region, integration_on_half_fail_quorum_fn,
    ChangePeerRequest, ChangePeerV2Request, ConfChange, ConfChangeKind, ConfChangeSingle,
    ConfChangeTransition, ConfChangeType, ConfChangeV2, ConfState,
};
pub use epoch::{
    admin_cmd_epoch_lookup, check_peer_id, check_region_epoch, check_store_id, check_term,
    compare_region_epoch, AdminCmdEpochState, AdminCmdType, RaftCmdRequest, RequestHeader,
    NORMAL_REQ_CHECK_CONF_VER, NORMAL_REQ_CHECK_VER,
};
pub use errors::Error;
pub use keys::{bytes_eq, bytes_lt, lex_lt};
pub use lease::{remote_lease_state, Lease, LeaseBound, LeaseState, RemoteLease};
pub use monotime::{
    monotonic_now, time_add, time_le, time_lt, timespec_to_u64, u64_to_timespec, Duration,
    TimeSpec, TIMESPEC_NSEC_MASK, TIMESPEC_NSEC_SHIFT, TIMESPEC_SEC_SHIFT,
};
pub use msg::{
    is_first_append_entry, is_first_message, is_first_vote_msg, is_initial_msg, is_vote_msg, Entry,
    Message, MessageType, INVALID_INDEX, RAFT_INIT_LOG_INDEX, RAFT_INIT_LOG_TERM,
};
pub use progress::{ProgressView, ReadState, RegionReadProgress};
pub use region::{
    build_key_range, check_key_in_region, check_key_in_region_exclusive,
    check_key_in_region_inclusive, find_peer, find_peer_position, is_epoch_stale, is_learner,
    is_region_initialized, is_sibling_regions, new_learner_peer, new_peer, region_on_same_stores,
    remove_peer, KeyRange, Peer, PeerRole, Region, RegionEpoch,
};
