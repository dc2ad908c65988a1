//! Stateless classification of Raft message envelopes: the predicates a
//! store applies when a message arrives for a peer it does not know, to
//! decide whether to materialize the peer, hold the message, or discard it.

use vstd::prelude::*;

verus! {

/// The log index that stands for no index, as the Raft library defines it.
pub const INVALID_INDEX: u64 = 0;

/// The term a peer's log starts at after initialization from a snapshot.
pub const RAFT_INIT_LOG_TERM: u64 = 5;

/// The index a peer's log starts at after initialization from a snapshot.
pub const RAFT_INIT_LOG_INDEX: u64 = 5;

/// The type of a Raft message.
#[derive(Clone, Copy, PartialEq, Eq, Structural, Debug)]
pub enum MessageType {
    MsgHup,
    MsgBeat,
    MsgPropose,
    MsgAppend,
    MsgAppendResponse,
    MsgRequestVote,
    MsgRequestVoteResponse,
    MsgSnapshot,
    MsgHeartbeat,
    MsgHeartbeatResponse,
    MsgUnreachable,
    MsgSnapStatus,
    MsgCheckQuorum,
    MsgTransferLeader,
    MsgTimeoutNow,
    MsgReadIndex,
    MsgReadIndexResp,
    MsgRequestPreVote,
    MsgRequestPreVoteResponse,
}

/// One Raft log entry, as far as the classification reads it: its index and
/// its payload.
#[derive(Debug)]
pub struct Entry {
    pub index: u64,
    pub data: Vec<u8>,
}

/// A Raft message envelope, as far as the classification reads it.
#[derive(Debug)]
pub struct Message {
    pub msg_type: MessageType,
    pub term: u64,
    pub commit: u64,
    pub entries: Vec<Entry>,
}

/// The message is a vote or a pre-vote.
pub open spec fn spec_is_vote_msg(m: Message) -> bool {
    m.msg_type == MessageType::MsgRequestVote || m.msg_type == MessageType::MsgRequestPreVote
}

/// The message is the first vote or pre-vote of a freshly initialized peer:
/// its term is one past the initial log term.
pub open spec fn spec_is_first_vote_msg(m: Message) -> bool {
    spec_is_vote_msg(m) && m.term == RAFT_INIT_LOG_TERM + 1
}

/// The message is the first append a new split region's learner receives:
/// one empty entry at one past the initial log index.
pub open spec fn spec_is_first_append_entry(m: Message) -> bool {
    &&& m.msg_type == MessageType::MsgAppend
    &&& m.entries@.len() == 1
    &&& m.entries@[0].data@.len() == 0
    &&& m.entries@[0].index == RAFT_INIT_LOG_INDEX + 1
}

/// The message can initialize a new peer: a vote or pre-vote, or a heartbeat
/// that commits nothing.
pub open spec fn spec_is_initial_msg(m: Message) -> bool {
    ||| spec_is_vote_msg(m)
    ||| (m.msg_type == MessageType::MsgHeartbeat && m.commit == INVALID_INDEX)
}

/// True iff the message is the first vote or pre-vote of a freshly
/// initialized peer. Such a message reaches a store whose region table does
/// not know the peer yet; when the region would overlap others, the message
/// is held rather than the peer created.
pub fn is_first_vote_msg(msg: &Message) -> (r: bool)
    ensures
        r == spec_is_first_vote_msg(*msg),
{
    match msg.msg_type {
        MessageType::MsgRequestVote | MessageType::MsgRequestPreVote => msg.term
            == RAFT_INIT_LOG_TERM + 1,
        _ => false,
    }
}

/// True iff the message is the first append a new split region's learner
/// receives from the leader: exactly one entry, empty, at one past the
/// initial log index. Like the first vote, it is held when the peer cannot be
/// created yet.
pub fn is_first_append_entry(msg: &Message) -> (r: bool)
    ensures
        r == spec_is_first_append_entry(*msg),
{
    match msg.msg_type {
        MessageType::MsgAppend => {
            if msg.entries.len() == 1 {
                let ent = &msg.entries[0];
                ent.data.len() == 0 && ent.index == RAFT_INIT_LOG_INDEX + 1
            } else {
                false
            }
        },
        _ => false,
    }
}

/// True iff the message is a first message a not-yet-created peer can
/// receive: a first vote or a first append.
pub fn is_first_message(msg: &Message) -> (r: bool)
    ensures
        r == (spec_is_first_vote_msg(*msg) || spec_is_first_append_entry(*msg)),
{
    is_first_vote_msg(msg) || is_first_append_entry(msg)
}

/// True iff the message is a vote or a pre-vote.
pub fn is_vote_msg(msg: &Message) -> (r: bool)
    ensures
        r == spec_is_vote_msg(*msg),
{
    match msg.msg_type {
        MessageType::MsgRequestVote | MessageType::MsgRequestPreVote => true,
        _ => false,
    }
}

/// True iff the message can be used to initialize a new peer: a vote or
/// pre-vote, or a heartbeat that commits nothing. Vote and heartbeat
/// messages carry the region's key range, so the receiving store can decide
/// whether to create the peer or to wait for a pending split.
pub fn is_initial_msg(msg: &Message) -> (r: bool)
    ensures
        r == spec_is_initial_msg(*msg),
{
    match msg.msg_type {
        MessageType::MsgRequestVote | MessageType::MsgRequestPreVote => true,
        MessageType::MsgHeartbeat => msg.commit == INVALID_INDEX,
        _ => false,
    }
}

} // verus!
