//! Configuration-change descriptors: the unified view of legacy single-peer
//! changes and joint-consensus (V2) changes, the classification of change
//! counts, and the conf state a region's peer list denotes.

use vstd::prelude::*;

use crate::region::{Peer, PeerRole, Region};

verus! {

/// The kind of a single peer change.
#[derive(Clone, Copy, PartialEq, Eq, Structural, Debug)]
pub enum ConfChangeType {
    AddNode,
    RemoveNode,
    AddLearnerNode,
}

/// The display name of a change type.
pub fn conf_change_type_str(conf_type: ConfChangeType) -> (r: &'static str)
    ensures
        conf_type == ConfChangeType::AddNode ==> r@ == "AddNode"@,
        conf_type == ConfChangeType::RemoveNode ==> r@ == "RemoveNode"@,
        conf_type == ConfChangeType::AddLearnerNode ==> r@ == "AddLearner"@,
{
    match conf_type {
        ConfChangeType::AddNode => "AddNode",
        ConfChangeType::RemoveNode => "RemoveNode",
        ConfChangeType::AddLearnerNode => "AddLearner",
    }
}

/// What a count of simultaneous peer changes means for the Raft group's
/// configuration.
#[derive(Clone, Copy, PartialEq, Eq, Structural, Debug)]
pub enum ConfChangeKind {
    /// One configuration change.
    Simple,
    /// Two or more changes at once: the group enters the joint state.
    EnterJoint,
    /// No change listed: the group leaves the joint state.
    LeaveJoint,
}

impl ConfChangeKind {
    /// Classifies a change count: none leaves the joint state, one is a
    /// simple change, more enter the joint state.
    pub fn confchange_kind(change_num: usize) -> (r: ConfChangeKind)
        ensures
            change_num == 0 ==> r == ConfChangeKind::LeaveJoint,
            change_num == 1 ==> r == ConfChangeKind::Simple,
            change_num >= 2 ==> r == ConfChangeKind::EnterJoint,
    {
        if change_num == 0 {
            ConfChangeKind::LeaveJoint
        } else if change_num == 1 {
            ConfChangeKind::Simple
        } else {
            ConfChangeKind::EnterJoint
        }
    }
}

/// The over-quorum a caller uses to tolerate a half-failed outgoing
/// configuration during a joint-state transfer: one more than half, rounded
/// up.
pub fn integration_on_half_fail_quorum_fn(voters: usize) -> (r: usize)
    requires
        voters < usize::MAX - 1,
    ensures
        r == (voters + 1) / 2 + 1,
{
    (voters + 1) / 2 + 1
}

/// A single requested peer change.
#[derive(Clone, Copy, PartialEq, Eq, Structural, Debug)]
pub struct ChangePeerRequest {
    pub change_type: ConfChangeType,
    pub peer: Peer,
}

/// A joint-consensus change request: any number of peer changes at once.
#[derive(Debug)]
pub struct ChangePeerV2Request {
    pub changes: Vec<ChangePeerRequest>,
}

/// A legacy single-change wire descriptor.
#[derive(Debug)]
pub struct ConfChange {
    pub change_type: ConfChangeType,
    pub node_id: u64,
    pub context: Vec<u8>,
}

/// How a V2 change moves through the joint state.
#[derive(Clone, Copy, PartialEq, Eq, Structural, Debug)]
pub enum ConfChangeTransition {
    /// Let the group decide: a simple change or leaving the joint state.
    Auto,
    /// Enter the joint state and leave it automatically.
    Implicit,
    /// Enter the joint state and wait for an explicit leave.
    Explicit,
}

/// One change inside a V2 wire descriptor.
#[derive(Clone, Copy, PartialEq, Eq, Structural, Debug)]
pub struct ConfChangeSingle {
    pub change_type: ConfChangeType,
    pub node_id: u64,
}

/// A joint-consensus (V2) wire descriptor.
#[derive(Debug)]
pub struct ConfChangeV2 {
    pub transition: ConfChangeTransition,
    pub changes: Vec<ConfChangeSingle>,
    pub context: Vec<u8>,
}

impl ChangePeerRequest {
    /// The individual peer changes this request stands for: itself alone.
    pub fn get_change_peers(&self) -> (r: Vec<ChangePeerRequest>)
        ensures
            r@.len() == 1,
            r@[0] == *self,
    {
        let mut v: Vec<ChangePeerRequest> = Vec::new();
        v.push(*self);
        v
    }

    /// The normalized wire descriptor of this single change.
    pub fn to_confchange(&self, ctx: Vec<u8>) -> (r: ConfChange)
        ensures
            r.change_type == self.change_type,
            r.node_id == self.peer.id,
            r.context == ctx,
    {
        ConfChange { change_type: self.change_type, node_id: self.peer.id, context: ctx }
    }
}

impl ChangePeerV2Request {
    /// The individual peer changes this request stands for.
    pub fn get_change_peers(&self) -> (r: &[ChangePeerRequest])
        ensures
            r@ == self.changes@,
    {
        self.changes.as_slice()
    }

    /// The normalized wire descriptor: each change keeps its type and names
    /// its peer; at most one change is an automatic transition (a simple
    /// change or leaving the joint state), more enter the joint state
    /// explicitly.
    pub fn to_confchange(&self, ctx: Vec<u8>) -> (r: ConfChangeV2)
        ensures
            r.changes@.len() == self.changes@.len(),
            forall|i: int|
                0 <= i < r.changes@.len() ==> r.changes@[i] == (ConfChangeSingle {
                    change_type: self.changes@[i].change_type,
                    node_id: self.changes@[i].peer.id,
                }),
            r.transition == (if self.changes@.len() <= 1 {
                ConfChangeTransition::Auto
            } else {
                ConfChangeTransition::Explicit
            }),
            r.context == ctx,
    {
        let n = self.changes.len();
        let mut changes: Vec<ConfChangeSingle> = Vec::new();
        let mut i: usize = 0;
        while i < n
            invariant
                0 <= i <= n,
                n == self.changes@.len(),
                changes@.len() == i,
                forall|k: int|
                    0 <= k < i ==> changes@[k] == (ConfChangeSingle {
                        change_type: self.changes@[k].change_type,
                        node_id: self.changes@[k].peer.id,
                    }),
            decreases n - i,
        {
            let c = &self.changes[i];
            changes.push(ConfChangeSingle { change_type: c.change_type, node_id: c.peer.id });
            i = i + 1;
        }
        let transition = if changes.len() <= 1 {
            ConfChangeTransition::Auto
        } else {
            ConfChangeTransition::Explicit
        };
        ConfChangeV2 { transition, changes, context: ctx }
    }
}

/// A Raft group's configuration: incoming and outgoing voters, learners, and
/// the demoted voters that become learners on leaving the joint state.
#[derive(Debug)]
pub struct ConfState {
    pub voters: Vec<u64>,
    pub learners: Vec<u64>,
    pub voters_outgoing: Vec<u64>,
    pub learners_next: Vec<u64>,
}

/// Some peer is mid-change: an incoming or a demoting voter.
pub open spec fn spec_in_joint(peers: Seq<Peer>) -> bool {
    exists|i: int|
        0 <= i < peers.len() && (peers[i].role == PeerRole::IncomingVoter || peers[i].role
            == PeerRole::DemotingVoter)
}

/// The ids of the configuration's incoming voters, in peer order.
pub open spec fn voters_of(peers: Seq<Peer>) -> Seq<u64>
    decreases peers.len(),
{
    if peers.len() == 0 {
        Seq::empty()
    } else {
        let rest = voters_of(peers.drop_last());
        let p = peers.last();
        if p.role == PeerRole::Voter || p.role == PeerRole::IncomingVoter {
            rest.push(p.id)
        } else {
            rest
        }
    }
}

/// The ids of the configuration's outgoing voters, in peer order.
pub open spec fn outgoing_of(peers: Seq<Peer>) -> Seq<u64>
    decreases peers.len(),
{
    if peers.len() == 0 {
        Seq::empty()
    } else {
        let rest = outgoing_of(peers.drop_last());
        let p = peers.last();
        if p.role == PeerRole::Voter || p.role == PeerRole::DemotingVoter {
            rest.push(p.id)
        } else {
            rest
        }
    }
}

/// The ids of the configuration's learners, in peer order.
pub open spec fn learners_of(peers: Seq<Peer>) -> Seq<u64>
    decreases peers.len(),
{
    if peers.len() == 0 {
        Seq::empty()
    } else {
        let rest = learners_of(peers.drop_last());
        let p = peers.last();
        if p.role == PeerRole::Learner {
            rest.push(p.id)
        } else {
            rest
        }
    }
}

/// The ids of the demoting voters that become learners on leaving the joint
/// state, in peer order.
pub open spec fn learners_next_of(peers: Seq<Peer>) -> Seq<u64>
    decreases peers.len(),
{
    if peers.len() == 0 {
        Seq::empty()
    } else {
        let rest = learners_next_of(peers.drop_last());
        let p = peers.last();
        if p.role == PeerRole::DemotingVoter {
            rest.push(p.id)
        } else {
            rest
        }
    }
}

/// The conf state a region's peers denote: voters and incoming voters vote;
/// voters and demoting voters belong to the outgoing configuration; learners
/// learn; demoting voters become learners next. Outside a joint state the
/// outgoing list is empty.
pub fn conf_state_from_region(region: &Region) -> (r: ConfState)
    ensures
        r.voters@ == voters_of(region@.peers),
        r.learners@ == learners_of(region@.peers),
        r.learners_next@ == learners_next_of(region@.peers),
        spec_in_joint(region@.peers) ==> r.voters_outgoing@ == outgoing_of(region@.peers),
        !spec_in_joint(region@.peers) ==> r.voters_outgoing@.len() == 0,
{
    let mut voters: Vec<u64> = Vec::new();
    let mut learners: Vec<u64> = Vec::new();
    let mut voters_outgoing: Vec<u64> = Vec::new();
    let mut learners_next: Vec<u64> = Vec::new();
    let mut in_joint: bool = false;
    let n = region.peers.len();
    let mut i: usize = 0;
    while i < n
        invariant
            0 <= i <= n,
            n == region.peers@.len(),
            voters@ == voters_of(region.peers@.take(i as int)),
            learners@ == learners_of(region.peers@.take(i as int)),
            voters_outgoing@ == outgoing_of(region.peers@.take(i as int)),
            learners_next@ == learners_next_of(region.peers@.take(i as int)),
            in_joint == spec_in_joint(region.peers@.take(i as int)),
        decreases n - i,
    {
        let p = &region.peers[i];
        proof {
            assert(region.peers@.take(i + 1).drop_last() =~= region.peers@.take(i as int));
            assert(region.peers@.take(i + 1).last() == region.peers@[i as int]);
        }
        match p.role {
            PeerRole::Voter => {
                voters.push(p.id);
                voters_outgoing.push(p.id);
            },
            PeerRole::Learner => {
                learners.push(p.id);
            },
            PeerRole::IncomingVoter => {
                in_joint = true;
                voters.push(p.id);
            },
            PeerRole::DemotingVoter => {
                in_joint = true;
                voters_outgoing.push(p.id);
                learners_next.push(p.id);
            },
        }
        proof {
            lemma_in_joint_extend(region.peers@, i as int);
        }
        i = i + 1;
    }
    proof {
        assert(region.peers@.take(n as int) =~= region.peers@);
    }
    if !in_joint {
        voters_outgoing.clear();
    }
    ConfState { voters, learners, voters_outgoing, learners_next }
}

/// Extending a prefix by one peer is in the joint state exactly when the
/// prefix was, or the new peer is mid-change.
proof fn lemma_in_joint_extend(peers: Seq<Peer>, i: int)
    requires
        0 <= i < peers.len(),
    ensures
        spec_in_joint(peers.take(i + 1)) == (spec_in_joint(peers.take(i)) || peers[i].role
            == PeerRole::IncomingVoter || peers[i].role == PeerRole::DemotingVoter),
{
    let a = peers.take(i);
    let b = peers.take(i + 1);
    if spec_in_joint(a) {
        let k = choose|k: int|
            0 <= k < a.len() && (a[k].role == PeerRole::IncomingVoter || a[k].role
                == PeerRole::DemotingVoter);
        assert(b[k] == a[k]);
        assert(spec_in_joint(b));
    }
    if peers[i].role == PeerRole::IncomingVoter || peers[i].role == PeerRole::DemotingVoter {
        assert(b[i] == peers[i]);
        assert(spec_in_joint(b));
    }
    if spec_in_joint(b) {
        let k = choose|k: int|
            0 <= k < b.len() && (b[k].role == PeerRole::IncomingVoter || b[k].role
                == PeerRole::DemotingVoter);
        if k < i {
            assert(a[k] == b[k]);
            assert(spec_in_joint(a));
        } else {
            assert(b[k] == peers[i]);
        }
    }
}

} // verus!
