use raftstore_core::confchange::{
    conf_change_type_str, conf_state_from_region, integration_on_half_fail_quorum_fn,
    ChangePeerRequest, ChangePeerV2Request, ConfChangeKind, ConfChangeTransition, ConfChangeType,
    ConfState,
};
use raftstore_core::region::{Peer, PeerRole, Region, RegionEpoch};

fn gen_region(voters: &[u64], learners: &[u64], incomming_v: &[u64], demoting_v: &[u64]) -> Region {
    let mut region = Region {
        id: 0,
        start_key: Vec::new(),
        end_key: Vec::new(),
        region_epoch: RegionEpoch { conf_ver: 0, version: 0 },
        peers: Vec::new(),
    };
    let mut push_peers = |ids: &[u64], role: PeerRole| {
        for id in ids {
            region.peers.push(Peer { id: *id, store_id: 0, role });
        }
    };
    push_peers(voters, PeerRole::Voter);
    push_peers(learners, PeerRole::Learner);
    push_peers(incomming_v, PeerRole::IncomingVoter);
    push_peers(demoting_v, PeerRole::DemotingVoter);
    region
}

#[test]
fn test_conf_state_from_region() {
    let cases = vec![
        (vec![1], vec![2], vec![], vec![]),
        (vec![], vec![], vec![1], vec![2]),
        (vec![1, 2], vec![], vec![], vec![]),
        (vec![1, 2], vec![], vec![3], vec![]),
        (vec![1], vec![2], vec![3, 4], vec![5, 6]),
    ];

    for (voter, learner, incomming, demoting) in cases {
        let region = gen_region(
            voter.as_slice(),
            learner.as_slice(),
            incomming.as_slice(),
            demoting.as_slice(),
        );
        let cs: ConfState = conf_state_from_region(&region);
        if incomming.is_empty() && demoting.is_empty() {
            // Not in joint
            assert!(cs.voters_outgoing.is_empty());
            assert!(cs.learners_next.is_empty());
            assert!(voter.iter().all(|id| cs.voters.contains(id)));
            assert!(learner.iter().all(|id| cs.learners.contains(id)));
        } else {
            // In joint
            assert!(
                voter.iter().all(|id| cs.voters.contains(id) && cs.voters_outgoing.contains(id))
            );
            assert!(learner.iter().all(|id| cs.learners.contains(id)));
            assert!(incomming.iter().all(|id| cs.voters.contains(id)));
            assert!(demoting
                .iter()
                .all(|id| cs.voters_outgoing.contains(id) && cs.learners_next.contains(id)));
        }
    }
}

fn default_change() -> ChangePeerRequest {
    ChangePeerRequest {
        change_type: ConfChangeType::AddNode,
        peer: Peer { id: 0, store_id: 0, role: PeerRole::Voter },
    }
}

#[test]
fn test_changepeer_v2_to_confchange() {
    let mut req = ChangePeerV2Request { changes: Vec::new() };

    // Zore change for leave joint
    assert_eq!(req.to_confchange(vec![]).transition, ConfChangeTransition::Auto);

    // One change for simple confchange
    req.changes.push(default_change());
    assert_eq!(req.to_confchange(vec![]).transition, ConfChangeTransition::Auto);

    // More than one change for enter joint
    req.changes.push(default_change());
    assert_eq!(req.to_confchange(vec![]).transition, ConfChangeTransition::Explicit);
    req.changes.push(default_change());
    assert_eq!(req.to_confchange(vec![]).transition, ConfChangeTransition::Explicit);
}

#[test]
fn single_change_to_confchange() {
    let cp = ChangePeerRequest {
        change_type: ConfChangeType::AddLearnerNode,
        peer: Peer { id: 9, store_id: 3, role: PeerRole::Learner },
    };
    let changes = cp.get_change_peers();
    assert_eq!(changes.len(), 1);
    assert_eq!(changes[0], cp);
    let cc = cp.to_confchange(vec![1, 2]);
    assert_eq!(cc.change_type, ConfChangeType::AddLearnerNode);
    assert_eq!(cc.node_id, 9);
    assert_eq!(cc.context, vec![1, 2]);
}

#[test]
fn v2_changes_keep_types_and_ids() {
    let req = ChangePeerV2Request {
        changes: vec![
            ChangePeerRequest {
                change_type: ConfChangeType::RemoveNode,
                peer: Peer { id: 4, store_id: 1, role: PeerRole::Voter },
            },
            ChangePeerRequest {
                change_type: ConfChangeType::AddNode,
                peer: Peer { id: 5, store_id: 2, role: PeerRole::Voter },
            },
        ],
    };
    assert_eq!(req.get_change_peers().len(), 2);
    let cc = req.to_confchange(vec![7]);
    assert_eq!(cc.changes.len(), 2);
    assert_eq!(cc.changes[0].change_type, ConfChangeType::RemoveNode);
    assert_eq!(cc.changes[0].node_id, 4);
    assert_eq!(cc.changes[1].change_type, ConfChangeType::AddNode);
    assert_eq!(cc.changes[1].node_id, 5);
    assert_eq!(cc.context, vec![7]);
}

#[test]
fn test_conf_change_type_str() {
    assert_eq!(conf_change_type_str(ConfChangeType::AddNode), "AddNode");
    assert_eq!(conf_change_type_str(ConfChangeType::RemoveNode), "RemoveNode");
}

#[test]
fn test_integration_on_half_fail_quorum_fn() {
    let voters = vec![1, 2, 3, 4, 5, 6, 7];
    let quorum = vec![2, 2, 3, 3, 4, 4, 5];
    for (voter_count, expected_quorum) in voters.into_iter().zip(quorum) {
        let quorum = integration_on_half_fail_quorum_fn(voter_count);
        assert_eq!(quorum, expected_quorum);
    }
}

#[test]
fn confchange_kind_classification() {
    assert_eq!(ConfChangeKind::confchange_kind(0), ConfChangeKind::LeaveJoint);
    assert_eq!(ConfChangeKind::confchange_kind(1), ConfChangeKind::Simple);
    assert_eq!(ConfChangeKind::confchange_kind(2), ConfChangeKind::EnterJoint);
    assert_eq!(ConfChangeKind::confchange_kind(3), ConfChangeKind::EnterJoint);
}
