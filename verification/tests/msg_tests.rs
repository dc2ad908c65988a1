use raftstore_core::msg::{
    is_first_append_entry, is_first_message, is_first_vote_msg, is_initial_msg, is_vote_msg, Entry,
    Message, MessageType, INVALID_INDEX, RAFT_INIT_LOG_INDEX, RAFT_INIT_LOG_TERM,
};

fn make_msg(msg_type: MessageType, term: u64, commit: u64, entries: Vec<Entry>) -> Message {
    Message { msg_type, term, commit, entries }
}

#[test]
fn test_first_vote_msg() {
    let tbl = vec![
        (MessageType::MsgRequestVote, RAFT_INIT_LOG_TERM + 1, true),
        (MessageType::MsgRequestPreVote, RAFT_INIT_LOG_TERM + 1, true),
        (MessageType::MsgRequestVote, RAFT_INIT_LOG_TERM, false),
        (MessageType::MsgRequestPreVote, RAFT_INIT_LOG_TERM, false),
        (MessageType::MsgHup, RAFT_INIT_LOG_TERM + 1, false),
    ];

    for (msg_type, term, is_vote) in tbl {
        let msg = make_msg(msg_type, term, 0, Vec::new());
        assert_eq!(is_first_vote_msg(&msg), is_vote);
    }
}

#[test]
fn test_first_append_entry() {
    let tbl = vec![
        (MessageType::MsgAppend, RAFT_INIT_LOG_INDEX + 1, true),
        (MessageType::MsgAppend, RAFT_INIT_LOG_INDEX, false),
        (MessageType::MsgHup, RAFT_INIT_LOG_INDEX + 1, false),
    ];

    for (msg_type, index, is_append) in tbl {
        let ent = Entry { index, data: Vec::new() };
        let msg = make_msg(msg_type, 0, 0, vec![ent]);
        assert_eq!(is_first_append_entry(&msg), is_append);
    }
}

#[test]
fn first_append_needs_one_empty_entry() {
    // A payload, or a second entry, disqualifies the append.
    let with_data = make_msg(
        MessageType::MsgAppend,
        0,
        0,
        vec![Entry { index: RAFT_INIT_LOG_INDEX + 1, data: vec![1] }],
    );
    assert!(!is_first_append_entry(&with_data));
    let two = make_msg(
        MessageType::MsgAppend,
        0,
        0,
        vec![
            Entry { index: RAFT_INIT_LOG_INDEX + 1, data: Vec::new() },
            Entry { index: RAFT_INIT_LOG_INDEX + 2, data: Vec::new() },
        ],
    );
    assert!(!is_first_append_entry(&two));
    let ok = make_msg(
        MessageType::MsgAppend,
        0,
        0,
        vec![Entry { index: RAFT_INIT_LOG_INDEX + 1, data: Vec::new() }],
    );
    assert!(is_first_message(&ok));
    assert!(!is_vote_msg(&ok));
}

#[test]
fn test_is_initial_msg() {
    let tbl = vec![
        (MessageType::MsgRequestVote, INVALID_INDEX, true),
        (MessageType::MsgRequestPreVote, INVALID_INDEX, true),
        (MessageType::MsgHeartbeat, INVALID_INDEX, true),
        (MessageType::MsgHeartbeat, 100, false),
        (MessageType::MsgAppend, 100, false),
    ];

    for (msg_type, commit, can_create) in tbl {
        let msg = make_msg(msg_type, 0, commit, Vec::new());
        assert_eq!(is_initial_msg(&msg), can_create);
    }
}
