use raftstore_core::errors::Error;
use raftstore_core::region::{
    check_key_in_region, check_key_in_region_exclusive, check_key_in_region_inclusive, find_peer,
    is_epoch_stale, is_learner, is_region_initialized, is_sibling_regions, new_learner_peer,
    new_peer, region_on_same_stores, remove_peer, Region, RegionEpoch,
};

fn make_region(start_key: &[u8], end_key: &[u8]) -> Region {
    Region {
        id: 0,
        start_key: start_key.to_vec(),
        end_key: end_key.to_vec(),
        region_epoch: RegionEpoch { conf_ver: 0, version: 0 },
        peers: Vec::new(),
    }
}

#[test]
fn test_check_key_in_region() {
    let test_cases = vec![
        ("", "", "", true, true, false),
        ("", "", "6", true, true, false),
        ("", "3", "6", false, false, false),
        ("4", "3", "6", true, true, true),
        ("4", "3", "", true, true, true),
        ("3", "3", "", true, true, false),
        ("2", "3", "6", false, false, false),
        ("", "3", "6", false, false, false),
        ("", "3", "", false, false, false),
        ("6", "3", "6", false, true, false),
    ];
    for (key, start_key, end_key, is_in_region, inclusive, exclusive) in test_cases {
        let region = make_region(start_key.as_bytes(), end_key.as_bytes());
        let mut result = check_key_in_region(key.as_bytes(), &region);
        assert_eq!(result.is_ok(), is_in_region);
        result = check_key_in_region_inclusive(key.as_bytes(), &region);
        assert_eq!(result.is_ok(), inclusive);
        result = check_key_in_region_exclusive(key.as_bytes(), &region);
        assert_eq!(result.is_ok(), exclusive);
    }
}

#[test]
fn key_not_in_region_error_payload() {
    let mut region = make_region(b"3", b"6");
    region.id = 42;
    let err = check_key_in_region(b"9", &region).unwrap_err();
    match err {
        Error::KeyNotInRegion(key, reg) => {
            assert_eq!(key, b"9".to_vec());
            assert_eq!(reg.id, 42);
            assert_eq!(reg.start_key, b"3".to_vec());
            assert_eq!(reg.end_key, b"6".to_vec());
        }
        other => panic!("expected KeyNotInRegion, got {:?}", other),
    }
}

#[test]
fn key_range_trichotomy_cases() {
    // Against [3, 6): every key falls in exactly one zone.
    let region = make_region(b"3", b"6");
    for key in [&b"1"[..], b"3", b"5", b"6", b"7"] {
        let below = key < &b"3"[..];
        let inside = check_key_in_region(key, &region).is_ok();
        let at_or_above_end = key >= &b"6"[..];
        assert_eq!(
            1,
            [below, inside, at_or_above_end].iter().filter(|b| **b).count(),
            "key {:?}",
            key
        );
    }
}

#[test]
fn test_peer() {
    let mut region = make_region(b"", b"");
    region.id = 1;
    region.peers.push(new_peer(1, 1));
    region.peers.push(new_learner_peer(2, 2));

    assert!(!is_learner(find_peer(&region, 1).unwrap()));
    assert!(is_learner(find_peer(&region, 2).unwrap()));

    assert!(remove_peer(&mut region, 1).is_some());
    assert!(remove_peer(&mut region, 1).is_none());
    assert!(find_peer(&region, 1).is_none());
}

#[test]
fn test_epoch_stale() {
    let epoch = RegionEpoch { conf_ver: 10, version: 10 };

    let tbl = vec![(11, 10, true), (10, 11, true), (10, 10, false), (10, 9, false)];

    for (version, conf_version, is_stale) in tbl {
        let check_epoch = RegionEpoch { conf_ver: conf_version, version };
        assert_eq!(is_epoch_stale(&epoch, &check_epoch), is_stale);
    }
}

#[test]
fn test_on_same_store() {
    let cases = vec![
        (vec![2, 3, 4], vec![], vec![1, 2, 3], vec![], false),
        (vec![2, 3, 1], vec![], vec![1, 2, 3], vec![], true),
        (vec![2, 3, 4], vec![], vec![1, 2], vec![], false),
        (vec![1, 2, 3], vec![], vec![1, 2, 3], vec![], true),
        (vec![1, 3], vec![2, 4], vec![1, 2], vec![3, 4], false),
        (vec![1, 3], vec![2, 4], vec![1, 3], vec![], false),
        (vec![1, 3], vec![2, 4], vec![], vec![2, 4], false),
        (vec![1, 3], vec![2, 4], vec![3, 1], vec![4, 2], true),
    ];

    for (s1, s2, s3, s4, exp) in cases {
        let mut r1 = make_region(b"", b"");
        for (store_id, peer_id) in s1.into_iter().zip(0..) {
            r1.peers.push(new_peer(store_id, peer_id));
        }
        for (store_id, peer_id) in s2.into_iter().zip(0..) {
            r1.peers.push(new_learner_peer(store_id, peer_id));
        }

        let mut r2 = make_region(b"", b"");
        for (store_id, peer_id) in s3.into_iter().zip(10..) {
            r2.peers.push(new_peer(store_id, peer_id));
        }
        for (store_id, peer_id) in s4.into_iter().zip(10..) {
            r2.peers.push(new_learner_peer(store_id, peer_id));
        }
        let res = region_on_same_stores(&r1, &r2);
        assert_eq!(res, exp, "{:?} vs {:?}", r1, r2);
    }
}

fn split(mut r: Region, key: &[u8]) -> (Region, Region) {
    let mut r2 = r.clone();
    r.end_key = key.to_owned();
    r2.id = r.id + 1;
    r2.start_key = key.to_owned();
    (r, r2)
}

fn check_sibling(r1: &Region, r2: &Region, is_sibling: bool) {
    assert_eq!(is_sibling_regions(r1, r2), is_sibling);
    assert_eq!(is_sibling_regions(r2, r1), is_sibling);
}

#[test]
fn test_region_sibling() {
    let r1 = make_region(b"", b"");
    check_sibling(&r1, &r1, false);

    let (r1, r2) = split(r1, b"k1");
    check_sibling(&r1, &r2, true);

    let (r2, r3) = split(r2, b"k2");
    check_sibling(&r2, &r3, true);

    let (r3, r4) = split(r3, b"k3");
    check_sibling(&r3, &r4, true);
    check_sibling(&r1, &r2, true);
    check_sibling(&r2, &r3, true);
    check_sibling(&r1, &r3, false);
    check_sibling(&r2, &r4, false);
    check_sibling(&r1, &r4, false);
}

#[test]
fn test_is_region_initialized() {
    let mut region = make_region(b"", b"");
    assert!(!is_region_initialized(&region));
    region.peers.push(new_peer(1, 2));
    assert!(is_region_initialized(&region));
}
