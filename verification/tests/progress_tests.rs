use raftstore_core::progress::RegionReadProgress;

#[test]
fn test_region_read_progress() {
    // Return the number of the pending (index, ts) item
    fn pending_items_num(rrp: &RegionReadProgress) -> usize {
        rrp.pending_len()
    }

    let cap = 10;
    let mut rrp = RegionReadProgress::new(10, cap);
    for i in 1..=20 {
        rrp.update_safe_ts(i, i);
    }
    // `safe_ts` update according to its `applied_index`
    assert_eq!(rrp.safe_ts(), 10);
    assert_eq!(pending_items_num(&rrp), 10);

    rrp.update_applied(20);
    assert_eq!(rrp.safe_ts(), 20);
    assert_eq!(pending_items_num(&rrp), 0);

    for i in 100..200 {
        rrp.update_safe_ts(i, i);
    }
    assert_eq!(rrp.safe_ts(), 20);
    // the number of pending item should not exceed `cap`
    assert!(pending_items_num(&rrp) <= cap);

    // `applied_index` large than all pending items will clear all pending items
    rrp.update_applied(200);
    assert_eq!(rrp.safe_ts(), 199);
    assert_eq!(pending_items_num(&rrp), 0);

    // pending item can be updated instead of adding a new one
    rrp.update_safe_ts(300, 300);
    assert_eq!(pending_items_num(&rrp), 1);
    rrp.update_safe_ts(200, 400);
    assert_eq!(pending_items_num(&rrp), 1);
    rrp.update_safe_ts(300, 500);
    assert_eq!(pending_items_num(&rrp), 1);
    rrp.update_safe_ts(301, 600);
    assert_eq!(pending_items_num(&rrp), 2);
    // `safe_ts` will update to 500 instead of 300
    rrp.update_applied(300);
    assert_eq!(rrp.safe_ts(), 500);
    rrp.update_applied(301);
    assert_eq!(rrp.safe_ts(), 600);
    assert_eq!(pending_items_num(&rrp), 0);

    // stale item will be ignored
    rrp.update_safe_ts(300, 500);
    rrp.update_safe_ts(301, 600);
    rrp.update_safe_ts(400, 0);
    rrp.update_safe_ts(0, 700);
    assert_eq!(pending_items_num(&rrp), 0);
}

#[test]
fn safe_ts_pipeline() {
    // Capacity 10, applied 10; twenty observations, ten of them pending.
    let mut rrp = RegionReadProgress::new(10, 10);
    for i in 1..=20 {
        rrp.update_safe_ts(i, i);
    }
    assert_eq!(rrp.safe_ts(), 10);
    assert_eq!(rrp.pending_len(), 10);
    rrp.update_applied(20);
    assert_eq!(rrp.safe_ts(), 20);
    assert_eq!(rrp.pending_len(), 0);
    for i in 100..=199 {
        rrp.update_safe_ts(i, i);
    }
    assert!(rrp.pending_len() <= 10);
    rrp.update_applied(200);
    assert_eq!(rrp.safe_ts(), 199);
}

#[test]
fn safe_ts_never_decreases() {
    let mut rrp = RegionReadProgress::new(5, 4);
    let mut last = rrp.safe_ts();
    let steps: Vec<(bool, u64, u64)> = vec![
        (false, 3, 30),
        (false, 9, 10),
        (false, 8, 50),
        (true, 8, 0),
        (false, 2, 5),
        (false, 12, 60),
        (true, 12, 0),
        (false, 1, 1),
        (true, 20, 0),
    ];
    for (is_apply, a, b) in steps {
        if is_apply {
            rrp.update_applied(a);
        } else {
            rrp.update_safe_ts(a, b);
        }
        let now = rrp.safe_ts();
        assert!(now >= last, "safe_ts went backward: {} < {}", now, last);
        last = now;
    }
}

#[test]
fn observation_order_commutes_on_fresh() {
    // Two observations on a fresh progress object give the same safe_ts in
    // either order, whatever side of the applied index they fall on.
    let cases: Vec<(u64, u64, u64, u64)> =
        vec![(3, 30, 4, 40), (4, 40, 3, 30), (3, 30, 20, 99), (20, 99, 15, 80), (15, 80, 20, 99)];
    for (i1, t1, i2, t2) in cases {
        let mut a = RegionReadProgress::new(10, 8);
        a.update_safe_ts(i1, t1);
        a.update_safe_ts(i2, t2);
        let mut b = RegionReadProgress::new(10, 8);
        b.update_safe_ts(i2, t2);
        b.update_safe_ts(i1, t1);
        assert_eq!(a.safe_ts(), b.safe_ts(), "case ({},{}) ({},{})", i1, t1, i2, t2);
    }
}

#[test]
fn clear_resets_everything() {
    let mut rrp = RegionReadProgress::new(10, 10);
    rrp.update_safe_ts(5, 50);
    rrp.update_safe_ts(20, 70);
    assert_eq!(rrp.safe_ts(), 50);
    assert_eq!(rrp.pending_len(), 1);
    assert_eq!(rrp.read_state().ts, 70);
    rrp.clear();
    assert_eq!(rrp.safe_ts(), 0);
    assert_eq!(rrp.pending_len(), 0);
    let rs = rrp.read_state();
    assert_eq!((rs.idx, rs.ts), (0, 0));
}

#[test]
fn read_state_prefers_pending_tail() {
    let mut rrp = RegionReadProgress::new(10, 10);
    rrp.update_safe_ts(5, 50);
    assert_eq!(rrp.read_state().idx, 5);
    rrp.update_safe_ts(30, 90);
    let rs = rrp.read_state();
    assert_eq!((rs.idx, rs.ts), (30, 90));
}

#[test]
fn bounded_pending_small_capacity() {
    // With capacity two, the queue never exceeds two, however many
    // observations outrun the apply index.
    let mut rrp = RegionReadProgress::new(0, 2);
    for i in 1..50 {
        rrp.update_safe_ts(i, i);
        assert!(rrp.pending_len() <= 2, "at {}: {}", i, rrp.pending_len());
    }
}
