use raftstore_core::lease::{Lease, LeaseState, RemoteLease};
use raftstore_core::monotime::{monotonic_now, time_add, Duration, TimeSpec};

fn ms(v: u64) -> Duration {
    Duration::milliseconds(v)
}

fn plus_ms(t: TimeSpec, v: u64) -> TimeSpec {
    time_add(&t, &ms(v))
}

#[test]
fn lease_life() {
    // Lease(max=1500ms), against explicit timestamps.
    let mut lease = Lease::new(ms(1500));
    let remote: RemoteLease = lease.maybe_new_remote_lease(1).unwrap();
    assert_eq!(remote.term(), 1);

    let t0 = TimeSpec { sec: 100, nsec: 0 };

    // Before any renewal the lease is expired, and so is the remote.
    assert_eq!(lease.inspect(Some(t0)), LeaseState::Expired);
    assert_eq!(remote.inspect(Some(t0)), LeaseState::Expired);

    // Renew at t0: valid until t0 + 1500ms.
    lease.renew(t0);
    assert_eq!(lease.inspect(Some(plus_ms(t0, 1000))), LeaseState::Valid);
    assert_eq!(remote.inspect(Some(plus_ms(t0, 1000))), LeaseState::Valid);
    assert_eq!(lease.inspect(Some(plus_ms(t0, 2000))), LeaseState::Expired);
    assert_eq!(remote.inspect(Some(plus_ms(t0, 2000))), LeaseState::Expired);

    // Suspect: every inspection reports suspicion, the remote is expired.
    lease.suspect(plus_ms(t0, 2000));
    assert_eq!(lease.inspect(Some(t0)), LeaseState::Suspect);
    assert_eq!(lease.inspect(Some(plus_ms(t0, 10_000))), LeaseState::Suspect);
    assert_eq!(remote.inspect(Some(t0)), LeaseState::Expired);

    // Expire: everything reports expired.
    lease.expire();
    assert_eq!(lease.inspect(Some(t0)), LeaseState::Expired);
    assert_eq!(remote.inspect(Some(t0)), LeaseState::Expired);

    // A remote obtained before expire reports expired thereafter forever:
    // renewing the lease does not revive the detached remote.
    lease.renew(plus_ms(t0, 60_000));
    assert_eq!(remote.inspect(Some(plus_ms(t0, 60_500))), LeaseState::Expired);

    // A new remote under the same term is valid again.
    let m1 = lease.maybe_new_remote_lease(1).unwrap();
    assert_eq!(m1.inspect(Some(plus_ms(t0, 60_500))), LeaseState::Valid);

    // At most one connected remote per term.
    assert!(lease.maybe_new_remote_lease(1).is_none());
}

#[test]
fn lease_against_the_clock() {
    // Renewed at the clock's now, the lease holds for now and expires a
    // minute ago, exercising the monotonic clock path of inspect(None).
    let mut lease = Lease::new(ms(1500));
    let now = monotonic_now();
    lease.renew(now);
    assert_eq!(lease.inspect(None), LeaseState::Valid);
    assert_eq!(lease.inspect(Some(plus_ms(now, 1499))), LeaseState::Valid);
    assert_eq!(lease.inspect(Some(plus_ms(now, 1500))), LeaseState::Expired);
}

#[test]
fn lease_renew_monotone_bound() {
    // The valid bound never goes backward, whatever send timestamps arrive.
    let mut lease = Lease::new(ms(1500));
    let t0 = TimeSpec { sec: 100, nsec: 0 };
    lease.renew(t0);
    // A renewal with an earlier send timestamp leaves the bound alone: the
    // old bound t0+1500ms still holds at t0+1200ms.
    lease.renew(TimeSpec { sec: 1, nsec: 0 });
    assert_eq!(lease.inspect(Some(plus_ms(t0, 1200))), LeaseState::Valid);
    // A later renewal advances it.
    lease.renew(plus_ms(t0, 1000));
    assert_eq!(lease.inspect(Some(plus_ms(t0, 2400))), LeaseState::Valid);
    assert_eq!(lease.inspect(Some(plus_ms(t0, 2500))), LeaseState::Expired);
}

#[test]
fn remote_lease_throttled_publication() {
    // The remote bound trails the lease bound by at most max_drift: a renewal
    // that advances the bound by less than max_drift is not published, one
    // past the threshold is.
    let mut lease = Lease::new(ms(3000));
    let t0 = TimeSpec { sec: 100, nsec: 0 };
    lease.renew(t0);
    let remote = lease.maybe_new_remote_lease(7).unwrap();
    assert_eq!(remote.term(), 7);
    assert_eq!(remote.inspect(Some(plus_ms(t0, 2999))), LeaseState::Valid);
    assert_eq!(remote.inspect(Some(plus_ms(t0, 3000))), LeaseState::Expired);
    // Advance by 500ms < max_drift (1000ms): remote unchanged.
    lease.renew(plus_ms(t0, 500));
    assert_eq!(remote.inspect(Some(plus_ms(t0, 3200))), LeaseState::Expired);
    // Advance past the drift: published.
    lease.renew(plus_ms(t0, 1500));
    assert_eq!(remote.inspect(Some(plus_ms(t0, 4400))), LeaseState::Valid);
}
