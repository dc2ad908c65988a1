//! The leader lease state machine and its lock-free remote observation.
//!
//! A lease lets a leader answer reads locally for a bounded time after a
//! heartbeat round-trip has proved a majority saw it as leader. The lease
//! holds one of: no bound, a suspect bound (a leadership transfer is in
//! flight, local reads must fall back to the consensus path), or a valid
//! bound. Read threads observe the lease through a `RemoteLease`, a shared
//! atomic word holding the packed valid bound, `0` once expired; a suspect
//! lease is published to remotes as expired, since remotes cannot represent
//! suspicion.

use std::sync::atomic::{AtomicU64, Ordering};
use std::sync::Arc;
use vstd::prelude::*;

use crate::monotime::{
    monotonic_now, spec_unpack, time_add, time_le, time_lt, timespec_to_u64, u64_to_timespec,
    Duration, TimeSpec,
};

verus! {

/// What an inspection of a lease reports.
#[derive(Clone, Copy, PartialEq, Eq, Structural, Debug)]
pub enum LeaseState {
    /// The lease may be held or lost: a leadership transfer is in flight.
    Suspect,
    /// The lease is held.
    Valid,
    /// The lease is over, or was never set.
    Expired,
}

/// The lease's time bound, when one is set.
#[derive(Clone, Copy, PartialEq, Eq, Structural, Debug)]
pub enum LeaseBound {
    /// The bound set when a leadership transfer began.
    Suspect(TimeSpec),
    /// The bound up to which local reads are safe.
    Valid(TimeSpec),
}

impl LeaseBound {
    /// The bound's timestamp, whichever state carries it.
    pub open spec fn ts(self) -> TimeSpec {
        match self {
            LeaseBound::Suspect(t) => t,
            LeaseBound::Valid(t) => t,
        }
    }
}

/// Relies on Arc::clone: the returned handle shares the same atomic cell as
/// the argument.
#[verifier::external_body]
fn clone_cell(c: &Arc<AtomicU64>) -> Arc<AtomicU64> {
    Arc::clone(c)
}

/// Relies on AtomicU64::load with acquire ordering: reads the shared cell's
/// current value. Other threads store to the cell, so nothing is known of
/// the value.
#[verifier::external_body]
fn cell_load(c: &Arc<AtomicU64>) -> u64 {
    c.load(Ordering::Acquire)
}

/// Relies on AtomicU64::store with release ordering: publishes the value to
/// the shared cell.
#[verifier::external_body]
fn cell_store(c: &Arc<AtomicU64>, v: u64) {
    c.store(v, Ordering::Release)
}

/// The read-side view of a lease: the packed expiry bound in a shared atomic
/// word (`0` meaning expired), and the term the lease was issued under.
/// Derived only by a `Lease`; handed to read threads, hence remote. When the
/// lease expires, the owner expires every remote through the shared cell.
#[derive(Clone, Debug)]
pub struct RemoteLease {
    expired_time: Arc<AtomicU64>,
    term: u64,
}

/// The state a reader derives from a published packed bound: valid exactly
/// when `now` lies strictly before the unpacked bound. The packed word `0`
/// unpacks to the epoch, so it reads as expired.
pub fn remote_lease_state(now: &TimeSpec, packed_bound: u64) -> (r: LeaseState)
    ensures
        r == (if now.nanos() < spec_unpack(packed_bound).nanos() {
            LeaseState::Valid
        } else {
            LeaseState::Expired
        }),
{
    let bound = u64_to_timespec(packed_bound);
    let now_ns: u128 = (now.sec as u128) * 1000000000 + (now.nsec as u128);
    let bound_ns: u128 = (bound.sec as u128) * 1000000000 + (bound.nsec as u128);
    if now_ns < bound_ns {
        LeaseState::Valid
    } else {
        LeaseState::Expired
    }
}

impl RemoteLease {
    /// The term the lease was issued under.
    pub closed spec fn spec_term(self) -> u64 {
        self.term
    }

    /// Inspects the lease for the given time, or for now: one acquire-load
    /// of the shared bound, then `remote_lease_state`. A remote never reports
    /// `Suspect`; what it reports beyond that depends on what the owner last
    /// published to the shared cell.
    pub fn inspect(&self, ts: Option<TimeSpec>) -> (r: LeaseState)
        ensures
            r == LeaseState::Valid || r == LeaseState::Expired,
    {
        let expired_time = cell_load(&self.expired_time);
        let now = match ts {
            Some(t) => t,
            None => monotonic_now(),
        };
        remote_lease_state(&now, expired_time)
    }

    /// Publishes a new bound to every reader sharing this lease.
    fn renew(&self, bound: TimeSpec)
        requires
            bound.packable(),
    {
        cell_store(&self.expired_time, timespec_to_u64(bound));
    }

    /// Expires the lease for every reader sharing it.
    fn expire(&self) {
        cell_store(&self.expired_time, 0);
    }

    /// The term the lease was issued under.
    pub fn term(&self) -> (r: u64)
        ensures
            r == self.spec_term(),
    {
        self.term
    }
}

/// The leader-side lease: its bound, the configured maximum lease span, the
/// throttle for cross-thread publication, and the attached remote, if one
/// was handed out.
///
/// A lease granted at send time `t` is good until `t + max_lease`: the valid
/// span left at commit time is `max_lease - (commit_ts - send_ts)`, so the
/// expiry is `send_ts + max_lease` whatever the round-trip took.
#[derive(Debug)]
pub struct Lease {
    /// The current bound, if the lease was ever set and not expired.
    pub bound: Option<LeaseBound>,
    /// How long one renewal is good for.
    pub max_lease: Duration,
    /// How much the bound must advance before the remote is stored to again;
    /// a third of `max_lease`. Throttles cross-thread atomic stores.
    pub max_drift: Duration,
    /// The bound last published to the remote.
    pub last_update: TimeSpec,
    /// The remote handed to read threads, if one exists.
    pub remote: Option<RemoteLease>,
}

impl Lease {
    /// Every bound the lease holds fits the packed encoding.
    pub open spec fn wf(self) -> bool {
        &&& (self.bound matches Some(b) ==> b.ts().packable())
        &&& self.last_update.packable()
    }

    /// What inspecting the lease at `now` reports.
    pub open spec fn spec_inspect(self, now: TimeSpec) -> LeaseState {
        match self.bound {
            Some(LeaseBound::Suspect(_)) => LeaseState::Suspect,
            Some(LeaseBound::Valid(b)) => if now.nanos() < b.nanos() {
                LeaseState::Valid
            } else {
                LeaseState::Expired
            },
            None => LeaseState::Expired,
        }
    }

    /// A fresh lease: no bound, no remote, drift a third of the maximum.
    pub fn new(max_lease: Duration) -> (r: Lease)
        ensures
            r.bound is None,
            r.remote is None,
            r.max_lease == max_lease,
            r.max_drift.nanos == max_lease.nanos / 3,
            r.last_update == (TimeSpec { sec: 0, nsec: 0 }),
            r.wf(),
    {
        Lease {
            bound: None,
            max_lease,
            max_drift: Duration { nanos: max_lease.nanos / 3 },
            last_update: TimeSpec { sec: 0, nsec: 0 },
            remote: None,
        }
    }

    /// The bound a renewal at `send_ts` would set.
    fn next_expired_time(&self, send_ts: TimeSpec) -> (r: TimeSpec)
        requires
            send_ts.valid(),
            send_ts.nanos() + self.max_lease.nanos < 0x40000000000000 * 1000000000,
        ensures
            r.packable(),
            r.nanos() == send_ts.nanos() + self.max_lease.nanos,
    {
        let r = time_add(&send_ts, &self.max_lease);
        proof {
            assert(r.sec * 1000000000 <= r.nanos());
        }
        r
    }

    /// Renews the lease for a command sent at `send_ts`: the bound becomes
    /// `Valid(send_ts + max_lease)` unless the current bound already lies
    /// beyond it (the clock went backward, or a later send already renewed),
    /// in which case nothing changes. When the post-renew state is valid and
    /// the bound has advanced past `last_update` by more than `max_drift`,
    /// the bound is published to the attached remote — so the valid bound
    /// readers observe trails the true one by at most `max_drift`, and atomic
    /// stores happen at most once per `max_drift`.
    pub fn renew(&mut self, send_ts: TimeSpec)
        requires
            old(self).wf(),
            send_ts.valid(),
            send_ts.nanos() + old(self).max_lease.nanos < 0x40000000000000 * 1000000000,
        ensures
            final(self).wf(),
            ({
                let nb = send_ts.nanos() + old(self).max_lease.nanos;
                match old(self).bound {
                    None => final(self).bound matches Some(LeaseBound::Valid(t)) && t.nanos() == nb,
                    Some(b) => if b.ts().nanos() <= nb {
                        final(self).bound matches Some(LeaseBound::Valid(t)) && t.nanos() == nb
                    } else {
                        final(self).bound == old(self).bound
                    },
                }
            }),
            old(self).bound matches Some(LeaseBound::Valid(t0)) ==> (final(self).bound
                matches Some(LeaseBound::Valid(t1)) && t0.nanos() <= t1.nanos()),
            final(self).max_lease == old(self).max_lease,
            final(self).max_drift == old(self).max_drift,
            final(self).remote == old(self).remote,
            ({
                match final(self).bound {
                    Some(LeaseBound::Valid(b)) => if b.nanos() > old(self).last_update.nanos()
                        + old(self).max_drift.nanos {
                        final(self).last_update == b
                    } else {
                        final(self).last_update == old(self).last_update
                    },
                    _ => final(self).last_update == old(self).last_update,
                }
            }),
    {
        let bound = self.next_expired_time(send_ts);
        match self.bound {
            Some(LeaseBound::Suspect(ts)) => {
                if time_le(&ts, &bound) {
                    self.bound = Some(LeaseBound::Valid(bound));
                }
            },
            Some(LeaseBound::Valid(ts)) => {
                if time_le(&ts, &bound) {
                    self.bound = Some(LeaseBound::Valid(bound));
                }
            },
            None => {
                self.bound = Some(LeaseBound::Valid(bound));
            },
        }
        if let Some(LeaseBound::Valid(b)) = self.bound {
            let threshold = time_add(&self.last_update, &self.max_drift);
            if time_lt(&threshold, &b) {
                self.last_update = b;
                if let Some(r) = &self.remote {
                    r.renew(b);
                }
            }
        }
    }

    /// Suspects the lease for a transfer started at `send_ts`: the bound
    /// becomes `Suspect(send_ts + max_lease)` unconditionally, and the remote
    /// is expired and detached — the old leader may still hold the lease but
    /// cannot prove it, so readers must fall back to the consensus path.
    pub fn suspect(&mut self, send_ts: TimeSpec)
        requires
            old(self).wf(),
            send_ts.valid(),
            send_ts.nanos() + old(self).max_lease.nanos < 0x40000000000000 * 1000000000,
        ensures
            final(self).wf(),
            final(self).bound matches Some(LeaseBound::Suspect(t)) && t.nanos() == send_ts.nanos()
                + old(self).max_lease.nanos,
            final(self).remote is None,
            final(self).max_lease == old(self).max_lease,
            final(self).max_drift == old(self).max_drift,
            final(self).last_update == old(self).last_update,
    {
        self.expire_remote_lease();
        let bound = self.next_expired_time(send_ts);
        self.bound = Some(LeaseBound::Suspect(bound));
    }

    /// Inspects the lease at `ts`, or at the monotonic clock's now when `ts`
    /// is `None`: suspect bounds report `Suspect`; a valid bound reports
    /// `Valid` strictly before the bound, `Expired` from it on; no bound
    /// reports `Expired`.
    pub fn inspect(&self, ts: Option<TimeSpec>) -> (r: LeaseState)
        requires
            self.wf(),
            ts matches Some(t) ==> t.valid(),
        ensures
            ts matches Some(t) ==> r == self.spec_inspect(t),
            self.bound matches Some(LeaseBound::Suspect(t)) ==> r == LeaseState::Suspect,
            self.bound is None ==> r == LeaseState::Expired,
            r == LeaseState::Valid ==> self.bound matches Some(LeaseBound::Valid(t)),
    {
        match self.bound {
            Some(LeaseBound::Suspect(_)) => LeaseState::Suspect,
            Some(LeaseBound::Valid(b)) => {
                let now = match ts {
                    Some(t) => t,
                    None => monotonic_now(),
                };
                if time_lt(&now, &b) {
                    LeaseState::Valid
                } else {
                    LeaseState::Expired
                }
            },
            None => LeaseState::Expired,
        }
    }

    /// Expires the lease: no bound, and every remote reader sees expired.
    pub fn expire(&mut self)
        requires
            old(self).wf(),
        ensures
            final(self).wf(),
            final(self).bound is None,
            final(self).remote is None,
            final(self).max_lease == old(self).max_lease,
            final(self).max_drift == old(self).max_drift,
            final(self).last_update == old(self).last_update,
    {
        self.expire_remote_lease();
        self.bound = None;
    }

    /// Expires and detaches the remote, if one is attached: readers sharing
    /// it observe expired from here on.
    pub fn expire_remote_lease(&mut self)
        ensures
            final(self).remote is None,
            final(self).bound == old(self).bound,
            final(self).max_lease == old(self).max_lease,
            final(self).max_drift == old(self).max_drift,
            final(self).last_update == old(self).last_update,
    {
        if let Some(r) = &self.remote {
            r.expire();
        }
        self.remote = None;
    }

    /// Hands out a remote for the given term, unless one is already attached
    /// under that term: at most one connected remote per term. The new
    /// remote starts at the packed valid bound, or expired when the lease is
    /// not valid. A remote attached under a different term would mean a
    /// leader stepped down without expiring its lease; callers rule that out,
    /// as the requires clause records.
    pub fn maybe_new_remote_lease(&mut self, term: u64) -> (r: Option<RemoteLease>)
        requires
            old(self).wf(),
            old(self).remote matches Some(rl) ==> rl.spec_term() == term,
        ensures
            final(self).wf(),
            old(self).remote is Some ==> r is None && *final(self) == *old(self),
            old(self).remote is None ==> {
                &&& r matches Some(rl) && rl.spec_term() == term
                &&& final(self).remote matches Some(rl2) && rl2.spec_term() == term
                &&& final(self).bound == old(self).bound
                &&& final(self).max_lease == old(self).max_lease
                &&& final(self).max_drift == old(self).max_drift
                &&& final(self).last_update == old(self).last_update
            },
    {
        match &self.remote {
            Some(_) => None,
            None => {
                let expired_time: u64 = match self.bound {
                    Some(LeaseBound::Valid(ts)) => timespec_to_u64(ts),
                    _ => 0,
                };
                let cell = Arc::new(AtomicU64::new(expired_time));
                let handed_out = RemoteLease { expired_time: clone_cell(&cell), term };
                self.remote = Some(RemoteLease { expired_time: cell, term });
                Some(handed_out)
            },
        }
    }
}

} // verus!
