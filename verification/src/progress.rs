//! Region read progress: the safe-timestamp pipeline.
//!
//! A replica can answer a read at timestamp `T` locally, without a lease or a
//! read index, exactly when its published `safe_ts` is at least `T`. The
//! progress object keeps `safe_ts` advancing from `(apply_index, safe_ts)`
//! observations: an observation whose apply requirement is already met
//! updates the published state directly; one that needs more apply progress
//! waits in a bounded pending queue, ordered by strictly increasing apply
//! index and timestamp, and is consumed as the apply index advances. Callers
//! that share a progress object across threads put it behind a lock and
//! publish `safe_ts` through an atomic fast path; the rules of advancement
//! live here.

use std::collections::VecDeque;
use vstd::prelude::*;

verus! {

/// A claim that once the replica has applied up to `idx`, it may serve reads
/// at timestamps at most `ts`.
#[derive(Clone, Copy, PartialEq, Eq, Structural, Debug)]
pub struct ReadState {
    pub idx: u64,
    pub ts: u64,
}

/// The mathematical value of a progress object.
#[verifier::ext_equal]
pub ghost struct ProgressView {
    pub applied_index: u64,
    pub read_state: ReadState,
    pub pending: Seq<ReadState>,
    pub cap: int,
    pub safe_ts: u64,
}

/// The pending queue never outgrows this, whatever the capacity: halving a
/// full queue of fewer than two items still lets it reach two.
pub open spec fn cap_bound(cap: int) -> int {
    if cap < 2 {
        2
    } else {
        cap
    }
}

impl ProgressView {
    /// The progress invariants: the published timestamp is the published
    /// state's; the published state's apply requirement is met; pending
    /// items all require more apply progress than we have, in strictly
    /// increasing apply index and timestamp; and the queue is bounded.
    pub open spec fn wf(self) -> bool {
        &&& self.safe_ts == self.read_state.ts
        &&& self.read_state.idx <= self.applied_index
        &&& forall|i: int| 0 <= i < self.pending.len() ==> self.pending[i].idx
            > self.applied_index
        &&& forall|i: int, j: int|
            0 <= i < j < self.pending.len() ==> self.pending[i].idx < self.pending[j].idx
                && self.pending[i].ts < self.pending[j].ts
        &&& 0 <= self.cap
        &&& self.pending.len() <= cap_bound(self.cap)
    }
}

/// Every other element of the queue, keeping the first: thins a full queue
/// while preserving its earliest and its spread, so a follower that receives
/// observations faster than it applies still keeps useful long-range items.
pub open spec fn keep_even(s: Seq<ReadState>) -> Seq<ReadState> {
    Seq::new(((s.len() + 1) / 2) as nat, |i: int| s[2 * i])
}

/// The queue after appending an item, thinning first when full.
pub open spec fn push_pending(p: ProgressView, item: ReadState) -> Seq<ReadState> {
    if p.pending.len() >= p.cap {
        keep_even(p.pending).push(item)
    } else {
        p.pending.push(item)
    }
}

/// The progress after an `(apply_index, safe_ts)` observation. Zero fields
/// are ignored. When the apply requirement is met, a larger timestamp
/// replaces the published state. Otherwise the observation meets the queue's
/// tail: one with no larger timestamp is dropped; one with a larger
/// timestamp but no larger apply requirement upgrades the tail in place; a
/// strictly later one is appended, thinning the queue when full.
pub open spec fn spec_update_safe_ts(p: ProgressView, idx: u64, ts: u64) -> ProgressView {
    if idx == 0 || ts == 0 {
        p
    } else if p.applied_index >= idx {
        if p.read_state.ts < ts {
            ProgressView { read_state: ReadState { idx, ts }, safe_ts: ts, ..p }
        } else {
            p
        }
    } else if p.pending.len() > 0 {
        let prev = p.pending.last();
        if prev.ts >= ts {
            p
        } else if prev.idx >= idx {
            ProgressView {
                pending: p.pending.update(p.pending.len() - 1, ReadState { idx: prev.idx, ts }),
                ..p
            }
        } else {
            ProgressView { pending: push_pending(p, ReadState { idx, ts }), ..p }
        }
    } else {
        ProgressView { pending: push_pending(p, ReadState { idx, ts }), ..p }
    }
}

/// How many pending items an apply index that far consumes: the longest
/// prefix whose apply requirements are met.
pub open spec fn drain_count(s: Seq<ReadState>, applied: u64) -> int
    decreases s.len(),
{
    if s.len() == 0 {
        0
    } else if s[0].idx > applied {
        0
    } else {
        1 + drain_count(s.drop_first(), applied)
    }
}

/// The progress after the apply index advances: the consumable prefix of the
/// queue is drained, and the drained claim with the largest timestamp — the
/// last one, the queue being ordered — replaces the published state when it
/// improves on it.
pub open spec fn spec_update_applied(p: ProgressView, applied: u64) -> ProgressView {
    let k = drain_count(p.pending, applied);
    let rs = if k > 0 && p.pending[k - 1].ts > p.read_state.ts {
        p.pending[k - 1]
    } else {
        p.read_state
    };
    ProgressView {
        applied_index: applied,
        read_state: rs,
        pending: p.pending.skip(k),
        safe_ts: rs.ts,
        ..p
    }
}

/// The drained prefix is well defined: its items' requirements are met, and
/// the first item kept, if any, requires more.
proof fn lemma_drain_count_props(s: Seq<ReadState>, applied: u64)
    ensures
        0 <= drain_count(s, applied) <= s.len(),
        forall|i: int| 0 <= i < drain_count(s, applied) ==> s[i].idx <= applied,
        drain_count(s, applied) < s.len() ==> s[drain_count(s, applied)].idx > applied,
    decreases s.len(),
{
    if s.len() > 0 && s[0].idx <= applied {
        lemma_drain_count_props(s.drop_first(), applied);
        assert forall|i: int| 0 <= i < drain_count(s, applied) implies s[i].idx <= applied by {
            if i > 0 {
                assert(s.drop_first()[i - 1].idx <= applied);
            }
        }
    }
}

/// Tracks a replica's safe timestamp.
pub struct RegionReadProgress {
    applied_index: u64,
    read_state: ReadState,
    pending_items: VecDeque<ReadState>,
    cap: usize,
    safe_ts: u64,
}

impl View for RegionReadProgress {
    type V = ProgressView;

    closed spec fn view(&self) -> ProgressView {
        ProgressView {
            applied_index: self.applied_index,
            read_state: self.read_state,
            pending: self.pending_items@,
            cap: self.cap as int,
            safe_ts: self.safe_ts,
        }
    }
}

impl RegionReadProgress {
    /// A fresh progress object: nothing published, nothing pending.
    pub fn new(applied_index: u64, cap: usize) -> (r: RegionReadProgress)
        ensures
            r@ == (ProgressView {
                applied_index,
                read_state: ReadState { idx: 0, ts: 0 },
                pending: Seq::<ReadState>::empty(),
                cap: cap as int,
                safe_ts: 0,
            }),
            r@.wf(),
    {
        let r = RegionReadProgress {
            applied_index,
            read_state: ReadState { idx: 0, ts: 0 },
            pending_items: VecDeque::with_capacity(cap),
            cap,
            safe_ts: 0,
        };
        proof {
            assert(r@ =~= ProgressView {
                applied_index,
                read_state: ReadState { idx: 0, ts: 0 },
                pending: Seq::<ReadState>::empty(),
                cap: cap as int,
                safe_ts: 0,
            });
        }
        r
    }

    /// Advances the apply index — it must not go backward — and drains the
    /// pending items it makes consumable. Returns the new safe timestamp when
    /// the drain advanced it. The safe timestamp never decreases.
    pub fn update_applied(&mut self, applied: u64) -> (r: Option<u64>)
        requires
            old(self)@.wf(),
            applied >= old(self)@.applied_index,
        ensures
            final(self)@ == spec_update_applied(old(self)@, applied),
            final(self)@.wf(),
            final(self)@.safe_ts >= old(self)@.safe_ts,
            r matches Some(t) ==> t == final(self)@.safe_ts && final(self)@.safe_ts > old(
                self,
            )@.safe_ts,
            r is None ==> final(self)@.safe_ts == old(self)@.safe_ts,
    {
        let ghost old_pending = self.pending_items@;
        let ghost old_rs = self.read_state;
        let ghost dc = drain_count(old_pending, applied);
        proof {
            lemma_drain_count_props(old_pending, applied);
        }
        self.applied_index = applied;
        let mut to_update: ReadState = self.read_state;
        let ghost mut j: int = 0;
        loop
            invariant
                0 <= j <= dc,
                dc == drain_count(old_pending, applied),
                dc <= old_pending.len(),
                forall|i: int| 0 <= i < dc ==> old_pending[i].idx <= applied,
                dc < old_pending.len() ==> old_pending[dc].idx > applied,
                forall|i: int, k: int|
                    0 <= i < k < old_pending.len() ==> old_pending[i].idx < old_pending[k].idx
                        && old_pending[i].ts < old_pending[k].ts,
                self.pending_items@ == old_pending.skip(j),
                to_update == (if j > 0 && old_pending[j - 1].ts > old_rs.ts {
                    old_pending[j - 1]
                } else {
                    old_rs
                }),
                self.applied_index == applied,
                self.read_state == old_rs,
                self.cap == old(self)@.cap,
                self.safe_ts == old(self)@.safe_ts,
            ensures
                j == dc,
                self.pending_items@ == old_pending.skip(dc),
                to_update == (if dc > 0 && old_pending[dc - 1].ts > old_rs.ts {
                    old_pending[dc - 1]
                } else {
                    old_rs
                }),
                self.applied_index == applied,
                self.read_state == old_rs,
                self.cap == old(self)@.cap,
                self.safe_ts == old(self)@.safe_ts,
            decreases old_pending.len() - j,
        {
            if self.pending_items.len() == 0 {
                proof {
                    assert(old_pending.skip(j).len() == 0);
                    assert(j == dc);
                }
                break ;
            }
            let front = self.pending_items[0];
            proof {
                assert(front == old_pending.skip(j)[0]);
                assert(front == old_pending[j]);
            }
            if front.idx > applied {
                proof {
                    assert(j == dc);
                }
                break ;
            }
            let item = self.pending_items.pop_front().unwrap();
            proof {
                assert(j < dc);
                assert(old_pending.skip(j).subrange(1, old_pending.skip(j).len() as int)
                    =~= old_pending.skip(j + 1));
            }
            if to_update.ts < item.ts {
                to_update = item;
            }
            proof {
                j = j + 1;
            }
        }
        proof {
            assert(self.pending_items@ == old_pending.skip(dc));
        }
        if self.read_state.ts < to_update.ts {
            self.read_state = to_update;
            self.safe_ts = to_update.ts;
            proof {
                assert(self@ =~= spec_update_applied(old(self)@, applied));
                lemma_skip_keeps_order(old_pending, dc, applied);
            }
            Some(self.safe_ts)
        } else {
            proof {
                assert(self@ =~= spec_update_applied(old(self)@, applied));
                lemma_skip_keeps_order(old_pending, dc, applied);
            }
            None
        }
    }

    /// Feeds an `(apply_index, safe_ts)` observation in, ignoring zeroes:
    /// the fast path publishes a met, larger claim at once and returns the
    /// new safe timestamp; otherwise the observation is dropped, upgrades
    /// the queue's tail, or is appended, and nothing is published. The safe
    /// timestamp never decreases.
    pub fn update_safe_ts(&mut self, apply_index: u64, ts: u64) -> (r: Option<u64>)
        requires
            old(self)@.wf(),
        ensures
            final(self)@ == spec_update_safe_ts(old(self)@, apply_index, ts),
            final(self)@.wf(),
            final(self)@.safe_ts >= old(self)@.safe_ts,
            r matches Some(t) ==> t == final(self)@.safe_ts && final(self)@.safe_ts > old(
                self,
            )@.safe_ts,
            r is None ==> final(self)@.safe_ts == old(self)@.safe_ts,
    {
        if apply_index == 0 || ts == 0 {
            return None;
        }
        if self.applied_index >= apply_index {
            if self.read_state.ts < ts {
                self.read_state = ReadState { idx: apply_index, ts };
                self.safe_ts = ts;
                proof {
                    assert(self@ =~= spec_update_safe_ts(old(self)@, apply_index, ts));
                }
                return Some(ts);
            }
            return None;
        }
        let len = self.pending_items.len();
        if len > 0 {
            let prev = self.pending_items[len - 1];
            if prev.ts >= ts {
                return None;
            }
            if prev.idx >= apply_index {
                let _popped = self.pending_items.pop_back();
                self.pending_items.push_back(ReadState { idx: prev.idx, ts });
                proof {
                    assert(self.pending_items@ =~= old(self)@.pending.update(
                        old(self)@.pending.len() - 1,
                        ReadState { idx: prev.idx, ts },
                    ));
                    assert(self@ =~= spec_update_safe_ts(old(self)@, apply_index, ts));
                }
                return None;
            }
        }
        self.push_back_item(ReadState { idx: apply_index, ts });
        proof {
            assert(self@ =~= spec_update_safe_ts(old(self)@, apply_index, ts));
            lemma_push_pending_wf(old(self)@, ReadState { idx: apply_index, ts });
        }
        None
    }

    /// Appends an item, thinning the queue to every other element first when
    /// it is full.
    fn push_back_item(&mut self, item: ReadState)
        ensures
            final(self)@.pending == push_pending(old(self)@, item),
            final(self)@.applied_index == old(self)@.applied_index,
            final(self)@.read_state == old(self)@.read_state,
            final(self)@.cap == old(self)@.cap,
            final(self)@.safe_ts == old(self)@.safe_ts,
    {
        if self.pending_items.len() >= self.cap {
            self.decimate();
        }
        self.pending_items.push_back(item);
    }

    /// Thins the queue to the items at even positions.
    fn decimate(&mut self)
        ensures
            final(self)@.pending == keep_even(old(self)@.pending),
            final(self)@.applied_index == old(self)@.applied_index,
            final(self)@.read_state == old(self)@.read_state,
            final(self)@.cap == old(self)@.cap,
            final(self)@.safe_ts == old(self)@.safe_ts,
    {
        let n = self.pending_items.len();
        let mut kept: VecDeque<ReadState> = VecDeque::new();
        let mut i: usize = 0;
        while i < n
            invariant
                0 <= i <= n,
                n == self.pending_items@.len(),
                self.pending_items@ == old(self)@.pending,
                kept@.len() == (i + 1) / 2,
                forall|k: int| 0 <= k < kept@.len() ==> kept@[k] == self.pending_items@[2 * k],
                self.applied_index == old(self)@.applied_index,
                self.read_state == old(self)@.read_state,
                self.cap == old(self)@.cap,
                self.safe_ts == old(self)@.safe_ts,
            decreases n - i,
        {
            if i % 2 == 0 {
                let item = self.pending_items[i];
                kept.push_back(item);
            }
            i = i + 1;
        }
        proof {
            assert(kept@ =~= keep_even(old(self)@.pending));
        }
        self.pending_items = kept;
    }

    /// Forgets everything: nothing published, nothing pending. The apply
    /// index and the capacity stay.
    pub fn clear(&mut self)
        ensures
            final(self)@.pending.len() == 0,
            final(self)@.read_state == (ReadState { idx: 0, ts: 0 }),
            final(self)@.safe_ts == 0,
            final(self)@.applied_index == old(self)@.applied_index,
            final(self)@.cap == old(self)@.cap,
            final(self)@.wf(),
    {
        self.pending_items.clear();
        self.read_state = ReadState { idx: 0, ts: 0 };
        self.safe_ts = 0;
    }

    /// The most future-looking claim known: the queue's tail when anything
    /// is pending, else the published state.
    pub fn read_state(&self) -> (r: ReadState)
        ensures
            r == (if self@.pending.len() > 0 {
                self@.pending.last()
            } else {
                self@.read_state
            }),
    {
        let len = self.pending_items.len();
        if len > 0 {
            self.pending_items[len - 1]
        } else {
            self.read_state
        }
    }

    /// The published safe timestamp.
    pub fn safe_ts(&self) -> (r: u64)
        ensures
            r == self@.safe_ts,
    {
        self.safe_ts
    }

    /// How many observations wait for more apply progress.
    pub fn pending_len(&self) -> (r: usize)
        ensures
            r == self@.pending.len(),
    {
        self.pending_items.len()
    }
}

/// Draining a prefix of an ordered queue leaves it ordered, its items still
/// beyond the new apply index.
proof fn lemma_skip_keeps_order(s: Seq<ReadState>, k: int, applied: u64)
    requires
        0 <= k <= s.len(),
        forall|i: int, j: int| 0 <= i < j < s.len() ==> s[i].idx < s[j].idx && s[i].ts < s[j].ts,
        k < s.len() ==> s[k].idx > applied,
    ensures
        forall|i: int, j: int|
            0 <= i < j < s.skip(k).len() ==> s.skip(k)[i].idx < s.skip(k)[j].idx && s.skip(k)[i].ts
                < s.skip(k)[j].ts,
        forall|i: int| 0 <= i < s.skip(k).len() ==> s.skip(k)[i].idx > applied,
{
    assert forall|i: int| 0 <= i < s.skip(k).len() implies s.skip(k)[i].idx > applied by {
        assert(s.skip(k)[i] == s[k + i]);
        if i > 0 {
            assert(s[k].idx < s[k + i].idx);
        }
    }
}

/// Appending an observation that strictly exceeds the tail keeps the queue
/// well formed, thinning included.
proof fn lemma_push_pending_wf(p: ProgressView, item: ReadState)
    requires
        p.wf(),
        item.idx > p.applied_index,
        p.pending.len() > 0 ==> p.pending.last().idx < item.idx && p.pending.last().ts < item.ts,
    ensures
        ({
            let q = push_pending(p, item);
            &&& q.len() <= cap_bound(p.cap)
            &&& forall|i: int| 0 <= i < q.len() ==> q[i].idx > p.applied_index
            &&& forall|i: int, j: int|
                0 <= i < j < q.len() ==> q[i].idx < q[j].idx && q[i].ts < q[j].ts
        }),
{
    let q = push_pending(p, item);
    if p.pending.len() >= p.cap {
        let thin = keep_even(p.pending);
        assert(thin.len() == (p.pending.len() + 1) / 2);
        assert forall|i: int| 0 <= i < q.len() implies q[i].idx > p.applied_index by {
            if i < thin.len() {
                assert(q[i] == p.pending[2 * i]);
            }
        }
        assert forall|i: int, j: int| 0 <= i < j < q.len() implies q[i].idx < q[j].idx && q[i].ts
            < q[j].ts by {
            if j < thin.len() {
                assert(q[i] == p.pending[2 * i]);
                assert(q[j] == p.pending[2 * j]);
            } else {
                assert(j == thin.len());
                assert(q[j] == item);
                assert(q[i] == p.pending[2 * i]);
                if p.pending.len() > 0 {
                    let last = p.pending.len() - 1;
                    if 2 * i < last {
                        assert(p.pending[2 * i].idx < p.pending[last].idx && p.pending[2 * i].ts
                            < p.pending[last].ts);
                    }
                }
            }
        }
    }
}

/// Commutativity of independent observations: two observations fed to a
/// progress object with an empty queue yield the same safe timestamp in
/// either order, when no apply advance comes between them.
pub proof fn lemma_update_safe_ts_commutes(p: ProgressView, i1: u64, t1: u64, i2: u64, t2: u64)
    requires
        p.wf(),
        p.pending.len() == 0,
    ensures
        spec_update_safe_ts(spec_update_safe_ts(p, i1, t1), i2, t2).safe_ts == spec_update_safe_ts(
            spec_update_safe_ts(p, i2, t2),
            i1,
            t1,
        ).safe_ts,
{
}

/// Bounded pending: a well-formed progress object with a capacity of at
/// least two never holds more pending observations than its capacity. Since
/// every update preserves well-formedness, this holds after any sequence of
/// them.
pub proof fn lemma_bounded_pending(p: ProgressView)
    requires
        p.wf(),
        p.cap >= 2,
    ensures
        p.pending.len() <= p.cap,
{
}

} // verus!
