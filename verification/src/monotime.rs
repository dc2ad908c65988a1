//! Monotonic timestamps and their lossless-enough 64-bit packing.
//!
//! A monotonic timestamp `(sec, nsec)` is packed into one 64-bit word so the
//! lease bound can be published through an atomic. The packing rounds down to
//! a little under millisecond precision: the low `TIMESPEC_SEC_SHIFT` bits
//! hold `nsec >> TIMESPEC_NSEC_SHIFT` (units of 2^20 nanoseconds, of which a
//! second holds at most 954), the high bits hold the seconds. Rounding down
//! keeps the packed bound conservative: `unpack(pack(t)) <= t`.

use vstd::prelude::*;

verus! {

/// Bits the packed word reserves for the sub-second field: enough for the
/// 1000 milliseconds of a second.
pub const TIMESPEC_SEC_SHIFT: u64 = 10;

/// Bits dropped from the nanosecond field when packing: 2^20 nanoseconds is
/// the unit kept, just under a millisecond.
pub const TIMESPEC_NSEC_SHIFT: u64 = 20;

/// Mask of the packed word's sub-second field.
pub const TIMESPEC_NSEC_MASK: u64 = 0x3ff;

/// Seconds must stay below 2^54 to fit the packed word's high bits.
pub const SEC_LIMIT: u64 = 0x40000000000000;

/// A monotonic timestamp: seconds and nanoseconds-within-second since an
/// unspecified epoch. Negative times do not exist here.
#[derive(Clone, Copy, PartialEq, Eq, Structural, Debug)]
pub struct TimeSpec {
    pub sec: u64,
    pub nsec: u32,
}

/// A span of monotonic time, in nanoseconds.
#[derive(Clone, Copy, PartialEq, Eq, Structural, Debug)]
pub struct Duration {
    pub nanos: u64,
}

impl TimeSpec {
    /// The timestamp as a single nanosecond count.
    pub open spec fn nanos(self) -> int {
        self.sec * 1000000000 + self.nsec
    }

    /// The nanosecond field stays within one second.
    pub open spec fn valid(self) -> bool {
        self.nsec < 1000000000
    }

    /// The timestamp fits the packed 64-bit encoding.
    pub open spec fn packable(self) -> bool {
        self.valid() && self.sec < SEC_LIMIT
    }

    /// Makes a timestamp from its two fields.
    pub fn new(sec: u64, nsec: u32) -> (r: TimeSpec)
        ensures
            r == (TimeSpec { sec, nsec }),
    {
        TimeSpec { sec, nsec }
    }
}

impl Duration {
    /// A span of the given number of milliseconds.
    pub fn milliseconds(ms: u64) -> (r: Duration)
        requires
            ms <= 0xffffffffffffffffu64 / 1000000,
        ensures
            r.nanos == ms * 1000000,
    {
        Duration { nanos: ms * 1000000 }
    }
}

/// True iff `a` is strictly before `b`.
pub fn time_lt(a: &TimeSpec, b: &TimeSpec) -> (r: bool)
    requires
        a.valid(),
        b.valid(),
    ensures
        r == (a.nanos() < b.nanos()),
{
    a.sec < b.sec || (a.sec == b.sec && a.nsec < b.nsec)
}

/// True iff `a` is at or before `b`.
pub fn time_le(a: &TimeSpec, b: &TimeSpec) -> (r: bool)
    requires
        a.valid(),
        b.valid(),
    ensures
        r == (a.nanos() <= b.nanos()),
{
    a.sec < b.sec || (a.sec == b.sec && a.nsec <= b.nsec)
}

/// The timestamp `d` after `t`.
pub fn time_add(t: &TimeSpec, d: &Duration) -> (r: TimeSpec)
    requires
        t.valid(),
        t.sec < 0x4000000000000000,
    ensures
        r.valid(),
        r.nanos() == t.nanos() + d.nanos,
{
    let d_sec: u64 = d.nanos / 1000000000;
    let d_rem: u32 = (d.nanos % 1000000000) as u32;
    proof {
        vstd::arithmetic::div_mod::lemma_fundamental_div_mod(d.nanos as int, 1000000000);
        assert(d_sec <= 0xffffffffffffffffu64 / 1000000000) by (nonlinear_arith)
            requires d_sec == d.nanos / 1000000000, d.nanos <= 0xffffffffffffffff;
    }
    let mut ns: u32 = t.nsec + d_rem;
    let mut carry: u64 = 0;
    if ns >= 1000000000 {
        ns = ns - 1000000000;
        carry = 1;
    }
    TimeSpec { sec: t.sec + d_sec + carry, nsec: ns }
}

/// What a valid timestamp packs to: seconds in the high bits, the rounded
/// sub-second field in the low ten.
pub open spec fn spec_pack(t: TimeSpec) -> u64 {
    (t.sec * 1024 + t.nsec / 1048576) as u64
}

/// What a packed word unpacks to.
pub open spec fn spec_unpack(u: u64) -> TimeSpec {
    TimeSpec { sec: u / 1024, nsec: ((u % 1024) * 1048576) as u32 }
}

/// The word is a possible packing: its sub-second field stays below a
/// second's worth of 2^20-nanosecond units.
pub open spec fn is_packed(u: u64) -> bool {
    u % 1024 <= 953
}

/// Packs a timestamp into a 64-bit word, rounding the sub-second field down.
pub fn timespec_to_u64(ts: TimeSpec) -> (r: u64)
    requires
        ts.packable(),
    ensures
        r == spec_pack(ts),
        is_packed(r),
{
    proof {
        assert(ts.sec * 1024 + ts.nsec / 1048576 <= 0xffffffffffffffff && ts.nsec / 1048576 <= 953
            && (ts.sec * 1024 + ts.nsec / 1048576) % 1024 == ts.nsec / 1048576)
            by (nonlinear_arith)
            requires ts.sec < 0x40000000000000, ts.nsec < 1000000000;
    }
    ts.sec * 1024 + (ts.nsec / 1048576) as u64
}

/// Unpacks a 64-bit word into a timestamp.
pub fn u64_to_timespec(u: u64) -> (r: TimeSpec)
    ensures
        r == spec_unpack(u),
        is_packed(u) ==> r.packable(),
{
    let sec: u64 = u / 1024;
    let sub: u64 = u % 1024;
    proof {
        assert(sub * 1048576 <= 1023 * 1048576) by (nonlinear_arith)
            requires sub <= 1023;
        assert(u / 1024 < 0x40000000000000) by (nonlinear_arith)
            requires u <= 0xffffffffffffffff;
        assert(is_packed(u) ==> sub * 1048576 < 1000000000) by (nonlinear_arith)
            requires sub == u % 1024;
    }
    TimeSpec { sec, nsec: (sub * 1048576) as u32 }
}

/// Packing then unpacking never moves a timestamp forward: the sub-second
/// field only rounds down.
pub proof fn lemma_unpack_pack_le(t: TimeSpec)
    requires
        t.packable(),
    ensures
        spec_unpack(spec_pack(t)).nanos() <= t.nanos(),
        spec_unpack(spec_pack(t)).sec == t.sec,
{
    assert((t.sec * 1024 + t.nsec / 1048576) / 1024 == t.sec && ((t.sec * 1024 + t.nsec / 1048576)
        % 1024) * 1048576 <= t.nsec) by (nonlinear_arith)
        requires t.sec < 0x40000000000000, t.nsec < 1000000000;
}

/// Packing preserves order: a timestamp at or before another packs to a word
/// at or below the other's.
pub proof fn lemma_pack_monotone(t1: TimeSpec, t2: TimeSpec)
    requires
        t1.packable(),
        t2.packable(),
        t1.nanos() <= t2.nanos(),
    ensures
        spec_pack(t1) <= spec_pack(t2),
{
    assert(t1.sec * 1024 + t1.nsec / 1048576 <= t2.sec * 1024 + t2.nsec / 1048576)
        by (nonlinear_arith)
        requires
            t1.sec < 0x40000000000000,
            t2.sec < 0x40000000000000,
            t1.nsec < 1000000000,
            t2.nsec < 1000000000,
            t1.sec * 1000000000 + t1.nsec <= t2.sec * 1000000000 + t2.nsec;
}

/// Unpacking then packing gives the word back, for every word that is a
/// possible packing.
pub proof fn lemma_pack_unpack_id(u: u64)
    requires
        is_packed(u),
    ensures
        spec_unpack(u).packable(),
        spec_pack(spec_unpack(u)) == u,
{
    assert((u % 1024) * 1048576 < 1000000000 && u / 1024 < 0x40000000000000 && (u / 1024) * 1024 + ((
    u % 1024) * 1048576) / 1048576 == u) by (nonlinear_arith)
        requires u % 1024 <= 953, u <= 0xffffffffffffffff;
}

/// Relies on time::precise_time_ns: the current value of a monotonic
/// high-resolution counter, in nanoseconds since an unspecified epoch.
#[verifier::external_body]
fn monotonic_clock_ns() -> u64 {
    time::precise_time_ns()
}

/// Reads the monotonic clock as a timestamp. The counter's nanosecond range
/// keeps the result packable.
pub fn monotonic_now() -> (t: TimeSpec)
    ensures
        t.packable(),
{
    let ns = monotonic_clock_ns();
    let sec: u64 = ns / 1000000000;
    let nsec: u32 = (ns % 1000000000) as u32;
    proof {
        assert(ns / 1000000000 < 0x40000000000000) by (nonlinear_arith)
            requires ns <= 0xffffffffffffffff;
    }
    TimeSpec { sec, nsec }
}

} // verus!
