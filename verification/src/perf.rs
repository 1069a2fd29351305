//! Durations, latency measurement and running latency statistics.
use vstd::prelude::*;

use crate::text::{decimal, decimal_string, str_to_string};

verus! {

// ---------------------------------------------------------------------
// Durations
// ---------------------------------------------------------------------

/// Nanoseconds in one second.
pub const NANOS_PER_SEC: u128 = 1_000_000_000;

/// Nanoseconds in one millisecond.
pub const NANOS_PER_MILLI: u128 = 1_000_000;

/// The longest duration, in nanoseconds: `u64::MAX` whole seconds and
/// 999 999 999 nanoseconds.
pub const MAX_DURATION_NANOS: u128 = 18_446_744_073_709_551_615_999_999_999;

/// A span of time, counted in nanoseconds. It holds what a
/// `std::time::Duration` holds (whole seconds in a `u64` and the
/// nanoseconds below one second), so any such value converts both ways.
#[derive(Clone, Copy, Debug, PartialEq, Eq, PartialOrd, Ord, Hash)]
pub struct Duration {
    nanos: u128,
}

impl Duration {
    #[verifier::type_invariant]
    spec fn in_range(self) -> bool {
        self.nanos <= MAX_DURATION_NANOS
    }
}

impl View for Duration {
    type V = nat;

    /// The length in nanoseconds.
    closed spec fn view(&self) -> nat {
        self.nanos as nat
    }
}

impl Duration {
    /// `secs` seconds and `nanos` nanoseconds. The carry from `nanos`
    /// into whole seconds must not overflow the seconds counter.
    pub fn new(secs: u64, nanos: u32) -> (d: Duration)
        requires
            secs * NANOS_PER_SEC + nanos <= MAX_DURATION_NANOS,
        ensures
            d@ == secs * NANOS_PER_SEC + nanos,
    {
        Duration { nanos: (secs as u128) * NANOS_PER_SEC + (nanos as u128) }
    }

    /// `secs` whole seconds.
    pub fn from_secs(secs: u64) -> (d: Duration)
        ensures
            d@ == secs * NANOS_PER_SEC,
    {
        Duration { nanos: (secs as u128) * NANOS_PER_SEC }
    }

    /// `millis` milliseconds.
    pub fn from_millis(millis: u64) -> (d: Duration)
        ensures
            d@ == millis * NANOS_PER_MILLI,
    {
        Duration { nanos: (millis as u128) * NANOS_PER_MILLI }
    }

    /// The whole length in nanoseconds.
    pub fn as_nanos(&self) -> (r: u128)
        ensures
            r == self@,
            r <= MAX_DURATION_NANOS,
    {
        proof {
            use_type_invariant(self);
        }
        self.nanos
    }

    /// The whole milliseconds in this duration.
    pub fn as_millis(&self) -> (r: u128)
        ensures
            r == self@ / NANOS_PER_MILLI as nat,
    {
        self.nanos / NANOS_PER_MILLI
    }

    /// The whole seconds in this duration.
    pub fn as_secs(&self) -> (r: u64)
        ensures
            r == self@ / NANOS_PER_SEC as nat,
    {
        proof {
            use_type_invariant(self);
        }
        let n = self.nanos;
        assert(n / NANOS_PER_SEC <= 18_446_744_073_709_551_615u128) by (nonlinear_arith)
            requires
                n <= MAX_DURATION_NANOS,
        ;
        (n / NANOS_PER_SEC) as u64
    }

    /// The nanoseconds below the last whole second.
    pub fn subsec_nanos(&self) -> (r: u32)
        ensures
            r == self@ % NANOS_PER_SEC as nat,
            r < NANOS_PER_SEC,
    {
        (self.nanos % NANOS_PER_SEC) as u32
    }

    /// The sum of two durations, or `None` where it would pass the
    /// longest duration.
    pub fn checked_add(self, other: Duration) -> (r: Option<Duration>)
        ensures
            r is None <==> self@ + other@ > MAX_DURATION_NANOS,
            r matches Some(d) ==> d@ == self@ + other@,
    {
        proof {
            use_type_invariant(&self);
            use_type_invariant(&other);
        }
        let sum = self.nanos + other.nanos;
        if sum <= MAX_DURATION_NANOS {
            Some(Duration { nanos: sum })
        } else {
            None
        }
    }

    /// This duration divided by `rhs`, rounded down to the nanosecond,
    /// or `None` when `rhs` is zero.
    pub fn checked_div(self, rhs: u32) -> (r: Option<Duration>)
        ensures
            r is None <==> rhs == 0,
            r matches Some(d) ==> d@ == self@ / (rhs as nat),
    {
        proof {
            use_type_invariant(&self);
        }
        if rhs == 0 {
            None
        } else {
            let q = self.nanos / (rhs as u128);
            assert(q <= self.nanos) by (nonlinear_arith)
                requires
                    q == self.nanos / (rhs as u128),
                    rhs > 0,
            ;
            Some(Duration { nanos: q })
        }
    }
}

/// What `{:?}` writes for a `std::time::Duration` of `secs` seconds and
/// `nanos` nanoseconds.
pub uninterp spec fn std_duration_debug(secs: u64, nanos: u32) -> Seq<char>;

/// What `{:?}` writes for a duration of `n` nanoseconds.
pub open spec fn duration_text(n: nat) -> Seq<char> {
    std_duration_debug((n / NANOS_PER_SEC as nat) as u64, (n % NANOS_PER_SEC as nat) as u32)
}

/// Formats `std::time::Duration::new(secs, nanos)` with `{:?}` (such as
/// `100ms` or `1.5s`). The text is named `std_duration_debug` of the two
/// parts; the rules by which std picks the unit and the digits are not
/// stated.
#[verifier::external_body]
fn std_duration_debug_string(secs: u64, nanos: u32) -> (r: String)
    requires
        nanos < NANOS_PER_SEC,
    ensures
        r@ == std_duration_debug(secs, nanos),
{
    format!("{:?}", std::time::Duration::new(secs, nanos))
}

impl Duration {
    /// The text that `{:?}` writes for the same `std::time::Duration`.
    pub fn debug_string(&self) -> (r: String)
        ensures
            r@ == duration_text(self@),
    {
        let secs = self.as_secs();
        let nanos = self.subsec_nanos();
        std_duration_debug_string(secs, nanos)
    }
}

// ---------------------------------------------------------------------
// Measuring one operation
// ---------------------------------------------------------------------

#[verifier::external_type_specification]
#[verifier::external_body]
pub struct ExInstant(std::time::Instant);

/// Calls `Instant::now`. Nothing is stated of the instant it returns.
#[verifier::external_body]
fn instant_now() -> std::time::Instant {
    std::time::Instant::now()
}

/// Calls `Instant::elapsed`. Nothing is stated of the time it returns.
#[verifier::external_body]
fn instant_elapsed(start: &std::time::Instant) -> core::time::Duration {
    start.elapsed()
}

/// Calls `std::time::Duration::as_secs`: the whole seconds. No relation
/// to the other part is stated beyond what `subsec_nanos` gives.
#[verifier::external_body]
fn std_duration_secs(d: &core::time::Duration) -> u64 {
    d.as_secs()
}

/// Calls `std::time::Duration::subsec_nanos`, which std documents as
/// always below one billion.
#[verifier::external_body]
fn std_duration_subsec_nanos(d: &core::time::Duration) -> (r: u32)
    ensures
        r < NANOS_PER_SEC,
{
    d.subsec_nanos()
}

/// An operation taking longer than this many milliseconds is slow.
pub const SLOW_OPERATION_MILLIS: u128 = 100;

/// Whether an operation that took `d` is slow: more than
/// `SLOW_OPERATION_MILLIS` whole milliseconds.
pub fn is_slow(d: &Duration) -> (r: bool)
    ensures
        r == (d@ / 1_000_000 > 100),
{
    d.as_millis() > SLOW_OPERATION_MILLIS
}

/// Measures how long an operation takes, from `new` to `finish`.
pub struct LatencyGuard {
    operation: String,
    start: std::time::Instant,
}

impl LatencyGuard {
    /// The name of the measured operation.
    pub closed spec fn operation_name(&self) -> Seq<char> {
        self.operation@
    }

    /// Starts measuring the operation `operation` now.
    pub fn new(operation: &str) -> (g: LatencyGuard)
        ensures
            g.operation_name() == operation@,
    {
        LatencyGuard { operation: str_to_string(operation), start: instant_now() }
    }

    /// Stops measuring and returns the time since `new`; it reads the
    /// clock, so no clause states its length.
    pub fn finish(self) -> (d: Duration) {
        let elapsed = instant_elapsed(&self.start);
        let secs = std_duration_secs(&elapsed);
        let nanos = std_duration_subsec_nanos(&elapsed);
        Duration::new(secs, nanos)
    }
}

// ---------------------------------------------------------------------
// Statistics over many measurements
// ---------------------------------------------------------------------

/// The count, total, shortest and longest of the durations added so far.
#[derive(Clone, Debug)]
pub struct LatencyStats {
    /// How many durations were added.
    pub count: usize,
    /// Their sum.
    pub total: Duration,
    /// The shortest one, once there is one.
    pub min: Option<Duration>,
    /// The longest one, once there is one.
    pub max: Option<Duration>,
}

/// `2^32`: `count as u32` keeps the count modulo this.
pub const U32_MODULUS: u64 = 0x1_0000_0000;

impl LatencyStats {
    /// The statistics agree with each other as `add` keeps them: the
    /// shortest and longest exist exactly when something was added, the
    /// total of nothing is zero, and the total lies between `count` times
    /// the shortest and `count` times the longest.
    pub open spec fn wf(&self) -> bool {
        &&& (self.count == 0) == (self.min is None)
        &&& (self.count == 0) == (self.max is None)
        &&& self.count == 0 ==> self.total@ == 0
        &&& self.count > 0 ==> {
            let lo = self.min.unwrap()@;
            let hi = self.max.unwrap()@;
            &&& lo <= hi
            &&& lo * self.count <= self.total@
            &&& self.total@ <= hi * self.count
        }
    }

    /// The value `average` returns: the total divided by the count taken
    /// modulo `2^32` (the count is narrowed to `u32` before dividing).
    pub open spec fn average_nanos(&self) -> nat {
        self.total@ / (self.count as nat % (U32_MODULUS as nat))
    }

    /// The text `format` returns.
    pub open spec fn text(&self) -> Seq<char> {
        if self.count == 0 {
            "No data"@
        } else {
            "count="@ + decimal(self.count as nat) + ", avg="@ + duration_text(self.average_nanos())
                + ", min="@ + duration_text(self.min.unwrap()@) + ", max="@ + duration_text(
                self.max.unwrap()@,
            )
        }
    }

    /// Empty statistics.
    pub fn new() -> (s: LatencyStats)
        ensures
            s.count == 0,
            s.total@ == 0,
            s.min is None,
            s.max is None,
            s.wf(),
    {
        LatencyStats { count: 0, total: Duration::from_secs(0), min: None, max: None }
    }

    /// Counts one more duration: it is added to the total and replaces the
    /// shortest (longest) one if it is shorter (longer) or the first.
    pub fn add(&mut self, duration: Duration)
        requires
            old(self).count < usize::MAX,
            old(self).total@ + duration@ <= MAX_DURATION_NANOS,
        ensures
            final(self).count == old(self).count + 1,
            final(self).total@ == old(self).total@ + duration@,
            final(self).min == (if old(self).min is Some && old(self).min.unwrap()@ < duration@ {
                old(self).min
            } else {
                Some(duration)
            }),
            final(self).max == (if old(self).max is Some && old(self).max.unwrap()@ > duration@ {
                old(self).max
            } else {
                Some(duration)
            }),
            old(self).wf() ==> final(self).wf(),
    {
        let ghost before = *self;
        self.count = self.count + 1;
        match self.total.checked_add(duration) {
            Some(t) => {
                self.total = t;
            },
            None => {},
        }
        let new_min = match self.min {
            Some(m) => {
                if m.as_nanos() < duration.as_nanos() {
                    m
                } else {
                    duration
                }
            },
            None => duration,
        };
        self.min = Some(new_min);
        let new_max = match self.max {
            Some(m) => {
                if m.as_nanos() > duration.as_nanos() {
                    m
                } else {
                    duration
                }
            },
            None => duration,
        };
        self.max = Some(new_max);
        proof {
            if before.wf() {
                lemma_add_keeps_bounds(before, *self, duration@);
            }
        }
    }

    /// The total divided by the count (narrowed to `u32`), or `None` when
    /// nothing was added. A count that is a non-zero multiple of `2^32`
    /// narrows to zero, a division that panics, so it is left out.
    pub fn average(&self) -> (r: Option<Duration>)
        requires
            self.count == 0 || self.count as nat % (U32_MODULUS as nat) != 0,
        ensures
            self.count == 0 ==> r is None,
            self.count != 0 ==> (r matches Some(a) && a@ == self.average_nanos()),
    {
        if self.count == 0 {
            None
        } else {
            let narrowed = ((self.count as u64) % 0x1_0000_0000u64) as u32;
            self.total.checked_div(narrowed)
        }
    }

    /// `No data`, or the count, average, shortest and longest durations as
    /// `count=2, avg=75ms, min=50ms, max=100ms`.
    pub fn format(&self) -> (r: String)
        requires
            self.count == 0 || (self.count as nat % (U32_MODULUS as nat) != 0 && self.min is Some
                && self.max is Some),
        ensures
            r@ == self.text(),
    {
        if self.count == 0 {
            return str_to_string("No data");
        }
        let avg = match self.average() {
            Some(a) => a,
            None => Duration::from_secs(0),
        };
        let lo = match self.min {
            Some(m) => m,
            None => Duration::from_secs(0),
        };
        let hi = match self.max {
            Some(m) => m,
            None => Duration::from_secs(0),
        };
        let mut s = str_to_string("count=");
        let n = decimal_string(self.count as u128);
        s.append(n.as_str());
        s.append(", avg=");
        let a = avg.debug_string();
        s.append(a.as_str());
        s.append(", min=");
        let m1 = lo.debug_string();
        s.append(m1.as_str());
        s.append(", max=");
        let m2 = hi.debug_string();
        s.append(m2.as_str());
        s
    }
}

impl Default for LatencyStats {
    fn default() -> (s: LatencyStats)
        ensures
            s.count == 0,
            s.total@ == 0,
            s.min is None,
            s.max is None,
    {
        LatencyStats::new()
    }
}

/// `add` keeps the statistics in agreement.
proof fn lemma_add_keeps_bounds(before: LatencyStats, after: LatencyStats, d: nat)
    requires
        before.wf(),
        after.count == before.count + 1,
        after.total@ == before.total@ + d,
        after.min is Some,
        after.max is Some,
        after.min.unwrap()@ == (if before.min is Some && before.min.unwrap()@ < d {
            before.min.unwrap()@
        } else {
            d
        }),
        after.max.unwrap()@ == (if before.max is Some && before.max.unwrap()@ > d {
            before.max.unwrap()@
        } else {
            d
        }),
    ensures
        after.wf(),
{
    let c = before.count as int;
    let t = before.total@ as int;
    let lo = after.min.unwrap()@ as int;
    let hi = after.max.unwrap()@ as int;
    if c == 0 {
        assert(lo * 1 == d);
        assert(hi * 1 == d);
    } else {
        let lo0 = before.min.unwrap()@ as int;
        let hi0 = before.max.unwrap()@ as int;
        assert(lo <= lo0 && lo <= d);
        assert(hi >= hi0 && hi >= d);
        assert(lo * (c + 1) <= t + d) by (nonlinear_arith)
            requires
                lo <= lo0,
                lo <= d,
                lo0 * c <= t,
                c >= 0,
        ;
        assert(t + d <= hi * (c + 1)) by (nonlinear_arith)
            requires
                hi >= hi0,
                hi >= d,
                t <= hi0 * c,
                c >= 0,
        ;
    }
}

/// Whatever durations are added, the average lies between the shortest
/// and the longest one (while the count fits in `u32`, so that `average`
/// divides by the count itself).
pub proof fn law_average_between_min_and_max(stats: LatencyStats)
    requires
        stats.wf(),
        0 < stats.count < U32_MODULUS as nat,
    ensures
        stats.min.unwrap()@ <= stats.average_nanos() <= stats.max.unwrap()@,
{
    let c = stats.count as int;
    let t = stats.total@ as int;
    let lo = stats.min.unwrap()@ as int;
    let hi = stats.max.unwrap()@ as int;
    assert(stats.count as nat % (U32_MODULUS as nat) == stats.count as nat);
    assert(lo <= t / c <= hi) by (nonlinear_arith)
        requires
            lo * c <= t,
            t <= hi * c,
            c > 0,
            lo >= 0,
    ;
}

} // verus!
