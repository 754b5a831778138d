//! Spans of time and moments on a monotonic clock, as plain numbers.

use vstd::prelude::*;

verus! {

/// Nanoseconds in a second.
pub const NANOS_PER_SEC: u128 = 1_000_000_000;

/// Nanoseconds in a millisecond.
pub const NANOS_PER_MILLI: u128 = 1_000_000;

/// The longest span a clock reports: every second a `u64` counts, and the fraction after.
pub const LONGEST_NANOS: u128 = 18_446_744_073_709_551_615_999_999_999;

/// A span of time.
#[derive(Debug, Clone, Copy, PartialEq, Eq, PartialOrd, Ord, Hash, Structural)]
pub struct Duration {
    pub nanos: u128,
}

impl Duration {
    /// A span of whole seconds.
    pub fn from_secs(secs: u64) -> (r: Duration)
        ensures
            r.nanos == secs * NANOS_PER_SEC,
    {
        Duration { nanos: secs as u128 * NANOS_PER_SEC }
    }

    /// A span of whole milliseconds.
    pub fn from_millis(millis: u64) -> (r: Duration)
        ensures
            r.nanos == millis * NANOS_PER_MILLI,
    {
        Duration { nanos: millis as u128 * NANOS_PER_MILLI }
    }

    /// A span of whole microseconds.
    pub fn from_micros(micros: u64) -> (r: Duration)
        ensures
            r.nanos == micros * 1000,
    {
        Duration { nanos: micros as u128 * 1000 }
    }

    /// The span in seconds, with any part of a second counted as a whole one.
    pub fn secs_rounded_up(self) -> (r: u128)
        ensures
            r == self.nanos / NANOS_PER_SEC + if self.nanos % NANOS_PER_SEC > 0 {
                1int
            } else {
                0int
            },
    {
        let whole: u128 = self.nanos / NANOS_PER_SEC;
        if self.nanos % NANOS_PER_SEC > 0 {
            whole + 1
        } else {
            whole
        }
    }
}

/// A moment on the process's monotonic clock.
#[derive(Debug, Clone, Copy, PartialEq, Eq, PartialOrd, Ord, Hash, Structural)]
pub struct Instant {
    /// Nanoseconds since the clock's own start.
    pub nanos: u128,
}

/// The span from `earlier` to `later`; none where they are the other way round.
pub open spec fn elapsed(later: Instant, earlier: Instant) -> int {
    if later.nanos >= earlier.nanos {
        later.nanos - earlier.nanos
    } else {
        0
    }
}

impl Instant {
    /// The moment this span after the clock's start.
    pub fn at(since_start: Duration) -> (r: Instant)
        ensures
            r.nanos == since_start.nanos,
    {
        Instant { nanos: since_start.nanos }
    }

    /// The span since an earlier moment; zero where that moment lies ahead.
    pub fn duration_since(self, earlier: Instant) -> (r: Duration)
        ensures
            r.nanos == elapsed(self, earlier),
    {
        if self.nanos >= earlier.nanos {
            Duration { nanos: self.nanos - earlier.nanos }
        } else {
            Duration { nanos: 0 }
        }
    }
}

/// Spans are what they say: a second is a thousand milliseconds, a millisecond a thousand
/// microseconds; and a span told in seconds is the fewest that cover it.
pub proof fn law_spans_are_what_they_say(
    n: u64,
    secs: Duration,
    millis: Duration,
    micros: Duration,
    span: Duration,
    told: u128,
)
    requires
        call_ensures(Duration::from_secs, (n,), secs),
        call_ensures(Duration::from_millis, (n,), millis),
        call_ensures(Duration::from_micros, (n,), micros),
        call_ensures(Duration::secs_rounded_up, (span,), told),
    ensures
        secs.nanos == n * 1_000_000_000,
        millis.nanos == n * 1_000_000,
        micros.nanos == n * 1_000,
        told * 1_000_000_000 >= span.nanos,
        told > 0 ==> (told - 1) * 1_000_000_000 < span.nanos,
{
}

/// The time between two moments is their difference, and none where they are the other way
/// round.
pub proof fn law_time_passes_forward(a: Instant, b: Instant, r: Duration)
    requires
        call_ensures(Instant::duration_since, (a, b), r),
    ensures
        a.nanos >= b.nanos ==> r.nanos == a.nanos - b.nanos,
        a.nanos <= b.nanos ==> r.nanos == 0,
{
}

} // verus!
