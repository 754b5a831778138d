//! What the service manager is told, and how often.

use vstd::prelude::*;

use crate::clock::Duration;
use crate::source::asked;

verus! {

/// A message to the service manager.
#[derive(Debug, Clone, Copy, PartialEq, Eq, Structural)]
pub enum State {
    Ready,
    Stopping,
    Watchdog,
}

impl State {
    /// The message as the protocol writes it.
    pub open spec fn words(self) -> Seq<char> {
        match self {
            State::Ready => "READY=1"@,
            State::Stopping => "STOPPING=1"@,
            State::Watchdog => "WATCHDOG=1"@,
        }
    }

    /// The message as the protocol writes it.
    pub fn as_str(self) -> (r: &'static str)
        ensures
            r@ == self.words(),
    {
        match self {
            State::Ready => "READY=1",
            State::Stopping => "STOPPING=1",
            State::Watchdog => "WATCHDOG=1",
        }
    }
}

/// Tell the service manager the bot is up and able to serve.
pub fn ready() -> (r: State)
    ensures
        r == State::Ready,
{
    State::Ready
}

/// Tell the service manager the bot is shutting down.
pub fn stopping() -> (r: State)
    ensures
        r == State::Stopping,
{
    State::Stopping
}

/// Send one watchdog keep-alive.
pub fn watchdog_ping() -> (r: State)
    ensures
        r == State::Watchdog,
{
    State::Watchdog
}

/// `sd_notify::watchdog_enabled`: the watchdog's period in microseconds, where the service
/// manager configured one for this process. It is read from the environment, so nothing is
/// claimed of it.
#[verifier::external_body]
fn watchdog_usec() -> (r: Option<u64>) {
    let mut usec: u64 = 0;
    if sd_notify::watchdog_enabled(false, &mut usec) {
        Some(usec)
    } else {
        None
    }
}

/// Whether the service manager gave this period, or none, when it was asked.
pub closed spec fn watchdog_reads(usec: Option<u64>) -> bool {
    call_ensures(watchdog_usec, (), usec)
}

/// The interval between pings for a watchdog of this period in microseconds, where there is
/// one: half of it, unless that rounds to nothing.
pub open spec fn half_period(usec: Option<u64>) -> Option<Duration> {
    match usec {
        Some(n) if n >= 2 => Some(Duration { nanos: ((n / 2) * 1000) as u128 }),
        _ => None,
    }
}

/// The interval between pings for a watchdog of this period: half of it. A period so small
/// that half of it rounds to nothing counts as none.
pub fn ping_interval(usec: Option<u64>) -> (r: Option<Duration>)
    ensures
        r == half_period(usec),
{
    match usec {
        Some(n) => {
            let half: u64 = n / 2;
            if half > 0 {
                Some(Duration::from_micros(half))
            } else {
                None
            }
        },
        None => None,
    }
}

/// The interval at which to send watchdog pings: half the period the service manager
/// configured, or nothing if no watchdog is configured. It is never zero.
pub fn watchdog_interval() -> (r: Option<Duration>)
    ensures
        exists|usec: Option<u64>| watchdog_reads(usec) && r == #[trigger] half_period(usec),
        r matches Some(d) ==> d.nanos > 0,
{
    let usec = asked(watchdog_usec);
    assert(watchdog_reads(usec));
    ping_interval(usec)
}

/// How a liveness probe of the database ended.
#[derive(Debug, Clone, Copy, PartialEq, Eq, Structural)]
pub enum Probe {
    Answered,
    Failed,
    TimedOut,
}

/// How long a liveness probe may take: half the ping interval, so it never outlasts it.
pub fn liveness_timeout(interval: Duration) -> (r: Duration)
    ensures
        r.nanos == interval.nanos / 2,
{
    Duration { nanos: interval.nanos / 2 }
}

/// Ping only while the database answers, so an unreachable one lets the watchdog fire.
pub fn after_probe(probe: Probe) -> (r: Option<State>)
    ensures
        r == (if probe == Probe::Answered {
            Some(State::Watchdog)
        } else {
            None
        }),
{
    match probe {
        Probe::Answered => Some(watchdog_ping()),
        Probe::Failed => None,
        Probe::TimedOut => None,
    }
}

/// Half of a watchdog's period lies strictly inside it, and a probe ends strictly inside that
/// half; there is an interval exactly where half the period is something.
pub proof fn law_pings_come_within_the_period(usec: u64, interval: Duration, timeout: Duration)
    requires
        call_ensures(liveness_timeout, (interval,), timeout),
    ensures
        half_period(None) is None,
        half_period(Some(usec)) is Some <==> usec >= 2,
        (half_period(Some(usec)) matches Some(d) ==> 0 < d.nanos < usec * 1000 && (usec as int / 2)
            * 1000 == d.nanos),
        2 * timeout.nanos <= interval.nanos <= 2 * timeout.nanos + 1,
{
}

/// Only a database that answers keeps the watchdog quiet, and each state is told in its own
/// words.
pub proof fn law_only_an_answer_is_a_sign_of_life(
    probe: Probe,
    r: Option<State>,
    a: State,
    b: State,
    up: State,
    down: State,
    beat: State,
)
    requires
        call_ensures(after_probe, (probe,), r),
        call_ensures(ready, (), up),
        call_ensures(stopping, (), down),
        call_ensures(watchdog_ping, (), beat),
    ensures
        r == Some(State::Watchdog) <==> probe == Probe::Answered,
        r is None <==> probe == Probe::Failed || probe == Probe::TimedOut,
        up.words() == "READY=1"@,
        down.words() == "STOPPING=1"@,
        beat.words() == "WATCHDOG=1"@,
        a != b ==> a.words() != b.words(),
{
    reveal_strlit("READY=1");
    reveal_strlit("STOPPING=1");
    reveal_strlit("WATCHDOG=1");
    assert("READY=1"@[0] == 'R' && "STOPPING=1"@[0] == 'S' && "WATCHDOG=1"@[0] == 'W');
}

/// The interval is half of a period the service manager really gave, or none where it gave
/// none to halve.
pub proof fn law_the_interval_is_half_of_what_was_given(r: Option<Duration>)
    requires
        call_ensures(watchdog_interval, (), r),
    ensures
        exists|usec: Option<u64>| #[trigger]
            watchdog_reads(usec) && (match usec {
                Some(n) => if n >= 2 {
                    r == Some(Duration { nanos: ((n / 2) * 1000) as u128 })
                } else {
                    r is None
                },
                None => r is None,
            }),
{
    let usec = choose|usec: Option<u64>| watchdog_reads(usec) && r == #[trigger] half_period(usec);
    assert(watchdog_reads(usec));
}

} // verus!
