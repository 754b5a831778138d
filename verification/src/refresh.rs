//! On-demand and scheduled warming of the member cache, and the throttle that keeps the
//! on-demand form from hammering the source.

use vstd::prelude::*;

use crate::clock::{Duration, Instant};

#[allow(unused_imports)]
use crate::clock::elapsed;

verus! {

/// How long a manual refresh is locked out after one ran, in seconds.
pub const REFRESH_COOLDOWN_SECS: u64 = 180;

/// What a single refresh did.
#[derive(Debug, Clone, Copy, PartialEq, Eq, Structural)]
pub enum RefreshReport {
    /// The cache now holds this many members.
    Loaded(usize),
    /// The sweep returned no members; the previous roster was kept.
    Empty,
    /// The sweep or the cache write failed; the previous roster was kept.
    Failed,
}

/// What just happened to a refresh.
#[derive(Debug, Clone, Copy, PartialEq, Eq, Structural)]
pub enum RefreshEvent {
    /// The sweep returned this many members; absent when it failed.
    Swept(Option<usize>),
    /// The roster of this many members was written, or could not be.
    Written(usize, bool),
}

/// What a refresh does next.
#[derive(Debug, Clone, Copy, PartialEq, Eq, Structural)]
pub enum RefreshAction {
    /// Replace the cached roster with the swept one.
    Replace,
    /// Report this.
    Report(RefreshReport),
}

/// Sweep the source and replace the cached roster, keeping the last good one on an empty or
/// failed sweep: an empty one is almost always an upstream glitch.
pub fn refresh_once(event: RefreshEvent) -> (r: RefreshAction)
    ensures
        r == (match event {
            RefreshEvent::Swept(None) => RefreshAction::Report(RefreshReport::Failed),
            RefreshEvent::Swept(Some(n)) => if n == 0 {
                RefreshAction::Report(RefreshReport::Empty)
            } else {
                RefreshAction::Replace
            },
            RefreshEvent::Written(n, ok) => if ok {
                RefreshAction::Report(RefreshReport::Loaded(n))
            } else {
                RefreshAction::Report(RefreshReport::Failed)
            },
        }),
        r == RefreshAction::Replace ==> (event matches RefreshEvent::Swept(Some(n)) && n > 0),
{
    match event {
        RefreshEvent::Swept(None) => RefreshAction::Report(RefreshReport::Failed),
        RefreshEvent::Swept(Some(n)) => {
            if n == 0 {
                RefreshAction::Report(RefreshReport::Empty)
            } else {
                RefreshAction::Replace
            }
        },
        RefreshEvent::Written(n, ok) => {
            if ok {
                RefreshAction::Report(RefreshReport::Loaded(n))
            } else {
                RefreshAction::Report(RefreshReport::Failed)
            }
        },
    }
}

/// A single-slot, process-wide refresh throttle: one window shared by everyone. The spend is
/// recorded the moment a check passes, before the slow sweep runs.
#[derive(Debug, Clone, Copy, PartialEq, Eq, Structural)]
pub struct Cooldown {
    window: Duration,
    last: Option<Instant>,
}

/// The time left until a refresh is allowed again; none where it is.
pub open spec fn time_left(window: Duration, last: Option<Instant>, now: Instant) -> int {
    match last {
        Some(prev) if elapsed(now, prev) < window.nanos => window.nanos - elapsed(now, prev),
        _ => 0,
    }
}

impl Cooldown {
    /// The length of the window.
    pub closed spec fn window(&self) -> Duration {
        self.window
    }

    /// The last refresh allowed.
    pub closed spec fn last(&self) -> Option<Instant> {
        self.last
    }

    /// A cooldown of length `window`.
    pub fn new(window: Duration) -> (r: Cooldown)
        ensures
            r.window() == window,
            r.last() is None,
    {
        Cooldown { window, last: None }
    }

    /// Try to claim a refresh at `now`: allowed, and recorded, when the window is open;
    /// otherwise refused with the time left.
    pub fn check(&mut self, now: Instant) -> (r: Result<(), Duration>)
        ensures
            final(self).window() == old(self).window(),
            r is Ok <==> time_left(old(self).window(), old(self).last(), now) == 0,
            r matches Err(left) ==> left.nanos == time_left(
                old(self).window(),
                old(self).last(),
                now,
            ),
            r is Ok ==> final(self).last() == Some(now),
            r is Err ==> final(self).last() == old(self).last(),
    {
        if let Some(prev) = self.last {
            let gone = now.duration_since(prev);
            if gone.nanos < self.window.nanos {
                return Err(Duration { nanos: self.window.nanos - gone.nanos });
            }
        }
        self.last = Some(now);
        Ok(())
    }
}

/// Once a refresh was allowed, no other is until the window has passed, and then one is.
pub proof fn law_refreshes_are_spaced(window: Duration, first: Instant, now: Instant)
    ensures
        time_left(window, Some(first), now) == 0 <==> elapsed(now, first) >= window.nanos,
        0 <= time_left(window, Some(first), now) <= window.nanos,
{
}

/// The roster is replaced only by a sweep that returned someone, and a refresh reports how
/// many members were written, that none were swept, or that something failed.
pub proof fn law_only_a_full_sweep_replaces_the_roster(event: RefreshEvent, r: RefreshAction)
    requires
        call_ensures(refresh_once, (event,), r),
    ensures
        r == RefreshAction::Replace <==> (event matches RefreshEvent::Swept(Some(n)) && n > 0),
        r == RefreshAction::Report(RefreshReport::Empty) <==> event == RefreshEvent::Swept(Some(0)),
        r == RefreshAction::Report(RefreshReport::Failed) <==> event == RefreshEvent::Swept(None)
            || (event matches RefreshEvent::Written(n, ok) && !ok),
        (event matches RefreshEvent::Written(n, ok) ==> (ok ==> r == RefreshAction::Report(
            RefreshReport::Loaded(n),
        ))),
{
}

/// A claim passes exactly when the window has passed since the last one that did, is then the
/// last one itself, and is otherwise told how much is left.
pub proof fn law_a_claim_is_spaced_from_the_last(
    cooldown: &mut Cooldown,
    now: Instant,
    r: Result<(), Duration>,
)
    requires
        call_ensures(Cooldown::check, (cooldown, now), r),
    ensures
        old(cooldown).last() is None ==> r is Ok,
        (old(cooldown).last() matches Some(prev) ==> (r is Ok <==> elapsed(now, prev) >= old(
            cooldown,
        ).window().nanos) && (r matches Err(left) ==> left.nanos == old(cooldown).window().nanos
            - elapsed(now, prev))),
        r is Ok ==> final(cooldown).last() == Some(now),
        r is Err ==> final(cooldown).last() == old(cooldown).last(),
        final(cooldown).window() == old(cooldown).window(),
{
}

} // verus!
