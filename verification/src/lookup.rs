//! The moderator-lookup decision core and its in-memory rate limiter.

use std::collections::HashMap;
use vstd::prelude::*;

use crate::clock::{Duration, Instant};
use crate::ids::DiscordUserId;
use crate::store::{MemberRecord, OverrideRecord};

#[allow(unused_imports)]
use crate::clock::elapsed;

verus! {

broadcast use vstd::std_specs::hash::group_hash_axioms;

/// The length of one rate-limit window, in nanoseconds.
pub const WINDOW_NANOS: u128 = 60_000_000_000;

/// One moderator's current window: how many lookups they have spent since it opened.
#[derive(Debug, Clone, Copy, PartialEq, Eq, Structural)]
pub struct Window {
    pub count: u32,
    pub opened_at: Instant,
}

/// The window in force at `now`: a fresh one where there was none or a full minute has
/// passed since it opened.
pub open spec fn window_at(window: Option<Window>, now: Instant) -> Window {
    match window {
        Some(w) if elapsed(now, w.opened_at) < WINDOW_NANOS => w,
        _ => Window { count: 0, opened_at: now },
    }
}

/// Whether one more lookup is allowed at `now`, and the window after it.
pub open spec fn spend(limit: u32, window: Option<Window>, now: Instant) -> (bool, Window) {
    let w = window_at(window, now);
    if w.count < limit {
        (true, Window { count: (w.count + 1) as u32, ..w })
    } else {
        (false, w)
    }
}

/// A per-moderator fixed-window rate limiter. It makes bulk extraction by a compromised
/// moderator account slow and noisy.
pub struct RateLimiter {
    max_per_min: u32,
    windows: HashMap<u64, Window>,
}

impl RateLimiter {
    /// The lookups allowed per moderator per minute.
    pub closed spec fn limit(&self) -> u32 {
        self.max_per_min
    }

    /// The window of each moderator that has looked anyone up.
    pub closed spec fn windows(&self) -> Map<u64, Window> {
        self.windows@
    }

    /// The window of one moderator.
    pub open spec fn window(&self, who: u64) -> Option<Window> {
        if self.windows().dom().contains(who) {
            Some(self.windows()[who])
        } else {
            None
        }
    }

    /// A limiter allowing `max_per_min` lookups per moderator per minute.
    pub fn new(max_per_min: u32) -> (r: RateLimiter)
        ensures
            r.limit() == max_per_min,
            r.windows() == Map::<u64, Window>::empty(),
    {
        RateLimiter { max_per_min, windows: HashMap::new() }
    }

    /// Try to spend one token for `who` at `now`. Refused once the moderator has used their
    /// allowance for the current window; no one else's window is touched.
    pub fn check(&mut self, who: DiscordUserId, now: Instant) -> (r: bool)
        ensures
            r == spend(old(self).limit(), old(self).window(who.0), now).0,
            final(self).windows() == old(self).windows().insert(
                who.0,
                spend(old(self).limit(), old(self).window(who.0), now).1,
            ),
            final(self).limit() == old(self).limit(),
            forall|other: u64|
                other != who.0 ==> #[trigger] final(self).window(other) == old(self).window(other),
    {
        let current = match self.windows.get(&who.0) {
            Some(w) => {
                if now.duration_since(w.opened_at).nanos >= WINDOW_NANOS {
                    Window { count: 0, opened_at: now }
                } else {
                    *w
                }
            },
            None => Window { count: 0, opened_at: now },
        };
        if current.count >= self.max_per_min {
            self.windows.insert(who.0, current);
            return false;
        }
        self.windows.insert(
            who.0,
            Window { count: current.count + 1, opened_at: current.opened_at },
        );
        true
    }
}

/// The window after a run of lookups.
pub open spec fn window_after(limit: u32, window: Option<Window>, times: Seq<Instant>) -> Option<
    Window,
>
    decreases times.len(),
{
    if times.len() == 0 {
        window
    } else {
        Some(spend(limit, window_after(limit, window, times.drop_last()), times.last()).1)
    }
}

/// How many lookups of a run are allowed.
pub open spec fn allowed(limit: u32, window: Option<Window>, times: Seq<Instant>) -> nat
    decreases times.len(),
{
    if times.len() == 0 {
        0
    } else {
        allowed(limit, window, times.drop_last()) + if spend(
            limit,
            window_after(limit, window, times.drop_last()),
            times.last(),
        ).0 {
            1nat
        } else {
            0nat
        }
    }
}

/// Of any lookups one moderator makes within a minute of their first, exactly as many are
/// allowed as the ceiling permits.
pub proof fn law_window_ceiling(limit: u32, times: Seq<Instant>)
    requires
        forall|i: int|
            0 <= i < times.len() ==> elapsed(#[trigger] times[i], times[0]) < WINDOW_NANOS,
    ensures
        allowed(limit, None, times) == if times.len() < limit {
            times.len()
        } else {
            limit as nat
        },
        times.len() > 0 ==> window_after(limit, None, times) == Some(
            Window { count: allowed(limit, None, times) as u32, opened_at: times[0] },
        ),
    decreases times.len(),
{
    if times.len() > 0 {
        let before = times.drop_last();
        assert forall|i: int| 0 <= i < before.len() implies elapsed(#[trigger] before[i], before[0])
            < WINDOW_NANOS by {
            assert(before[i] == times[i]);
        }
        law_window_ceiling(limit, before);
        if times.len() == 1 {
            assert(before.len() == 0);
        } else {
            assert(before[0] == times[0]);
            assert(elapsed(times[times.len() - 1], times[0]) < WINDOW_NANOS);
        }
    }
}

/// A full minute after a window opened, the allowance is fresh.
pub proof fn law_window_resets(limit: u32, window: Window, now: Instant)
    requires
        limit > 0,
        elapsed(now, window.opened_at) >= WINDOW_NANOS,
    ensures
        spend(limit, Some(window), now) == (true, Window { count: 1, opened_at: now }),
{
}

/// What a member's card resolves to.
#[derive(Debug, Clone, PartialEq, Eq)]
pub enum CardView {
    /// A record is on file.
    Member(MemberRecord),
    /// Approved by hand, with no record.
    Override(OverrideRecord),
    /// Neither.
    Unknown,
}

/// What a lookup resolved to.
#[derive(Debug, Clone, PartialEq, Eq)]
pub enum LookupOutcome {
    /// The invoker's own card; absent when they have no record.
    SelfCard(Option<MemberRecord>),
    /// The invoker's own card, approved by hand.
    SelfOverride(OverrideRecord),
    /// A moderator's view of another member's card.
    Card(MemberRecord),
    /// A moderator's view of a hand-approved member's card.
    OverrideCard(OverrideRecord),
    /// A moderator's lookup that found nothing.
    NotFound,
    /// A non-moderator tried to view someone else.
    NotModerator,
    /// The moderator exceeded their allowance.
    RateLimited,
    /// The store or the audit write failed.
    StoreError(String),
}

/// The audit action of a lookup.
pub const LOOKUP_ACTION: &'static str = "card_lookup";

/// Where a lookup stands.
#[derive(Debug, Clone, PartialEq, Eq)]
pub enum LookupPhase {
    /// Not begun.
    Start,
    /// Resolving the invoker's own card.
    ResolvingSelf,
    /// Resolving another member's card for a moderator.
    Resolving { invoker: DiscordUserId, target: DiscordUserId },
    /// Writing the audit row before this is revealed.
    Auditing(CardView),
    /// Over.
    Done,
}

/// What just happened to a lookup.
#[derive(Debug)]
pub enum LookupEvent {
    /// It was asked for, at this moment.
    Asked { invoker: DiscordUserId, target: DiscordUserId, is_moderator: bool, now: Instant },
    /// The card was resolved, or the store failed.
    Resolved(Result<CardView, String>),
    /// The audit row was written; the failure, where it was not.
    Audited(Option<String>),
}

/// The audit row of a moderator's lookup. One that found nothing is recorded too.
#[derive(Debug, Clone, PartialEq, Eq)]
pub struct LookupRow {
    pub actor: DiscordUserId,
    pub subject: DiscordUserId,
    pub action: &'static str,
    pub outcome: &'static str,
}

/// Whether an audit row says that this moderator looked this member up, and what was found.
pub open spec fn row_tells(
    row: LookupRow,
    invoker: DiscordUserId,
    target: DiscordUserId,
    view: CardView,
) -> bool {
    row.actor == invoker && row.subject == target && row.action@ == LOOKUP_ACTION@ && row.outcome@
        == label_words(view)
}

/// What a lookup does next.
#[derive(Debug, Clone, PartialEq, Eq)]
pub enum LookupAction {
    /// Resolve this member's card.
    Resolve(DiscordUserId),
    /// Write this audit row.
    Audit(LookupRow),
    /// Reveal this.
    Reveal(LookupOutcome),
    /// Nothing: the event does not belong to this phase.
    Ignore,
}

/// The audit label of a resolved card.
pub open spec fn label_words(view: CardView) -> Seq<char> {
    match view {
        CardView::Member(_) => "found"@,
        CardView::Override(_) => "override"@,
        CardView::Unknown => "not_found"@,
    }
}

/// What a resolved card reveals to a moderator.
pub open spec fn revealed(view: CardView) -> LookupOutcome {
    match view {
        CardView::Member(rec) => LookupOutcome::Card(rec),
        CardView::Override(stamp) => LookupOutcome::OverrideCard(stamp),
        CardView::Unknown => LookupOutcome::NotFound,
    }
}

/// What a resolved card reveals to the member it is about.
pub open spec fn revealed_to_self(view: CardView) -> LookupOutcome {
    match view {
        CardView::Member(rec) => LookupOutcome::SelfCard(Some(rec)),
        CardView::Override(stamp) => LookupOutcome::SelfOverride(stamp),
        CardView::Unknown => LookupOutcome::SelfCard(None),
    }
}

/// Whether a request draws on the moderator's allowance: only a moderator's lookup of
/// someone else does.
pub open spec fn draws_allowance(phase: LookupPhase, event: LookupEvent) -> bool {
    phase is Start && (event matches LookupEvent::Asked { invoker, target, is_moderator, now }
        && invoker != target && is_moderator)
}

/// Whether a step of a lookup is the one it must be. `allowed` is the limiter's answer where
/// it was asked.
pub open spec fn looks_up(
    phase: LookupPhase,
    event: LookupEvent,
    allowed: bool,
    next: LookupPhase,
    action: LookupAction,
) -> bool {
    match (phase, event) {
        (LookupPhase::Start, LookupEvent::Asked { invoker, target, is_moderator, now: _ }) => if target
            == invoker {
            next is ResolvingSelf && action == LookupAction::Resolve(invoker)
        } else if !is_moderator {
            next is Done && action == LookupAction::Reveal(LookupOutcome::NotModerator)
        } else if !allowed {
            next is Done && action == LookupAction::Reveal(LookupOutcome::RateLimited)
        } else {
            next == (LookupPhase::Resolving { invoker, target }) && action == LookupAction::Resolve(
                target,
            )
        },
        (LookupPhase::ResolvingSelf, LookupEvent::Resolved(resolved)) => next is Done && action
            == LookupAction::Reveal(
            match resolved {
                Ok(view) => revealed_to_self(view),
                Err(e) => LookupOutcome::StoreError(e),
            },
        ),
        (LookupPhase::Resolving { invoker, target }, LookupEvent::Resolved(resolved)) => match resolved {
            Ok(view) => next == LookupPhase::Auditing(view) && (action matches LookupAction::Audit(row)
                && row_tells(row, invoker, target, view)),
            Err(e) => next is Done && action == LookupAction::Reveal(LookupOutcome::StoreError(e)),
        },
        (LookupPhase::Auditing(view), LookupEvent::Audited(failure)) => next is Done && action
            == LookupAction::Reveal(
            match failure {
                None => revealed(view),
                Some(e) => LookupOutcome::StoreError(e),
            },
        ),
        _ => next == phase && action is Ignore,
    }
}

/// Resolve a lookup. Viewing yourself is always allowed and never recorded. Viewing anyone
/// else needs the moderator role, draws on the allowance, and is written to the audit log
/// before anything is revealed; where that write fails, nothing is.
pub fn lookup(limiter: &mut RateLimiter, phase: LookupPhase, event: LookupEvent) -> (r: (
    LookupPhase,
    LookupAction,
))
    ensures
        looks_up(
            phase,
            event,
            (event matches LookupEvent::Asked { invoker, target, is_moderator, now } ==> spend(
                old(limiter).limit(),
                old(limiter).window(invoker.0),
                now,
            ).0),
            r.0,
            r.1,
        ),
        final(limiter).limit() == old(limiter).limit(),
        final(limiter).windows() == (if draws_allowance(phase, event) {
            old(limiter).windows().insert(
                event->invoker.0,
                spend(
                    old(limiter).limit(),
                    old(limiter).window(event->invoker.0),
                    event->now,
                ).1,
            )
        } else {
            old(limiter).windows()
        }),
{
    match (phase, event) {
        (LookupPhase::Start, LookupEvent::Asked { invoker, target, is_moderator, now }) => {
            if target.0 == invoker.0 {
                return (LookupPhase::ResolvingSelf, LookupAction::Resolve(invoker));
            }
            if !is_moderator {
                return (LookupPhase::Done, LookupAction::Reveal(LookupOutcome::NotModerator));
            }
            if !limiter.check(invoker, now) {
                return (LookupPhase::Done, LookupAction::Reveal(LookupOutcome::RateLimited));
            }
            (LookupPhase::Resolving { invoker, target }, LookupAction::Resolve(target))
        },
        (LookupPhase::ResolvingSelf, LookupEvent::Resolved(resolved)) => {
            let outcome = match resolved {
                Ok(CardView::Member(rec)) => LookupOutcome::SelfCard(Some(rec)),
                Ok(CardView::Override(stamp)) => LookupOutcome::SelfOverride(stamp),
                Ok(CardView::Unknown) => LookupOutcome::SelfCard(None),
                Err(e) => LookupOutcome::StoreError(e),
            };
            (LookupPhase::Done, LookupAction::Reveal(outcome))
        },
        (LookupPhase::Resolving { invoker, target }, LookupEvent::Resolved(resolved)) => match resolved {
            Ok(view) => {
                let outcome = match &view {
                    CardView::Member(_) => "found",
                    CardView::Override(_) => "override",
                    CardView::Unknown => "not_found",
                };
                let row = LookupRow {
                    actor: invoker,
                    subject: target,
                    action: LOOKUP_ACTION,
                    outcome,
                };
                (LookupPhase::Auditing(view), LookupAction::Audit(row))
            },
            Err(e) => (LookupPhase::Done, LookupAction::Reveal(LookupOutcome::StoreError(e))),
        },
        (LookupPhase::Auditing(view), LookupEvent::Audited(failure)) => {
            let outcome = match failure {
                None => match view {
                    CardView::Member(rec) => LookupOutcome::Card(rec),
                    CardView::Override(stamp) => LookupOutcome::OverrideCard(stamp),
                    CardView::Unknown => LookupOutcome::NotFound,
                },
                Some(e) => LookupOutcome::StoreError(e),
            };
            (LookupPhase::Done, LookupAction::Reveal(outcome))
        },
        (phase, _) => (phase, LookupAction::Ignore),
    }
}

/// A moderator's view of someone else, found or not, is revealed only right after its audit
/// row was written.
pub proof fn law_reveal_needs_an_audit_row(
    phase: LookupPhase,
    event: LookupEvent,
    allowed: bool,
    next: LookupPhase,
    action: LookupAction,
)
    requires
        looks_up(phase, event, allowed, next, action),
    ensures
        (action matches LookupAction::Reveal(outcome) && (outcome is Card || outcome is OverrideCard
            || outcome is NotFound)) ==> phase is Auditing && event == LookupEvent::Audited(None),
{
}

/// The audit row of a lookup names the moderator who asked, the member they asked about, and
/// what was found.
pub proof fn law_the_row_names_both_members(
    request: LookupEvent,
    allowed: bool,
    resolved: LookupEvent,
    phase: LookupPhase,
    resolve: LookupAction,
    next: LookupPhase,
    action: LookupAction,
)
    requires
        looks_up(LookupPhase::Start, request, allowed, phase, resolve),
        looks_up(phase, resolved, allowed, next, action),
    ensures
        (action matches LookupAction::Audit(row) ==> (
        request matches LookupEvent::Asked { invoker, target, is_moderator, now } && is_moderator
            && resolve == LookupAction::Resolve(target) && (next matches LookupPhase::Auditing(view)
            && row_tells(row, invoker, target, view)))),
{
}

/// Someone who is no moderator never has anyone else's card resolved.
pub proof fn law_only_moderators_look_others_up(
    phase: LookupPhase,
    event: LookupEvent,
    allowed: bool,
    next: LookupPhase,
    action: LookupAction,
)
    requires
        looks_up(phase, event, allowed, next, action),
        event matches LookupEvent::Asked { invoker, target, is_moderator, now } ==> !is_moderator,
    ensures
        (action matches LookupAction::Resolve(who) ==> (
        event matches LookupEvent::Asked { invoker, target, is_moderator, now } && who == invoker)),
{
}

/// A lookup walked to its end. A member always sees their own card and nothing is recorded.
/// A moderator within their allowance has the other member's card resolved, and what was
/// found is what is revealed: a record as a card, a hand approval as one, neither as nothing
/// found. Anyone else is turned away, each with the reason.
pub proof fn law_a_lookup_reveals_what_was_found(
    invoker: DiscordUserId,
    target: DiscordUserId,
    is_moderator: bool,
    now: Instant,
    allowed: bool,
    view: CardView,
    p1: LookupPhase,
    a1: LookupAction,
    p2: LookupPhase,
    a2: LookupAction,
    p3: LookupPhase,
    a3: LookupAction,
)
    requires
        looks_up(
            LookupPhase::Start,
            LookupEvent::Asked { invoker, target, is_moderator, now },
            allowed,
            p1,
            a1,
        ),
        looks_up(p1, LookupEvent::Resolved(Ok(view)), allowed, p2, a2),
        looks_up(p2, LookupEvent::Audited(None), allowed, p3, a3),
    ensures
        invoker == target ==> a1 == LookupAction::Resolve(invoker) && p2 is Done && a2
            == LookupAction::Reveal(
            match view {
                CardView::Member(rec) => LookupOutcome::SelfCard(Some(rec)),
                CardView::Override(stamp) => LookupOutcome::SelfOverride(stamp),
                CardView::Unknown => LookupOutcome::SelfCard(None),
            },
        ),
        invoker != target && !is_moderator ==> p1 is Done && a1 == LookupAction::Reveal(
            LookupOutcome::NotModerator,
        ),
        invoker != target && is_moderator && !allowed ==> p1 is Done && a1 == LookupAction::Reveal(
            LookupOutcome::RateLimited,
        ),
        invoker != target && is_moderator && allowed ==> a1 == LookupAction::Resolve(target) && (
        a2 matches LookupAction::Audit(row) && row.actor == invoker && row.subject == target
            && row.action@ == "card_lookup"@ && row.outcome@ == (match view {
            CardView::Member(_) => "found"@,
            CardView::Override(_) => "override"@,
            CardView::Unknown => "not_found"@,
        })) && a3 == LookupAction::Reveal(
            match view {
                CardView::Member(rec) => LookupOutcome::Card(rec),
                CardView::Override(stamp) => LookupOutcome::OverrideCard(stamp),
                CardView::Unknown => LookupOutcome::NotFound,
            },
        ),
        p1 is Done || p2 is Done || p3 is Done,
{
}

/// A store that fails, or an audit row that could not be written, reveals nothing but the
/// failure.
pub proof fn law_a_failed_lookup_reveals_only_the_failure(
    phase: LookupPhase,
    failure: String,
    allowed: bool,
    next: LookupPhase,
    action: LookupAction,
)
    ensures
        (phase is ResolvingSelf || phase is Resolving) && looks_up(
            phase,
            LookupEvent::Resolved(Err(failure)),
            allowed,
            next,
            action,
        ) ==> next is Done && action == LookupAction::Reveal(LookupOutcome::StoreError(failure)),
        phase is Auditing && looks_up(
            phase,
            LookupEvent::Audited(Some(failure)),
            allowed,
            next,
            action,
        ) ==> next is Done && action == LookupAction::Reveal(LookupOutcome::StoreError(failure)),
{
}

/// A lookup draws on nobody's allowance but that of a moderator who asks about someone else,
/// and is answered by that allowance.
pub proof fn law_a_lookup_draws_on_the_askers_allowance(
    limiter: &mut RateLimiter,
    invoker: DiscordUserId,
    target: DiscordUserId,
    is_moderator: bool,
    now: Instant,
    other: u64,
    r: (LookupPhase, LookupAction),
)
    requires
        call_ensures(
            lookup,
            (
                limiter,
                LookupPhase::Start,
                LookupEvent::Asked { invoker, target, is_moderator, now },
            ),
            r,
        ),
    ensures
        final(limiter).limit() == old(limiter).limit(),
        other != invoker.0 ==> final(limiter).window(other) == old(limiter).window(other),
        invoker == target || !is_moderator ==> final(limiter).windows() == old(limiter).windows(),
        invoker != target && is_moderator ==> (r.1 is Resolve <==> spend(
            old(limiter).limit(),
            old(limiter).window(invoker.0),
            now,
        ).0) && final(limiter).window(invoker.0) == Some(
            spend(old(limiter).limit(), old(limiter).window(invoker.0), now).1,
        ),
{
}

/// A check counts against the one who asked and nobody else, and passes while fewer than the
/// limit were allowed in the window.
pub proof fn law_a_check_counts_for_the_one_who_asked(
    limiter: &mut RateLimiter,
    who: DiscordUserId,
    now: Instant,
    other: u64,
    r: bool,
)
    requires
        call_ensures(RateLimiter::check, (limiter, who, now), r),
    ensures
        other != who.0 ==> final(limiter).window(other) == old(limiter).window(other),
        final(limiter).limit() == old(limiter).limit(),
        r <==> window_at(old(limiter).window(who.0), now).count < old(limiter).limit(),
        final(limiter).window(who.0) is Some,
        final(limiter).window(who.0)->0.count == window_at(old(limiter).window(who.0), now).count
            + if r {
            1int
        } else {
            0int
        },
        final(limiter).window(who.0)->0.opened_at == window_at(
            old(limiter).window(who.0),
            now,
        ).opened_at,
{
}

/// A window is a minute long, and a lookup made in one that is open counts toward its
/// ceiling; the ceiling is never passed.
pub proof fn law_a_window_is_a_minute(limit: u32, window: Window, now: Instant)
    ensures
        window_at(None, now) == (Window { count: 0, opened_at: now }),
        elapsed(now, window.opened_at) < 60_000_000_000 ==> window_at(Some(window), now) == window,
        elapsed(now, window.opened_at) >= 60_000_000_000 ==> window_at(Some(window), now)
            == (Window { count: 0, opened_at: now }),
        spend(limit, Some(window), now).0 <==> window_at(Some(window), now).count < limit,
        window.count <= limit ==> spend(limit, Some(window), now).1.count <= limit,
        !spend(limit, Some(window), now).0 ==> spend(limit, Some(window), now).1 == window_at(
            Some(window),
            now,
        ),
{
}

/// A lookup that revealed something is over, and what does not belong to where it stands
/// changes nothing.
pub proof fn law_a_revealed_lookup_is_over(
    phase: LookupPhase,
    event: LookupEvent,
    allowed: bool,
    next: LookupPhase,
    action: LookupAction,
)
    requires
        looks_up(phase, event, allowed, next, action),
    ensures
        action is Reveal ==> next is Done,
        action is Ignore ==> next == phase,
        phase is Done ==> action is Ignore,
        action is Audit ==> next is Auditing,
{
}

} // verus!
