//! `/refresh-cache`: re-warm the member cache on demand. Moderators only, and throttled by a
//! process-wide cooldown.

use vstd::prelude::*;

use crate::clock::Instant;
use crate::commands::replies::MODERATORS_ONLY;
use crate::refresh::{Cooldown, RefreshReport};
use crate::text::{number, wide_number};

#[allow(unused_imports)]
use crate::clock::NANOS_PER_SEC;
#[allow(unused_imports)]
use crate::refresh::time_left;
#[allow(unused_imports)]
use crate::text::decimal;

verus! {

/// What just happened to a `/refresh-cache` invocation.
#[derive(Debug, Clone, Copy, PartialEq, Eq, Structural)]
pub enum RefreshCacheEvent {
    /// It was invoked, by a moderator or not.
    Invoked { is_moderator: bool, now: Instant },
    /// The refresh ran.
    Refreshed(RefreshReport),
}

/// What `/refresh-cache` does next.
#[derive(Debug, Clone, PartialEq, Eq)]
pub enum RefreshCacheAction {
    /// Say this, privately, and stop.
    Reply(String),
    /// Acknowledge, then refresh.
    Refresh,
}

/// What the answer shows.
pub enum RefreshCacheView {
    Reply(Seq<char>),
    Refresh,
}

impl View for RefreshCacheAction {
    type V = RefreshCacheView;

    open spec fn view(&self) -> RefreshCacheView {
        match self {
            RefreshCacheAction::Reply(s) => RefreshCacheView::Reply(s@),
            RefreshCacheAction::Refresh => RefreshCacheView::Refresh,
        }
    }
}

/// A span in whole seconds, any fraction counted as one, so that no wait reads as none.
pub open spec fn whole_seconds(nanos: int) -> nat {
    (nanos / (NANOS_PER_SEC as int) + if nanos % (NANOS_PER_SEC as int) > 0 {
        1int
    } else {
        0int
    }) as nat
}

/// How a refresh is reported.
pub open spec fn report_words(report: RefreshReport) -> Seq<char> {
    match report {
        RefreshReport::Loaded(n) => "Refreshed the member cache: "@ + decimal(n as nat) + " member"@
            + (if n == 1 {
            ""@
        } else {
            "s"@
        }) + " loaded."@,
        RefreshReport::Empty => "Solidarity Tech returned no members; kept the last good roster."@,
        RefreshReport::Failed => "The refresh failed; kept the last good roster."@,
    }
}

/// Report a refresh.
pub fn report_text(report: RefreshReport) -> (r: String)
    ensures
        r@ == report_words(report),
{
    match report {
        RefreshReport::Loaded(n) => {
            let plural = if n == 1 {
                ""
            } else {
                "s"
            };
            "Refreshed the member cache: ".to_owned().concat(number(n as u64).as_str()).concat(
                " member",
            ).concat(plural).concat(" loaded.")
        },
        RefreshReport::Empty => "Solidarity Tech returned no members; kept the last good roster.".to_owned(),
        RefreshReport::Failed => "The refresh failed; kept the last good roster.".to_owned(),
    }
}

/// Answer a `/refresh-cache` event. The cooldown is asked only for a moderator, and claimed
/// before the sweep, so that two calls at once cannot both sweep.
pub fn refresh_cache(cooldown: &mut Cooldown, event: RefreshCacheEvent) -> (r: RefreshCacheAction)
    ensures
        final(cooldown).window() == old(cooldown).window(),
        r@ == (match event {
            RefreshCacheEvent::Invoked { is_moderator, now } => {
                let left = time_left(old(cooldown).window(), old(cooldown).last(), now);
                if !is_moderator {
                    RefreshCacheView::Reply(MODERATORS_ONLY@)
                } else if left > 0 {
                    RefreshCacheView::Reply(
                        "The cache was refreshed recently. Try again in "@ + decimal(
                            whole_seconds(left),
                        ) + "s."@,
                    )
                } else {
                    RefreshCacheView::Refresh
                }
            },
            RefreshCacheEvent::Refreshed(report) => RefreshCacheView::Reply(report_words(report)),
        }),
        final(cooldown).last() == (match (event, r) {
            (
                RefreshCacheEvent::Invoked { is_moderator: _, now },
                RefreshCacheAction::Refresh,
            ) => Some(now),
            _ => old(cooldown).last(),
        }),
{
    match event {
        RefreshCacheEvent::Invoked { is_moderator, now } => {
            if !is_moderator {
                return RefreshCacheAction::Reply(MODERATORS_ONLY.to_owned());
            }
            match cooldown.check(now) {
                Ok(()) => RefreshCacheAction::Refresh,
                Err(left) => RefreshCacheAction::Reply(
                    "The cache was refreshed recently. Try again in ".to_owned().concat(
                        wide_number(left.secs_rounded_up()).as_str(),
                    ).concat("s."),
                ),
            }
        },
        RefreshCacheEvent::Refreshed(report) => RefreshCacheAction::Reply(report_text(report)),
    }
}

/// A wait that is not over never reads as no seconds at all.
pub proof fn law_no_wait_reads_as_zero(nanos: int)
    requires
        nanos > 0,
    ensures
        whole_seconds(nanos) >= 1,
{
}

/// A wait is told in the fewest whole seconds that cover it.
pub proof fn law_the_wait_told_covers_the_wait(nanos: int)
    requires
        nanos >= 0,
    ensures
        whole_seconds(nanos) * NANOS_PER_SEC >= nanos,
        whole_seconds(nanos) > 0 ==> (whole_seconds(nanos) - 1) * NANOS_PER_SEC < nanos,
{
}

/// A refresh is reported by what it did: the members now held, one of them a member, or why
/// the last good roster was kept; no two outcomes read the same.
pub proof fn law_a_refresh_is_reported_by_what_it_did(n: usize)
    ensures
        report_words(RefreshReport::Loaded(n)) == "Refreshed the member cache: "@ + decimal(
            n as nat,
        ) + " member"@ + (if n == 1 {
            ""@
        } else {
            "s"@
        }) + " loaded."@,
        report_words(RefreshReport::Empty)
            == "Solidarity Tech returned no members; kept the last good roster."@,
        report_words(RefreshReport::Failed) == "The refresh failed; kept the last good roster."@,
        report_words(RefreshReport::Loaded(n)) != report_words(RefreshReport::Empty),
        report_words(RefreshReport::Loaded(n)) != report_words(RefreshReport::Failed),
        report_words(RefreshReport::Empty) != report_words(RefreshReport::Failed),
{
    reveal_strlit("Refreshed the member cache: ");
    reveal_strlit("Solidarity Tech returned no members; kept the last good roster.");
    reveal_strlit("The refresh failed; kept the last good roster.");
    assert(report_words(RefreshReport::Loaded(n))[0] == 'R');
    assert(report_words(RefreshReport::Empty)[0] == 'S');
    assert(report_words(RefreshReport::Failed)[0] == 'T');
}

/// Only a moderator is refreshed for, and only once the cooldown is over, which a refresh
/// starts anew; anyone else leaves it as it was.
pub proof fn law_a_refresh_claims_the_cooldown(
    cooldown: &mut Cooldown,
    is_moderator: bool,
    now: Instant,
    r: RefreshCacheAction,
)
    requires
        call_ensures(
            refresh_cache,
            (cooldown, RefreshCacheEvent::Invoked { is_moderator, now }),
            r,
        ),
    ensures
        r is Refresh <==> is_moderator && time_left(
            old(cooldown).window(),
            old(cooldown).last(),
            now,
        ) == 0,
        !is_moderator ==> (r matches RefreshCacheAction::Reply(s) && s@ == MODERATORS_ONLY@),
        r is Refresh ==> final(cooldown).last() == Some(now),
        !(r is Refresh) ==> final(cooldown).last() == old(cooldown).last(),
{
}

} // verus!
