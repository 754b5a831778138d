//! `/strip-roles`: remove the managed roles from everyone, so a bulk run can be retested
//! from a clean slate. Registered only where the deployment asks for it.
//!
//! A hand-approved member is forgotten outright; everyone else only loses their managed
//! roles and the override marker.

use vstd::prelude::*;

use crate::commands::bulk_verify::ROSTER_FAILED;
use crate::commands::replies::{MODERATORS_ONLY, ROLES_NOT_CONFIGURED};
use crate::text::number;

#[allow(unused_imports)]
use crate::render::bulk_verify::plural;
#[allow(unused_imports)]
use crate::text::decimal;

verus! {

/// The pause after a member that was written to, in milliseconds.
pub const STRIP_PACING_MS: u64 = 500;

/// What stripping one member came to.
#[derive(Debug, Clone, Copy, PartialEq, Eq, Structural)]
pub enum StripOutcome {
    /// Forgotten outright.
    Forgotten,
    /// Lost the managed roles only.
    Stripped,
    /// The backend failed for this member.
    Failed,
}

/// Where a run stands.
#[derive(Debug, Clone, Copy, PartialEq, Eq, Structural)]
pub enum StripPhase {
    /// Not begun.
    Start,
    /// Fetching the roster.
    Enumerating,
    /// Finding out whether the member at this index was hand-approved.
    Asking(usize),
    /// Stripping the member at this index, hand-approved or not.
    Stripping(usize, bool),
    /// Over.
    Done,
}

/// A run.
#[derive(Debug, Clone, PartialEq, Eq)]
pub struct StripRun {
    pub phase: StripPhase,
    /// Whether the override marker is configured, so clearing it writes for every member.
    pub marker_configured: bool,
    /// For each member, whether they hold a managed role.
    pub holding: Vec<bool>,
    pub forgotten: usize,
    pub stripped: usize,
    pub errors: usize,
}

/// A [`StripRun`] over its contents.
#[verifier::ext_equal]
pub struct StripRunView {
    pub phase: StripPhase,
    pub marker_configured: bool,
    pub holding: Seq<bool>,
    pub forgotten: usize,
    pub stripped: usize,
    pub errors: usize,
}

impl View for StripRun {
    type V = StripRunView;

    open spec fn view(&self) -> StripRunView {
        StripRunView {
            phase: self.phase,
            marker_configured: self.marker_configured,
            holding: self.holding@,
            forgotten: self.forgotten,
            stripped: self.stripped,
            errors: self.errors,
        }
    }
}

impl StripRunView {
    /// How many members are done.
    pub open spec fn done(self) -> int {
        self.forgotten + self.stripped + self.errors
    }

    /// The index is inside the roster and every member before it is accounted for.
    pub open spec fn wf(self) -> bool {
        match self.phase {
            StripPhase::Asking(i) => i < self.holding.len() && self.done() == i,
            StripPhase::Stripping(i, _) => i < self.holding.len() && self.done() == i,
            _ => true,
        }
    }
}

/// What just happened to a run.
#[derive(Debug, Clone, PartialEq, Eq)]
pub enum StripEvent {
    /// It was invoked, by a moderator or not, with the managed roles set or not.
    Invoked { is_moderator: bool, roles_configured: bool },
    /// The roster, as whether each member holds a managed role; absent when it could not be
    /// fetched.
    Enumerated(Option<Vec<bool>>),
    /// Whether the member was hand-approved; absent when that could not be read.
    Answered(Option<bool>),
    /// The member was stripped.
    Stripped(StripOutcome),
}

/// What a run does next.
#[derive(Debug, Clone, PartialEq, Eq)]
pub enum StripAction {
    /// Say this, privately, and stop.
    Reply(String),
    /// Fetch the roster.
    Enumerate,
    /// Find out whether the member at this index was hand-approved, after a pause where the
    /// last member was written to.
    Ask { index: usize, pause: bool },
    /// Strip the member at this index.
    Strip { index: usize, overridden: bool },
    /// Report this, after a pause where the last member was written to, and stop.
    Finish { pause: bool, summary: String },
    /// Nothing: the event does not belong to this phase.
    Ignore,
}

/// A [`StripAction`] over characters.
pub enum StripActionView {
    Reply(Seq<char>),
    Enumerate,
    Ask { index: usize, pause: bool },
    Strip { index: usize, overridden: bool },
    Finish { pause: bool, summary: Seq<char> },
    Ignore,
}

impl View for StripAction {
    type V = StripActionView;

    open spec fn view(&self) -> StripActionView {
        match self {
            StripAction::Reply(s) => StripActionView::Reply(s@),
            StripAction::Enumerate => StripActionView::Enumerate,
            StripAction::Ask { index, pause } => StripActionView::Ask {
                index: *index,
                pause: *pause,
            },
            StripAction::Strip { index, overridden } => StripActionView::Strip {
                index: *index,
                overridden: *overridden,
            },
            StripAction::Finish { pause, summary } => StripActionView::Finish {
                pause: *pause,
                summary: summary@,
            },
            StripAction::Ignore => StripActionView::Ignore,
        }
    }
}

/// The report of a finished run.
pub open spec fn strip_summary(run: StripRunView) -> Seq<char> {
    let base = "Stripped managed roles from "@ + decimal(run.holding.len()) + " member"@ + plural(
        run.holding.len() as int,
    ) + " ("@ + decimal(run.forgotten as nat) + " fully reset, "@ + decimal(run.stripped as nat)
        + " status-only)."@;
    if run.errors > 0 {
        base + " "@ + decimal(run.errors as nat) + " failed - see the logs."@
    } else {
        base
    }
}

/// Go on with the member at `i`, or finish.
pub open spec fn strip_onward(run: StripRunView, i: int, pause: bool) -> (
    StripRunView,
    StripActionView,
) {
    if i < run.holding.len() {
        (
            StripRunView { phase: StripPhase::Asking(i as usize), ..run },
            StripActionView::Ask { index: i as usize, pause },
        )
    } else {
        (
            StripRunView { phase: StripPhase::Done, ..run },
            StripActionView::Finish { pause, summary: strip_summary(run) },
        )
    }
}

/// The run with one more member accounted for.
pub open spec fn stripped_one(run: StripRunView, outcome: StripOutcome) -> StripRunView {
    match outcome {
        StripOutcome::Forgotten => StripRunView { forgotten: (run.forgotten + 1) as usize, ..run },
        StripOutcome::Stripped => StripRunView { stripped: (run.stripped + 1) as usize, ..run },
        StripOutcome::Failed => StripRunView { errors: (run.errors + 1) as usize, ..run },
    }
}

/// A run, one event at a time. One member's error never aborts it, and only members that
/// may have been written to are followed by a pause.
pub open spec fn strip_next(run: StripRunView, event: StripEvent) -> (StripRunView, StripActionView) {
    let done = StripRunView { phase: StripPhase::Done, ..run };
    match (run.phase, event) {
        (StripPhase::Start, StripEvent::Invoked { is_moderator, roles_configured }) => if !is_moderator {
            (done, StripActionView::Reply(MODERATORS_ONLY@))
        } else if !roles_configured {
            (done, StripActionView::Reply(ROLES_NOT_CONFIGURED@))
        } else {
            (StripRunView { phase: StripPhase::Enumerating, ..run }, StripActionView::Enumerate)
        },
        (StripPhase::Enumerating, StripEvent::Enumerated(None)) => (
            done,
            StripActionView::Reply(ROSTER_FAILED@),
        ),
        (StripPhase::Enumerating, StripEvent::Enumerated(Some(holding))) => strip_onward(
            StripRunView { holding: holding@, forgotten: 0, stripped: 0, errors: 0, ..run },
            0,
            false,
        ),
        (StripPhase::Asking(i), StripEvent::Answered(None)) => strip_onward(
            stripped_one(run, StripOutcome::Failed),
            i + 1,
            false,
        ),
        (StripPhase::Asking(i), StripEvent::Answered(Some(overridden))) => (
            StripRunView { phase: StripPhase::Stripping(i, overridden), ..run },
            StripActionView::Strip { index: i, overridden },
        ),
        (StripPhase::Stripping(i, overridden), StripEvent::Stripped(outcome)) => strip_onward(
            stripped_one(run, outcome),
            i + 1,
            overridden || run.holding[i as int] || run.marker_configured,
        ),
        _ => (run, StripActionView::Ignore),
    }
}

impl StripRun {
    /// A run that has not begun.
    pub fn new(marker_configured: bool) -> (r: StripRun)
        ensures
            r@.wf(),
            r@.phase == StripPhase::Start,
            r@.marker_configured == marker_configured,
            r@.holding.len() == 0,
            r@.done() == 0,
    {
        StripRun {
            phase: StripPhase::Start,
            marker_configured,
            holding: Vec::new(),
            forgotten: 0,
            stripped: 0,
            errors: 0,
        }
    }

    fn summary(&self) -> (r: String)
        ensures
            r@ == strip_summary(self@),
    {
        let scanned: usize = self.holding.len();
        let s = if scanned == 1 {
            ""
        } else {
            "s"
        };
        let base = "Stripped managed roles from ".to_owned().concat(
            number(scanned as u64).as_str(),
        ).concat(" member").concat(s).concat(" (").concat(
            number(self.forgotten as u64).as_str(),
        ).concat(" fully reset, ").concat(number(self.stripped as u64).as_str()).concat(
            " status-only).",
        );
        if self.errors > 0 {
            base.concat(" ").concat(number(self.errors as u64).as_str()).concat(
                " failed - see the logs.",
            )
        } else {
            base
        }
    }

    fn onward(&mut self, i: usize, pause: bool) -> (r: StripAction)
        requires
            old(self)@.done() == i,
        ensures
            (final(self)@, r@) == strip_onward(old(self)@, i as int, pause),
            final(self)@.wf(),
    {
        if i < self.holding.len() {
            self.phase = StripPhase::Asking(i);
            StripAction::Ask { index: i, pause }
        } else {
            let summary = self.summary();
            self.phase = StripPhase::Done;
            StripAction::Finish { pause, summary }
        }
    }
}

/// Strip the managed roles from every member in the server. Moderators only.
pub fn strip_roles(run: &mut StripRun, event: StripEvent) -> (r: StripAction)
    requires
        old(run)@.wf(),
    ensures
        (final(run)@, r@) == strip_next(old(run)@, event),
        final(run)@.wf(),
{
    match (run.phase, event) {
        (StripPhase::Start, StripEvent::Invoked { is_moderator, roles_configured }) => {
            if !is_moderator {
                run.phase = StripPhase::Done;
                StripAction::Reply(MODERATORS_ONLY.to_owned())
            } else if !roles_configured {
                run.phase = StripPhase::Done;
                StripAction::Reply(ROLES_NOT_CONFIGURED.to_owned())
            } else {
                run.phase = StripPhase::Enumerating;
                StripAction::Enumerate
            }
        },
        (StripPhase::Enumerating, StripEvent::Enumerated(None)) => {
            run.phase = StripPhase::Done;
            StripAction::Reply(ROSTER_FAILED.to_owned())
        },
        (StripPhase::Enumerating, StripEvent::Enumerated(Some(holding))) => {
            run.holding = holding;
            run.forgotten = 0;
            run.stripped = 0;
            run.errors = 0;
            run.onward(0, false)
        },
        (StripPhase::Asking(i), StripEvent::Answered(None)) => {
            assert(run.holding.len() <= usize::MAX);
            run.errors += 1;
            run.onward(i + 1, false)
        },
        (StripPhase::Asking(i), StripEvent::Answered(Some(overridden))) => {
            run.phase = StripPhase::Stripping(i, overridden);
            StripAction::Strip { index: i, overridden }
        },
        (StripPhase::Stripping(i, overridden), StripEvent::Stripped(outcome)) => {
            assert(run.holding.len() <= usize::MAX);
            let pause = overridden || run.holding[i] || run.marker_configured;
            match outcome {
                StripOutcome::Forgotten => {
                    run.forgotten += 1;
                },
                StripOutcome::Stripped => {
                    run.stripped += 1;
                },
                StripOutcome::Failed => {
                    run.errors += 1;
                },
            }
            run.onward(i + 1, pause)
        },
        _ => StripAction::Ignore,
    }
}

/// A finished run has accounted for every member exactly once.
pub proof fn law_strip_accounts_for_every_member(run: StripRunView, event: StripEvent)
    requires
        run.wf(),
        run.holding.len() <= usize::MAX,
        run.phase is Asking || run.phase is Stripping,
    ensures
        strip_next(run, event).1 is Finish ==> strip_next(run, event).0.done() == run.holding.len(),
{
}

/// A member is only ever forgotten on the word of the stored approval, never on the marker
/// role they hold.
pub proof fn law_forgetting_follows_the_record(run: StripRunView, event: StripEvent)
    ensures
        strip_next(run, event).1 matches StripActionView::Strip { index, overridden } ==> event
            == StripEvent::Answered(Some(overridden)) && run.phase == StripPhase::Asking(index),
{
}

/// A run begins only for a moderator of a server that is set up, and ends at once where the
/// roster could not be fetched.
pub proof fn law_a_strip_begins_for_moderators(
    run: StripRunView,
    is_moderator: bool,
    roles_configured: bool,
)
    requires
        run.phase == StripPhase::Start,
    ensures
        ({
            let (next, action) = strip_next(
                run,
                StripEvent::Invoked { is_moderator, roles_configured },
            );
            &&& action == StripActionView::Enumerate <==> is_moderator && roles_configured
            &&& !is_moderator ==> action == StripActionView::Reply(MODERATORS_ONLY@)
            &&& is_moderator && !roles_configured ==> action == StripActionView::Reply(
                ROLES_NOT_CONFIGURED@,
            )
            &&& next.phase == if is_moderator && roles_configured {
                StripPhase::Enumerating
            } else {
                StripPhase::Done
            }
            &&& next.marker_configured == run.marker_configured
        }),
        strip_next(
            StripRunView { phase: StripPhase::Enumerating, ..run },
            StripEvent::Enumerated(None),
        ).1 == StripActionView::Reply(ROSTER_FAILED@),
{
}

/// Every member of the roster is asked about in turn, stripped as the answer says, and
/// counted under what became of them; an answer that could not be read counts as a failure
/// and is followed by no pause, and a member is followed by one exactly where something of
/// theirs may have been written.
pub proof fn law_a_strip_walks_the_roster(
    run: StripRunView,
    roster: Vec<bool>,
    i: usize,
    overridden: bool,
    outcome: StripOutcome,
)
    requires
        run.wf(),
        run.holding.len() <= usize::MAX,
    ensures
        run.phase == StripPhase::Enumerating ==> ({
            let (next, action) = strip_next(run, StripEvent::Enumerated(Some(roster)));
            &&& next.holding == roster@
            &&& next.forgotten == 0 && next.stripped == 0 && next.errors == 0
            &&& roster@.len() > 0 ==> action == (StripActionView::Ask { index: 0, pause: false })
            &&& roster@.len() == 0 ==> (action matches StripActionView::Finish { pause, summary }
                && !pause)
        }),
        run.phase == StripPhase::Asking(i) ==> ({
            let (next, action) = strip_next(run, StripEvent::Answered(Some(overridden)));
            let (missed, onward) = strip_next(run, StripEvent::Answered(None));
            &&& action == (StripActionView::Strip { index: i, overridden })
            &&& next == (StripRunView { phase: StripPhase::Stripping(i, overridden), ..run })
            &&& missed.errors == run.errors + 1 && missed.forgotten == run.forgotten
                && missed.stripped == run.stripped && missed.holding == run.holding
            &&& i + 1 < run.holding.len() ==> onward == (StripActionView::Ask {
                index: (i + 1) as usize,
                pause: false,
            })
            &&& i + 1 >= run.holding.len() ==> (onward matches StripActionView::Finish {
                pause,
                summary,
            } && !pause)
        }),
        run.phase == StripPhase::Stripping(i, overridden) ==> ({
            let (next, action) = strip_next(run, StripEvent::Stripped(outcome));
            let pause = overridden || run.holding[i as int] || run.marker_configured;
            &&& next.holding == run.holding && next.marker_configured == run.marker_configured
            &&& next.forgotten == run.forgotten + if outcome == StripOutcome::Forgotten {
                1int
            } else {
                0int
            }
            &&& next.stripped == run.stripped + if outcome == StripOutcome::Stripped {
                1int
            } else {
                0int
            }
            &&& next.errors == run.errors + if outcome == StripOutcome::Failed {
                1int
            } else {
                0int
            }
            &&& i + 1 < run.holding.len() ==> action == (StripActionView::Ask {
                index: (i + 1) as usize,
                pause,
            })
            &&& i + 1 >= run.holding.len() ==> (action matches StripActionView::Finish {
                pause: p,
                summary,
            } && p == pause)
        }),
{
}

/// The report of a finished run tells the roster's size and each count in its place, and
/// mentions failures only where there were any.
pub proof fn law_a_strip_reports_its_counts(run: StripRunView, event: StripEvent)
    ensures
        strip_next(run, event).1 matches StripActionView::Finish { pause, summary } ==> ({
            let end = strip_next(run, event).0;
            let told = "Stripped managed roles from "@ + decimal(end.holding.len()) + (
            if end.holding.len() == 1 {
                " member"@ + ""@
            } else {
                " member"@ + "s"@
            }) + " ("@ + decimal(end.forgotten as nat) + " fully reset, "@ + decimal(
                end.stripped as nat,
            ) + " status-only)."@;
            &&& end.phase == StripPhase::Done
            &&& end.errors == 0 ==> summary == told
            &&& end.errors > 0 ==> summary == told + " "@ + decimal(end.errors as nat)
                + " failed - see the logs."@
        }),
{
    if strip_next(run, event).1 is Finish {
        let end = strip_next(run, event).0;
        let head = "Stripped managed roles from "@ + decimal(end.holding.len());
        assert(strip_next(run, event).1->summary == strip_summary(end));
        assert(head + (" member"@ + plural(end.holding.len() as int)) =~= head + " member"@
            + plural(end.holding.len() as int));
    }
}

/// A run that was answered is over, and what does not belong to where it stands changes
/// nothing.
pub proof fn law_an_answered_strip_is_over(run: StripRunView, event: StripEvent)
    ensures
        strip_next(run, event).1 is Reply || strip_next(run, event).1 is Finish ==> strip_next(
            run,
            event,
        ).0.phase == StripPhase::Done,
        strip_next(run, event).1 is Ignore ==> strip_next(run, event).0 == run,
        run.phase == StripPhase::Done ==> strip_next(run, event) == (run, StripActionView::Ignore),
{
}

} // verus!
