//! The scheduled membership scan: on a cadence, reconcile every member's role to their
//! standing. Off unless the guild enabled it, and stopped by a tripwire before a mass
//! demotion.

use vstd::prelude::*;

use crate::ids::DiscordChannelId;
use crate::render::scan::scan_alert_embed;
use crate::store::GuildConfig;
use crate::ui::Embed;

#[allow(unused_imports)]
use crate::render::scan::alert_view;
#[allow(unused_imports)]
use crate::store::GuildConfigView;
#[allow(unused_imports)]
use crate::ui::EmbedView;

#[allow(unused_imports)]
use crate::text::decimal;

verus! {

/// When a pass counts as a mass demotion.
#[derive(Debug, Clone, Copy, PartialEq, Eq, Structural)]
pub struct ScanThreshold {
    pub percent: u8,
    pub floor: usize,
}

/// Whether a planned pass may go ahead.
#[derive(Debug, Clone, Copy, PartialEq, Eq, Structural)]
pub enum ScanVerdict {
    Proceed,
    Abort { demotions: usize, scanned: usize },
}

/// A planned pass: the verdict, and for each change whether it is a demotion.
#[derive(Debug, Clone, PartialEq, Eq)]
pub struct ScanPlan {
    pub verdict: ScanVerdict,
    pub demotions: Vec<bool>,
}

/// Where a pass stands.
#[derive(Debug, Clone, Copy, PartialEq, Eq, Structural)]
pub enum ScanPhase {
    /// Not begun.
    Start,
    /// Fetching the roster.
    Enumerating,
    /// Planning the changes.
    Planning,
    /// Applying the change at this index.
    Applying(usize),
    /// Over.
    Done,
}

/// What a pass did.
#[derive(Debug, Clone, Copy, PartialEq, Eq, Structural)]
pub struct ScanCounts {
    pub promoted: usize,
    pub demoted: usize,
    pub failed: usize,
}

/// One pass.
#[derive(Debug, Clone, PartialEq, Eq)]
pub struct ScanRun {
    pub phase: ScanPhase,
    pub threshold: ScanThreshold,
    /// The channel for the alert, as configured when the pass began.
    pub mod_channel: Option<DiscordChannelId>,
    /// For each change, whether it is a demotion.
    pub demotions: Vec<bool>,
    pub counts: ScanCounts,
}

/// A [`ScanRun`] over its contents.
#[verifier::ext_equal]
pub struct ScanRunView {
    pub phase: ScanPhase,
    pub threshold: ScanThreshold,
    pub mod_channel: Option<DiscordChannelId>,
    pub demotions: Seq<bool>,
    pub counts: ScanCounts,
}

impl View for ScanRun {
    type V = ScanRunView;

    open spec fn view(&self) -> ScanRunView {
        ScanRunView {
            phase: self.phase,
            threshold: self.threshold,
            mod_channel: self.mod_channel,
            demotions: self.demotions@,
            counts: self.counts,
        }
    }
}

impl ScanRunView {
    /// While changes are being applied, the index is inside the plan and the counts add up
    /// to the changes already done.
    pub open spec fn wf(self) -> bool {
        self.phase matches ScanPhase::Applying(i) ==> {
            &&& i < self.demotions.len()
            &&& self.counts.promoted + self.counts.demoted + self.counts.failed == i
        }
    }
}

/// What just happened to a pass.
#[derive(Debug, Clone, PartialEq, Eq)]
pub enum ScanEvent {
    /// The cadence came round; the managed roles are set or not.
    Ticked { roles_configured: bool },
    /// The roster was fetched, or could not be.
    Enumerated(bool),
    /// The plan; absent when planning failed.
    Planned(Option<ScanPlan>),
    /// One change was applied, or failed.
    Applied(bool),
}

/// What a pass does next.
#[derive(Debug, Clone, PartialEq, Eq)]
pub enum ScanAction {
    /// Skip this pass.
    Skip,
    /// Fetch the roster.
    Enumerate,
    /// Plan the changes.
    Plan,
    /// Stop without changing a role, and post the alert where a channel is configured.
    Abort(Option<(DiscordChannelId, Embed)>),
    /// Apply the change at this index, after a pause for all but the first.
    Apply { index: usize, pause: bool },
    /// The pass is complete.
    Complete(ScanCounts),
    /// Nothing: the event does not belong to this phase.
    Ignore,
}

/// A [`ScanAction`] over its contents.
pub enum ScanActionView {
    Skip,
    Enumerate,
    Plan,
    Abort(Option<(DiscordChannelId, EmbedView)>),
    Apply { index: usize, pause: bool },
    Complete(ScanCounts),
    Ignore,
}

impl View for ScanAction {
    type V = ScanActionView;

    open spec fn view(&self) -> ScanActionView {
        match self {
            ScanAction::Skip => ScanActionView::Skip,
            ScanAction::Enumerate => ScanActionView::Enumerate,
            ScanAction::Plan => ScanActionView::Plan,
            ScanAction::Abort(a) => ScanActionView::Abort(
                match a {
                    Some((c, e)) => Some((*c, e@)),
                    None => None,
                },
            ),
            ScanAction::Apply { index, pause } => ScanActionView::Apply {
                index: *index,
                pause: *pause,
            },
            ScanAction::Complete(c) => ScanActionView::Complete(*c),
            ScanAction::Ignore => ScanActionView::Ignore,
        }
    }
}

/// The counts after one more change.
pub open spec fn counted(counts: ScanCounts, demotion: bool, ok: bool) -> ScanCounts {
    if !ok {
        ScanCounts { failed: (counts.failed + 1) as usize, ..counts }
    } else if demotion {
        ScanCounts { demoted: (counts.demoted + 1) as usize, ..counts }
    } else {
        ScanCounts { promoted: (counts.promoted + 1) as usize, ..counts }
    }
}

/// Go on with the change at `i`, or finish.
pub open spec fn scan_onward(run: ScanRunView, i: int) -> (ScanRunView, ScanActionView) {
    if i < run.demotions.len() {
        (
            ScanRunView { phase: ScanPhase::Applying(i as usize), ..run },
            ScanActionView::Apply { index: i as usize, pause: i > 0 },
        )
    } else {
        (ScanRunView { phase: ScanPhase::Done, ..run }, ScanActionView::Complete(run.counts))
    }
}

/// The start of a pass.
pub open spec fn scan_start(run: ScanRunView, cfg: GuildConfigView, roles_configured: bool) -> (
    ScanRunView,
    ScanActionView,
) {
    if cfg.scan_enabled && roles_configured {
        (
            ScanRunView {
                phase: ScanPhase::Enumerating,
                mod_channel: cfg.mod_approval_channel,
                ..run
            },
            ScanActionView::Enumerate,
        )
    } else {
        (ScanRunView { phase: ScanPhase::Done, ..run }, ScanActionView::Skip)
    }
}

/// A finished plan: an aborted one changes nothing.
pub open spec fn scan_planned(run: ScanRunView, plan: Option<ScanPlan>) -> (
    ScanRunView,
    ScanActionView,
) {
    let done = ScanRunView { phase: ScanPhase::Done, ..run };
    match plan {
        None => (done, ScanActionView::Skip),
        Some(plan) => match plan.verdict {
            ScanVerdict::Abort { demotions, scanned } => (
                done,
                ScanActionView::Abort(
                    match run.mod_channel {
                        Some(channel) => Some(
                            (
                                channel,
                                alert_view(
                                    demotions as int,
                                    scanned as int,
                                    run.threshold.percent as int,
                                    run.threshold.floor as int,
                                ),
                            ),
                        ),
                        None => None,
                    },
                ),
            ),
            ScanVerdict::Proceed => scan_onward(
                ScanRunView {
                    demotions: plan.demotions@,
                    counts: ScanCounts { promoted: 0, demoted: 0, failed: 0 },
                    ..run
                },
                0,
            ),
        },
    }
}

/// A pass, one event at a time.
pub open spec fn scan_next(run: ScanRunView, cfg: GuildConfigView, event: ScanEvent) -> (
    ScanRunView,
    ScanActionView,
) {
    match (run.phase, event) {
        (ScanPhase::Start, ScanEvent::Ticked { roles_configured }) => scan_start(
            run,
            cfg,
            roles_configured,
        ),
        (ScanPhase::Enumerating, ScanEvent::Enumerated(ok)) => if ok {
            (ScanRunView { phase: ScanPhase::Planning, ..run }, ScanActionView::Plan)
        } else {
            (ScanRunView { phase: ScanPhase::Done, ..run }, ScanActionView::Skip)
        },
        (ScanPhase::Planning, ScanEvent::Planned(plan)) => scan_planned(run, plan),
        (ScanPhase::Applying(i), ScanEvent::Applied(ok)) => scan_onward(
            ScanRunView { counts: counted(run.counts, run.demotions[i as int], ok), ..run },
            i + 1,
        ),
        _ => (run, ScanActionView::Ignore),
    }
}

impl ScanRun {
    /// A pass that has not begun.
    pub fn new(threshold: ScanThreshold) -> (r: ScanRun)
        ensures
            r@.wf(),
            r@.phase == ScanPhase::Start,
            r@.threshold == threshold,
            r@.mod_channel is None,
            r@.demotions.len() == 0,
            r@.counts == (ScanCounts { promoted: 0, demoted: 0, failed: 0 }),
    {
        ScanRun {
            phase: ScanPhase::Start,
            threshold,
            mod_channel: None,
            demotions: Vec::new(),
            counts: ScanCounts { promoted: 0, demoted: 0, failed: 0 },
        }
    }

    fn onward(&mut self, i: usize) -> (r: ScanAction)
        requires
            old(self)@.counts.promoted + old(self)@.counts.demoted + old(self)@.counts.failed == i,
        ensures
            (final(self)@, r@) == scan_onward(old(self)@, i as int),
            final(self)@.wf(),
    {
        if i < self.demotions.len() {
            self.phase = ScanPhase::Applying(i);
            ScanAction::Apply { index: i, pause: i > 0 }
        } else {
            self.phase = ScanPhase::Done;
            ScanAction::Complete(self.counts)
        }
    }

    fn planned(&mut self, plan: Option<ScanPlan>) -> (r: ScanAction)
        ensures
            (final(self)@, r@) == scan_planned(old(self)@, plan),
            final(self)@.wf(),
    {
        match plan {
            None => {
                self.phase = ScanPhase::Done;
                ScanAction::Skip
            },
            Some(plan) => match plan.verdict {
                ScanVerdict::Abort { demotions, scanned } => {
                    self.phase = ScanPhase::Done;
                    match self.mod_channel {
                        Some(channel) => {
                            let embed = scan_alert_embed(
                                demotions,
                                scanned,
                                self.threshold.percent,
                                self.threshold.floor,
                            );
                            ScanAction::Abort(Some((channel, embed)))
                        },
                        None => ScanAction::Abort(None),
                    }
                },
                ScanVerdict::Proceed => {
                    self.demotions = plan.demotions;
                    self.counts = ScanCounts { promoted: 0, demoted: 0, failed: 0 };
                    self.onward(0)
                },
            },
        }
    }
}

/// Run one pass of the scan.
pub fn run_once(run: &mut ScanRun, cfg: &GuildConfig, event: ScanEvent) -> (r: ScanAction)
    requires
        old(run)@.wf(),
    ensures
        (final(run)@, r@) == scan_next(old(run)@, cfg@, event),
        final(run)@.wf(),
{
    match (run.phase, event) {
        (ScanPhase::Start, ScanEvent::Ticked { roles_configured }) => {
            if cfg.scan_enabled && roles_configured {
                run.mod_channel = cfg.mod_approval_channel;
                run.phase = ScanPhase::Enumerating;
                ScanAction::Enumerate
            } else {
                run.phase = ScanPhase::Done;
                ScanAction::Skip
            }
        },
        (ScanPhase::Enumerating, ScanEvent::Enumerated(ok)) => {
            if ok {
                run.phase = ScanPhase::Planning;
                ScanAction::Plan
            } else {
                run.phase = ScanPhase::Done;
                ScanAction::Skip
            }
        },
        (ScanPhase::Planning, ScanEvent::Planned(plan)) => run.planned(plan),
        (ScanPhase::Applying(i), ScanEvent::Applied(ok)) => {
            assert(run.demotions.len() <= usize::MAX);
            if !ok {
                run.counts.failed += 1;
            } else if run.demotions[i] {
                run.counts.demoted += 1;
            } else {
                run.counts.promoted += 1;
            }
            run.onward(i + 1)
        },
        _ => ScanAction::Ignore,
    }
}

/// A pass the tripwire aborted applies no change, then or ever after.
pub proof fn law_abort_changes_no_role(
    run: ScanRunView,
    cfg: GuildConfigView,
    plan: ScanPlan,
    later: ScanEvent,
)
    requires
        run.phase == ScanPhase::Planning,
        plan.verdict is Abort,
    ensures
        ({
            let (after, action) = scan_next(run, cfg, ScanEvent::Planned(Some(plan)));
            &&& action is Abort
            &&& scan_next(after, cfg, later) == (after, ScanActionView::Ignore)
        }),
{
}

/// Nothing is fetched, planned or applied while the scan is switched off.
pub proof fn law_disabled_scan_does_nothing(run: ScanRunView, cfg: GuildConfigView, event: ScanEvent)
    requires
        run.phase == ScanPhase::Start,
        !cfg.scan_enabled,
    ensures
        scan_next(run, cfg, event).1 == ScanActionView::Skip || scan_next(run, cfg, event).1
            == ScanActionView::Ignore,
{
}

/// A completed pass accounts for every planned change exactly once.
pub proof fn law_complete_pass_accounts_for_every_change(
    run: ScanRunView,
    cfg: GuildConfigView,
    event: ScanEvent,
)
    requires
        run.wf(),
        run.demotions.len() <= usize::MAX,
        run.phase is Applying,
    ensures
        scan_next(run, cfg, event).1 matches ScanActionView::Complete(c) ==> c.promoted + c.demoted
            + c.failed == run.demotions.len(),
{
}

/// A pass begins only where the scan is on and the managed roles are set; it then keeps the
/// threshold it was made with and the moderators' channel as configured at that moment.
pub proof fn law_a_pass_begins_when_switched_on(
    run: ScanRunView,
    cfg: GuildConfigView,
    roles_configured: bool,
)
    requires
        run.phase == ScanPhase::Start,
    ensures
        ({
            let (next, action) = scan_next(run, cfg, ScanEvent::Ticked { roles_configured });
            &&& action == ScanActionView::Enumerate <==> cfg.scan_enabled && roles_configured
            &&& action != ScanActionView::Enumerate ==> action == ScanActionView::Skip
                && next.phase == ScanPhase::Done
            &&& action == ScanActionView::Enumerate ==> next.phase == ScanPhase::Enumerating
                && next.mod_channel == cfg.mod_approval_channel && next.threshold == run.threshold
        }),
{
}

/// A roster that was fetched is planned from; one that was not, and a plan that failed, end
/// the pass with nothing changed.
pub proof fn law_a_failed_fetch_or_plan_ends_the_pass(
    run: ScanRunView,
    cfg: GuildConfigView,
    fetched: bool,
)
    ensures
        ({
            let (next, action) = scan_next(
                ScanRunView { phase: ScanPhase::Enumerating, ..run },
                cfg,
                ScanEvent::Enumerated(fetched),
            );
            let (stopped, none) = scan_next(
                ScanRunView { phase: ScanPhase::Planning, ..run },
                cfg,
                ScanEvent::Planned(None),
            );
            &&& fetched ==> action == ScanActionView::Plan && next == (ScanRunView {
                phase: ScanPhase::Planning,
                ..run
            })
            &&& !fetched ==> action == ScanActionView::Skip && next.phase == ScanPhase::Done
            &&& none == ScanActionView::Skip && stopped.phase == ScanPhase::Done
        }),
{
}

/// The alert of an aborted pass goes to the moderators' channel, where there is one, and
/// tells how many of how many members would have been demoted, over which threshold.
pub proof fn law_an_aborted_pass_alerts_with_its_numbers(
    run: ScanRunView,
    cfg: GuildConfigView,
    plan: ScanPlan,
    demotions: usize,
    scanned: usize,
)
    requires
        run.phase == ScanPhase::Planning,
        plan.verdict == (ScanVerdict::Abort { demotions, scanned }),
    ensures
        (scan_next(run, cfg, ScanEvent::Planned(Some(plan))).1 matches ScanActionView::Abort(alert)
            && (alert is None <==> run.mod_channel is None) && (alert matches Some((channel, card))
            ==> run.mod_channel == Some(channel) && card.description == Some(
            "The scan would have demoted "@ + decimal(demotions as nat) + " of "@ + decimal(
                scanned as nat,
            ) + " members, over the safety threshold ("@ + decimal(run.threshold.percent as nat)
                + "% and at least "@ + decimal(run.threshold.floor as nat)
                + "). No roles were changed. This usually means the membership data was incomplete - check Solidarity Tech, then run /refresh-cache before the next scan."@,
        ))),
{
}

/// A pass that goes ahead applies the planned changes in order from the first, pausing
/// before all but that one, and counts each as a promotion, a demotion or a failure, as it
/// was planned and as it went.
pub proof fn law_changes_are_applied_in_order_and_counted(
    run: ScanRunView,
    cfg: GuildConfigView,
    plan: ScanPlan,
    i: usize,
    ok: bool,
)
    requires
        run.wf(),
        run.demotions.len() <= usize::MAX,
        plan.verdict is Proceed,
    ensures
        run.phase == ScanPhase::Planning ==> ({
            let (next, action) = scan_next(run, cfg, ScanEvent::Planned(Some(plan)));
            &&& next.demotions == plan.demotions@
            &&& next.counts.promoted == 0 && next.counts.demoted == 0 && next.counts.failed == 0
            &&& action == if plan.demotions@.len() > 0 {
                ScanActionView::Apply { index: 0, pause: false }
            } else {
                ScanActionView::Complete(ScanCounts { promoted: 0, demoted: 0, failed: 0 })
            }
        }),
        run.phase == ScanPhase::Applying(i) ==> ({
            let (next, action) = scan_next(run, cfg, ScanEvent::Applied(ok));
            let demotion = run.demotions[i as int];
            &&& next.demotions == run.demotions
            &&& next.counts.failed == run.counts.failed + if ok {
                0int
            } else {
                1int
            }
            &&& next.counts.demoted == run.counts.demoted + if ok && demotion {
                1int
            } else {
                0int
            }
            &&& next.counts.promoted == run.counts.promoted + if ok && !demotion {
                1int
            } else {
                0int
            }
            &&& i + 1 < run.demotions.len() ==> action == (ScanActionView::Apply {
                index: (i + 1) as usize,
                pause: true,
            }) && next.phase == ScanPhase::Applying((i + 1) as usize)
            &&& i + 1 >= run.demotions.len() ==> action == ScanActionView::Complete(next.counts)
                && next.phase == ScanPhase::Done
        }),
{
}

/// A pass that ended is over, and what does not belong to where it stands changes nothing.
pub proof fn law_an_ended_pass_stays_ended(run: ScanRunView, cfg: GuildConfigView, event: ScanEvent)
    ensures
        scan_next(run, cfg, event).1 is Skip || scan_next(run, cfg, event).1 is Abort || scan_next(
            run,
            cfg,
            event,
        ).1 is Complete ==> scan_next(run, cfg, event).0.phase == ScanPhase::Done,
        scan_next(run, cfg, event).1 is Ignore ==> scan_next(run, cfg, event).0 == run,
        run.phase == ScanPhase::Done ==> scan_next(run, cfg, event) == (
            run,
            ScanActionView::Ignore,
        ),
{
}

} // verus!
