//! `/bulk-verify`: sweep the server roster into a managed state in one pass, then walk a
//! moderator through the members that did not match.
//!
//! The run is resumable: the queue of unmatched members is persisted before the walk
//! begins and every decision as it is made, so an interaction timeout loses nothing.

use vstd::prelude::*;

use crate::commands::replies::{MODERATORS_ONLY, ROLES_NOT_CONFIGURED};
use crate::commands::verify::{StepOutcome, TargetCard, LOOKUP_BUTTON_ID};
use crate::ids::{DiscordGuildId, DiscordUserId};
use crate::render::bulk_verify::{
    preview_embed, progress_embed, resume_embed, summary_embed, wizard_embed,
};
use crate::role::Role;
use crate::store::{
    BulkMiss, BulkScope, BulkSession, BulkStatus, MissCounts, MissState, PreviewTally,
};
use crate::text::same;
use crate::ui::{press, Button, Embed, Row, Style};

#[allow(unused_imports)]
use crate::render::bulk_verify::{
    preview_view, progress_view, resume_view, summary_view, wizard_view,
};
#[allow(unused_imports)]
use crate::store::BulkMissView;
#[allow(unused_imports)]
use crate::ui::{button_views, opt_view, press_view, ButtonView, EmbedView, RowView};

verus! {

/// The pause after a write during apply, in milliseconds: well under the role-write and
/// lookup rates the backends allow.
pub const APPLY_PACING_MS: u64 = 500;

/// How often the apply progress message is edited, in members.
pub const PROGRESS_EVERY: usize = 5;

/// How long the resume prompt waits, in seconds.
pub const RESUME_WAIT_SECS: u64 = 180;

/// How long the preview waits, in seconds.
pub const PREVIEW_WAIT_SECS: u64 = 300;

pub const RESUME_BUTTON_ID: &'static str = "bulk_resume";

pub const START_OVER_BUTTON_ID: &'static str = "bulk_start_over";

pub const CANCEL_BUTTON_ID: &'static str = "bulk_cancel";

pub const APPLY_BUTTON_ID: &'static str = "bulk_apply";

pub const PREVIEW_CANCEL_BUTTON_ID: &'static str = "bulk_preview_cancel";

pub const SKIP_BUTTON_ID: &'static str = "bulk_skip";

pub const STOP_BUTTON_ID: &'static str = "bulk_stop";

/// The answer to a pressed cancel.
pub const CANCELLED: &'static str = "Cancelled.";

/// The answer when the roster cannot be fetched.
pub const ROSTER_FAILED: &'static str = "Failed to fetch the member list. Please try again in a moment.";

/// Which members the moderator asked to sweep.
#[derive(Debug, Clone, Copy, PartialEq, Eq, Structural)]
pub enum ScopeChoice {
    /// Unmanaged members only (default)
    Unmanaged,
    /// The whole server (full resync)
    WholeGuild,
}

/// The scope a choice selects.
pub open spec fn scope_of(c: ScopeChoice) -> BulkScope {
    match c {
        ScopeChoice::Unmanaged => BulkScope::UnmanagedOnly,
        ScopeChoice::WholeGuild => BulkScope::WholeGuild,
    }
}

impl From<ScopeChoice> for BulkScope {
    fn from(c: ScopeChoice) -> (r: BulkScope) {
        match c {
            ScopeChoice::Unmanaged => BulkScope::UnmanagedOnly,
            ScopeChoice::WholeGuild => BulkScope::WholeGuild,
        }
    }
}

impl vstd::std_specs::convert::FromSpecImpl<ScopeChoice> for BulkScope {
    open spec fn obeys_from_spec() -> bool {
        true
    }

    open spec fn from_spec(c: ScopeChoice) -> BulkScope {
        scope_of(c)
    }
}

/// One member of the swept roster.
#[derive(Debug, Clone, PartialEq, Eq)]
pub struct BulkMember {
    pub id: DiscordUserId,
    pub handle: String,
}

/// What resyncing one member came to.
#[derive(Debug, Clone, Copy, PartialEq, Eq, Structural)]
pub enum ResyncOutcome {
    /// The member now holds this role.
    Changed(Role),
    /// The member already held the right role.
    Unchanged(Role),
    /// No record matched; whether the member already stood as Unverified alone.
    Miss { already_unverified: bool },
    /// The record is a different account's; left for `/verify`.
    Conflict,
    /// The backend failed for this member.
    Failed,
}

/// How many members were moved into each role.
#[derive(Debug, Clone, Copy, PartialEq, Eq, Structural)]
pub struct RoleTally {
    pub member: usize,
    pub dues_expired: usize,
    pub unverified: usize,
}

impl RoleTally {
    /// The count of one role.
    pub open spec fn count(self, role: Role) -> usize {
        match role {
            Role::Member => self.member,
            Role::DuesExpired => self.dues_expired,
            Role::Unverified => self.unverified,
        }
    }

    /// Every role with its count, in the order of `Role::ALL`.
    pub open spec fn rows_view(self) -> Seq<(Role, usize)> {
        seq![
            (Role::Member, self.member),
            (Role::DuesExpired, self.dues_expired),
            (Role::Unverified, self.unverified),
        ]
    }

    /// One more member moved into `role`.
    pub open spec fn bump(self, role: Role) -> RoleTally {
        match role {
            Role::Member => RoleTally { member: (self.member + 1) as usize, ..self },
            Role::DuesExpired => RoleTally { dues_expired: (self.dues_expired + 1) as usize, ..self },
            Role::Unverified => RoleTally { unverified: (self.unverified + 1) as usize, ..self },
        }
    }

    /// Nobody moved yet.
    pub open spec fn zero() -> RoleTally {
        RoleTally { member: 0, dues_expired: 0, unverified: 0 }
    }

    fn rows(&self) -> (r: Vec<(Role, usize)>)
        ensures
            r@ == self.rows_view(),
    {
        let r = vec![
            (Role::Member, self.member),
            (Role::DuesExpired, self.dues_expired),
            (Role::Unverified, self.unverified),
        ];
        assert(r@ =~= self.rows_view());
        r
    }
}

/// The session found on entry, as far as the run needs it.
#[derive(Debug, Clone, Copy, PartialEq, Eq, Structural)]
pub struct FoundSession {
    pub scope: BulkScope,
    pub started_by: DiscordUserId,
    pub status: BulkStatus,
    /// Whether it has sat untouched too long to resume.
    pub stale: bool,
}

/// Where a run stands.
#[derive(Debug, Clone, Copy, PartialEq, Eq, Structural)]
pub enum BulkPhase {
    /// Not begun.
    Start,
    /// Looking for an earlier session.
    Loading,
    /// Discarding a stale session.
    DroppingStale,
    /// Counting what an earlier session has left.
    Counting(FoundSession),
    /// Offering to resume.
    Offering,
    /// Discarding an earlier session at the moderator's request.
    Restarting,
    /// Fetching the roster.
    Enumerating,
    /// Counting what would change.
    Previewing,
    /// Waiting for the moderator's confirmation.
    Confirming,
    /// Resyncing the member at this index.
    Applying(usize),
    /// Persisting the session and its queue.
    Saving,
    /// Over, or handed on to the wizard.
    Done,
}

/// A bulk run.
#[derive(Debug, Clone, PartialEq, Eq)]
pub struct BulkRun {
    pub guild: DiscordGuildId,
    pub invoker: DiscordUserId,
    pub scope: BulkScope,
    pub phase: BulkPhase,
    /// When the moderator confirmed, in microseconds since the Unix epoch.
    pub confirmed_at: i64,
    pub members: Vec<BulkMember>,
    pub queue: Vec<BulkMiss>,
    pub tally: RoleTally,
}

/// A [`BulkMember`] over characters.
pub struct BulkMemberView {
    pub id: DiscordUserId,
    pub handle: Seq<char>,
}

impl View for BulkMember {
    type V = BulkMemberView;

    open spec fn view(&self) -> BulkMemberView {
        BulkMemberView { id: self.id, handle: self.handle@ }
    }
}

/// A [`BulkRun`] over characters.
#[verifier::ext_equal]
pub struct BulkRunView {
    pub guild: DiscordGuildId,
    pub invoker: DiscordUserId,
    pub scope: BulkScope,
    pub phase: BulkPhase,
    pub confirmed_at: i64,
    pub members: Seq<BulkMemberView>,
    pub queue: Seq<BulkMissView>,
    pub tally: RoleTally,
}

impl View for BulkRun {
    type V = BulkRunView;

    open spec fn view(&self) -> BulkRunView {
        BulkRunView {
            guild: self.guild,
            invoker: self.invoker,
            scope: self.scope,
            phase: self.phase,
            confirmed_at: self.confirmed_at,
            members: self.members@.map_values(|m: BulkMember| m@),
            queue: self.queue@.map_values(|m: BulkMiss| m@),
            tally: self.tally,
        }
    }
}

impl BulkRunView {
    /// While members are being resynced, the index is inside the roster and no count
    /// exceeds the members already done.
    pub open spec fn wf(self) -> bool {
        self.phase matches BulkPhase::Applying(i) ==> {
            &&& i < self.members.len()
            &&& self.tally.member <= i
            &&& self.tally.dues_expired <= i
            &&& self.tally.unverified <= i
            &&& self.queue.len() <= i
        }
    }

    /// The session a run persists.
    pub open spec fn session(self) -> BulkSession {
        BulkSession {
            guild: self.guild,
            scope: self.scope,
            status: BulkStatus::InProgress,
            started_by: self.invoker,
            created_at: self.confirmed_at,
            updated_at: self.confirmed_at,
        }
    }
}

/// What just happened to a run.
#[derive(Debug, Clone, PartialEq, Eq)]
pub enum BulkEvent {
    /// It was invoked, by a moderator or not, with the managed roles set or not.
    Invoked { is_moderator: bool, roles_configured: bool },
    /// The earlier session, if any.
    Loaded(Option<FoundSession>),
    /// The earlier session was discarded.
    Abandoned,
    /// What the earlier session has left.
    Counted(MissCounts),
    /// A button was pressed, at this time.
    Pressed { id: String, at: i64 },
    /// Nothing arrived within the wait.
    Idle,
    /// The roster; absent when it could not be fetched.
    Enumerated(Option<Vec<BulkMember>>),
    /// What would change.
    Previewed(PreviewTally),
    /// One member was resynced.
    Resynced(ResyncOutcome),
    /// The session and its queue were persisted.
    Saved,
    /// A step the run cannot go on without failed.
    Broke,
}

/// A [`BulkEvent`] over characters.
pub enum BulkEventView {
    Invoked { is_moderator: bool, roles_configured: bool },
    Loaded(Option<FoundSession>),
    Abandoned,
    Counted(MissCounts),
    Pressed { id: Seq<char>, at: i64 },
    Idle,
    Enumerated(Option<Seq<BulkMemberView>>),
    Previewed(PreviewTally),
    Resynced(ResyncOutcome),
    Saved,
    Broke,
}

impl View for BulkEvent {
    type V = BulkEventView;

    open spec fn view(&self) -> BulkEventView {
        match self {
            BulkEvent::Invoked { is_moderator, roles_configured } => BulkEventView::Invoked {
                is_moderator: *is_moderator,
                roles_configured: *roles_configured,
            },
            BulkEvent::Loaded(s) => BulkEventView::Loaded(*s),
            BulkEvent::Abandoned => BulkEventView::Abandoned,
            BulkEvent::Counted(c) => BulkEventView::Counted(*c),
            BulkEvent::Pressed { id, at } => BulkEventView::Pressed { id: id@, at: *at },
            BulkEvent::Idle => BulkEventView::Idle,
            BulkEvent::Enumerated(ms) => BulkEventView::Enumerated(
                match ms {
                    Some(ms) => Some(ms@.map_values(|m: BulkMember| m@)),
                    None => None,
                },
            ),
            BulkEvent::Previewed(t) => BulkEventView::Previewed(*t),
            BulkEvent::Resynced(o) => BulkEventView::Resynced(*o),
            BulkEvent::Saved => BulkEventView::Saved,
            BulkEvent::Broke => BulkEventView::Broke,
        }
    }
}

/// The work that follows one applied member.
#[derive(Debug, Clone, Copy, PartialEq, Eq, Structural)]
pub enum Onward {
    /// Resync the member at this index.
    Resync(usize),
    /// Persist this session with the run's queue.
    Save(BulkSession),
}

/// What a run does next.
#[derive(Debug, Clone, PartialEq, Eq)]
pub enum BulkAction {
    /// Say this, privately, and stop.
    Reply(String),
    /// Replace the host message with this line, drop its controls, and stop.
    Say(String),
    /// Look for an earlier session.
    LoadSession,
    /// Discard the earlier session.
    AbandonSession,
    /// Count what the earlier session has left.
    CountMisses,
    /// Offer to resume it.
    Offer(Embed, Row),
    /// Show progress, on the same host message or a new one, and fetch the roster.
    Sweep { reuse_message: bool, embed: Embed, scope: BulkScope },
    /// Count what would change.
    Preview,
    /// Ask for confirmation.
    Confirm(Embed, Row),
    /// Show progress where given, pause where asked, and go on.
    Advance { progress: Option<Embed>, pause: bool, onward: Onward },
    /// Hand on to the wizard with this tally, after showing progress where given.
    EnterWizard { progress: Option<Embed>, assigned: Vec<(Role, usize)> },
    /// Stop without a word.
    Stop,
    /// Stop and report the failure.
    Fail,
    /// Nothing: the event does not belong to this phase.
    Ignore,
}

/// A [`BulkAction`] over characters.
pub enum BulkActionView {
    Reply(Seq<char>),
    Say(Seq<char>),
    LoadSession,
    AbandonSession,
    CountMisses,
    Offer(EmbedView, RowView),
    Sweep { reuse_message: bool, embed: EmbedView, scope: BulkScope },
    Preview,
    Confirm(EmbedView, RowView),
    Advance { progress: Option<EmbedView>, pause: bool, onward: Onward },
    EnterWizard { progress: Option<EmbedView>, assigned: Seq<(Role, usize)> },
    Stop,
    Fail,
    Ignore,
}

/// The view of an optional embed.
pub open spec fn opt_embed_view(e: Option<Embed>) -> Option<EmbedView> {
    match e {
        Some(e) => Some(e@),
        None => None,
    }
}

impl View for BulkAction {
    type V = BulkActionView;

    open spec fn view(&self) -> BulkActionView {
        match self {
            BulkAction::Reply(s) => BulkActionView::Reply(s@),
            BulkAction::Say(s) => BulkActionView::Say(s@),
            BulkAction::LoadSession => BulkActionView::LoadSession,
            BulkAction::AbandonSession => BulkActionView::AbandonSession,
            BulkAction::CountMisses => BulkActionView::CountMisses,
            BulkAction::Offer(e, r) => BulkActionView::Offer(e@, r@),
            BulkAction::Sweep { reuse_message, embed, scope } => BulkActionView::Sweep {
                reuse_message: *reuse_message,
                embed: embed@,
                scope: *scope,
            },
            BulkAction::Preview => BulkActionView::Preview,
            BulkAction::Confirm(e, r) => BulkActionView::Confirm(e@, r@),
            BulkAction::Advance { progress, pause, onward } => BulkActionView::Advance {
                progress: opt_embed_view(*progress),
                pause: *pause,
                onward: *onward,
            },
            BulkAction::EnterWizard { progress, assigned } => BulkActionView::EnterWizard {
                progress: opt_embed_view(*progress),
                assigned: assigned@,
            },
            BulkAction::Stop => BulkActionView::Stop,
            BulkAction::Fail => BulkActionView::Fail,
            BulkAction::Ignore => BulkActionView::Ignore,
        }
    }
}

/// The controls of the resume prompt.
pub open spec fn offer_buttons() -> RowView {
    RowView::Buttons(
        seq![
            press_view(RESUME_BUTTON_ID@, "Resume"@, Style::Primary),
            press_view(START_OVER_BUTTON_ID@, "Start over"@, Style::Secondary),
            press_view(CANCEL_BUTTON_ID@, "Cancel"@, Style::Secondary),
        ],
    )
}

/// The controls of the preview.
pub open spec fn confirm_buttons() -> RowView {
    RowView::Buttons(
        seq![
            press_view(APPLY_BUTTON_ID@, "Apply and continue"@, Style::Primary),
            press_view(PREVIEW_CANCEL_BUTTON_ID@, "Cancel"@, Style::Secondary),
        ],
    )
}

/// Whether resyncing a member wrote anything, so the next one waits its turn: a role
/// change, or a miss that was not already Unverified.
pub open spec fn wrote(outcome: ResyncOutcome) -> bool {
    match outcome {
        ResyncOutcome::Changed(_) => true,
        ResyncOutcome::Miss { already_unverified } => !already_unverified,
        _ => false,
    }
}

/// Where the apply loop goes after the member before `i`.
pub open spec fn onward_from(run: BulkRunView, i: int) -> (BulkPhase, Onward) {
    if i < run.members.len() {
        (BulkPhase::Applying(i as usize), Onward::Resync(i as usize))
    } else {
        (BulkPhase::Saving, Onward::Save(run.session()))
    }
}

/// The run after the member at `i` was resynced: a change is tallied, a miss is queued
/// in roster order, and nothing else leaves a mark.
pub open spec fn applied(run: BulkRunView, i: int, outcome: ResyncOutcome) -> BulkRunView {
    match outcome {
        ResyncOutcome::Changed(role) => BulkRunView { tally: run.tally.bump(role), ..run },
        ResyncOutcome::Miss { .. } => BulkRunView {
            queue: run.queue.push(
                BulkMissView {
                    discord_user_id: run.members[i].id,
                    handle: Some(run.members[i].handle),
                    position: run.queue.len() as u64,
                    state: MissState::Pending,
                },
            ),
            ..run
        },
        _ => run,
    }
}

/// Begin the apply loop.
pub open spec fn begin_apply(run: BulkRunView, at: i64) -> (BulkRunView, BulkActionView) {
    let cleared = BulkRunView {
        confirmed_at: at,
        queue: Seq::empty(),
        tally: RoleTally::zero(),
        ..run
    };
    let (phase, onward) = onward_from(cleared, 0);
    (
        BulkRunView { phase, ..cleared },
        BulkActionView::Advance {
            progress: Some(progress_view(0, run.members.len() as int)),
            pause: false,
            onward,
        },
    )
}

/// Go on after one applied member.
pub open spec fn apply_next(run: BulkRunView, i: int, outcome: ResyncOutcome) -> (
    BulkRunView,
    BulkActionView,
) {
    let after = applied(run, i, outcome);
    let (phase, onward) = onward_from(after, i + 1);
    (
        BulkRunView { phase, ..after },
        BulkActionView::Advance {
            progress: if i % (PROGRESS_EVERY as int) == 0 {
                Some(progress_view(i + 1, run.members.len() as int))
            } else {
                None
            },
            pause: wrote(outcome),
            onward,
        },
    )
}

/// A run, one event at a time.
pub open spec fn bulk_next(run: BulkRunView, event: BulkEventView) -> (BulkRunView, BulkActionView) {
    let done = BulkRunView { phase: BulkPhase::Done, ..run };
    let sweep = BulkRunView { phase: BulkPhase::Enumerating, ..run };
    match (run.phase, event) {
        (BulkPhase::Done, _) => (run, BulkActionView::Ignore),
        (_, BulkEventView::Broke) => (done, BulkActionView::Fail),
        (BulkPhase::Start, BulkEventView::Invoked { is_moderator, roles_configured }) => if !is_moderator {
            (done, BulkActionView::Reply(MODERATORS_ONLY@))
        } else if !roles_configured {
            (done, BulkActionView::Reply(ROLES_NOT_CONFIGURED@))
        } else {
            (BulkRunView { phase: BulkPhase::Loading, ..run }, BulkActionView::LoadSession)
        },
        (BulkPhase::Loading, BulkEventView::Loaded(found)) => match found {
            Some(s) if s.status == BulkStatus::InProgress => if s.stale {
                (
                    BulkRunView { phase: BulkPhase::DroppingStale, ..run },
                    BulkActionView::AbandonSession,
                )
            } else {
                (BulkRunView { phase: BulkPhase::Counting(s), ..run }, BulkActionView::CountMisses)
            },
            _ => (
                sweep,
                BulkActionView::Sweep {
                    reuse_message: false,
                    embed: progress_view(0, 0),
                    scope: run.scope,
                },
            ),
        },
        (BulkPhase::DroppingStale, BulkEventView::Abandoned) => (
            sweep,
            BulkActionView::Sweep {
                reuse_message: false,
                embed: progress_view(0, 0),
                scope: run.scope,
            },
        ),
        (BulkPhase::Counting(s), BulkEventView::Counted(counts)) => (
            BulkRunView { phase: BulkPhase::Offering, ..run },
            BulkActionView::Offer(resume_view(s.scope, s.started_by, counts), offer_buttons()),
        ),
        (BulkPhase::Offering, BulkEventView::Idle) => (done, BulkActionView::Stop),
        (BulkPhase::Offering, BulkEventView::Pressed { id, at: _ }) => if id == CANCEL_BUTTON_ID@ {
            (done, BulkActionView::Say(CANCELLED@))
        } else if id == START_OVER_BUTTON_ID@ {
            (
                BulkRunView { phase: BulkPhase::Restarting, ..run },
                BulkActionView::AbandonSession,
            )
        } else {
            (
                done,
                BulkActionView::EnterWizard {
                    progress: Some(progress_view(0, 0)),
                    assigned: Seq::empty(),
                },
            )
        },
        (BulkPhase::Restarting, BulkEventView::Abandoned) => (
            sweep,
            BulkActionView::Sweep {
                reuse_message: true,
                embed: progress_view(0, 0),
                scope: run.scope,
            },
        ),
        (BulkPhase::Enumerating, BulkEventView::Enumerated(None)) => (
            done,
            BulkActionView::Say(ROSTER_FAILED@),
        ),
        (BulkPhase::Enumerating, BulkEventView::Enumerated(Some(members))) => (
            BulkRunView { phase: BulkPhase::Previewing, members, ..run },
            BulkActionView::Preview,
        ),
        (BulkPhase::Previewing, BulkEventView::Previewed(tally)) => (
            BulkRunView { phase: BulkPhase::Confirming, ..run },
            BulkActionView::Confirm(preview_view(run.scope, tally), confirm_buttons()),
        ),
        (BulkPhase::Confirming, BulkEventView::Idle) => (done, BulkActionView::Stop),
        (BulkPhase::Confirming, BulkEventView::Pressed { id, at }) => if id
            == PREVIEW_CANCEL_BUTTON_ID@ {
            (done, BulkActionView::Say(CANCELLED@))
        } else {
            begin_apply(run, at)
        },
        (BulkPhase::Applying(i), BulkEventView::Resynced(outcome)) => apply_next(
            run,
            i as int,
            outcome,
        ),
        (BulkPhase::Saving, BulkEventView::Saved) => (
            done,
            BulkActionView::EnterWizard { progress: None, assigned: run.tally.rows_view() },
        ),
        _ => (run, BulkActionView::Ignore),
    }
}

impl BulkRun {
    /// A run that has not begun. Without a choice, only unmanaged members are swept.
    pub fn new(guild: DiscordGuildId, invoker: DiscordUserId, choice: Option<ScopeChoice>) -> (r:
        BulkRun)
        ensures
            r@.wf(),
            r@.phase == BulkPhase::Start,
            r@.guild == guild,
            r@.invoker == invoker,
            r@.scope == (match choice {
                Some(c) => scope_of(c),
                None => BulkScope::UnmanagedOnly,
            }),
            r@.members.len() == 0,
            r@.queue.len() == 0,
            r@.tally == RoleTally::zero(),
    {
        let scope = match choice {
            Some(c) => BulkScope::from(c),
            None => BulkScope::UnmanagedOnly,
        };
        BulkRun {
            guild,
            invoker,
            scope,
            phase: BulkPhase::Start,
            confirmed_at: 0,
            members: Vec::new(),
            queue: Vec::new(),
            tally: RoleTally { member: 0, dues_expired: 0, unverified: 0 },
        }
    }

    fn session(&self) -> (r: BulkSession)
        ensures
            r == self@.session(),
    {
        BulkSession {
            guild: self.guild,
            scope: self.scope,
            status: BulkStatus::InProgress,
            started_by: self.invoker,
            created_at: self.confirmed_at,
            updated_at: self.confirmed_at,
        }
    }

    fn onward(&mut self, i: usize) -> (r: Onward)
        ensures
            final(self)@ == (BulkRunView { phase: onward_from(old(self)@, i as int).0, ..old(self)@ }),
            r == onward_from(old(self)@, i as int).1,
    {
        if i < self.members.len() {
            self.phase = BulkPhase::Applying(i);
            Onward::Resync(i)
        } else {
            let session = self.session();
            self.phase = BulkPhase::Saving;
            Onward::Save(session)
        }
    }

    fn begin_apply(&mut self, at: i64) -> (r: BulkAction)
        ensures
            (final(self)@, r@) == begin_apply(old(self)@, at),
            final(self)@.wf(),
    {
        self.confirmed_at = at;
        self.queue = Vec::new();
        self.tally = RoleTally { member: 0, dues_expired: 0, unverified: 0 };
        assert(self@.queue =~= Seq::<BulkMissView>::empty());
        let embed = progress_embed(0, self.members.len());
        let onward = self.onward(0);
        BulkAction::Advance { progress: Some(embed), pause: false, onward }
    }

    fn apply(&mut self, i: usize, outcome: ResyncOutcome) -> (r: BulkAction)
        requires
            old(self)@.wf(),
            old(self)@.phase == BulkPhase::Applying(i),
        ensures
            (final(self)@, r@) == apply_next(old(self)@, i as int, outcome),
            final(self)@.wf(),
    {
        let total: usize = self.members.len();
        let pause = match outcome {
            ResyncOutcome::Changed(role) => {
                match role {
                    Role::Member => {
                        self.tally.member += 1;
                    },
                    Role::DuesExpired => {
                        self.tally.dues_expired += 1;
                    },
                    Role::Unverified => {
                        self.tally.unverified += 1;
                    },
                }
                true
            },
            ResyncOutcome::Miss { already_unverified } => {
                let miss = BulkMiss {
                    discord_user_id: self.members[i].id,
                    handle: Some(self.members[i].handle.clone()),
                    position: self.queue.len() as u64,
                    state: MissState::Pending,
                };
                let ghost before = self@.queue;
                self.queue.push(miss);
                assert(self@.queue =~= before.push(miss@));
                !already_unverified
            },
            _ => false,
        };
        let progress = if i % PROGRESS_EVERY == 0 {
            Some(progress_embed(i + 1, total))
        } else {
            None
        };
        let onward = self.onward(i + 1);
        BulkAction::Advance { progress, pause, onward }
    }
}

fn offer(session: FoundSession, counts: MissCounts) -> (r: BulkAction)
    ensures
        r@ == BulkActionView::Offer(
            resume_view(session.scope, session.started_by, counts),
            offer_buttons(),
        ),
{
    let row = Row::Buttons(
        vec![
            press(RESUME_BUTTON_ID, "Resume", Style::Primary),
            press(START_OVER_BUTTON_ID, "Start over", Style::Secondary),
            press(CANCEL_BUTTON_ID, "Cancel", Style::Secondary),
        ],
    );
    proof {
        if let (RowView::Buttons(a), RowView::Buttons(b)) = (row@, offer_buttons()) {
            assert(a =~= b);
        }
    }
    BulkAction::Offer(resume_embed(session.scope, session.started_by, counts), row)
}

fn confirm(scope: BulkScope, tally: &PreviewTally) -> (r: BulkAction)
    ensures
        r@ == BulkActionView::Confirm(preview_view(scope, *tally), confirm_buttons()),
{
    let row = Row::Buttons(
        vec![
            press(APPLY_BUTTON_ID, "Apply and continue", Style::Primary),
            press(PREVIEW_CANCEL_BUTTON_ID, "Cancel", Style::Secondary),
        ],
    );
    proof {
        if let (RowView::Buttons(a), RowView::Buttons(b)) = (row@, confirm_buttons()) {
            assert(a =~= b);
        }
    }
    BulkAction::Confirm(preview_embed(scope, tally), row)
}

fn sweep(run: &mut BulkRun, reuse_message: bool) -> (r: BulkAction)
    ensures
        final(run)@ == (BulkRunView { phase: BulkPhase::Enumerating, ..old(run)@ }),
        r@ == (BulkActionView::Sweep {
            reuse_message,
            embed: progress_view(0, 0),
            scope: old(run)@.scope,
        }),
{
    run.phase = BulkPhase::Enumerating;
    BulkAction::Sweep { reuse_message, embed: progress_embed(0, 0), scope: run.scope }
}

/// Sweep the server roster and queue the unmatched members. Moderators only.
pub fn bulk_verify(run: &mut BulkRun, event: BulkEvent) -> (r: BulkAction)
    requires
        old(run)@.wf(),
    ensures
        (final(run)@, r@) == bulk_next(old(run)@, event@),
        final(run)@.wf(),
{
    match (run.phase, event) {
        (BulkPhase::Done, _) => BulkAction::Ignore,
        (_, BulkEvent::Broke) => {
            run.phase = BulkPhase::Done;
            BulkAction::Fail
        },
        (BulkPhase::Start, BulkEvent::Invoked { is_moderator, roles_configured }) => {
            if !is_moderator {
                run.phase = BulkPhase::Done;
                BulkAction::Reply(MODERATORS_ONLY.to_owned())
            } else if !roles_configured {
                run.phase = BulkPhase::Done;
                BulkAction::Reply(ROLES_NOT_CONFIGURED.to_owned())
            } else {
                run.phase = BulkPhase::Loading;
                BulkAction::LoadSession
            }
        },
        (BulkPhase::Loading, BulkEvent::Loaded(found)) => match found {
            Some(s) if matches!(s.status, BulkStatus::InProgress) => {
                if s.stale {
                    run.phase = BulkPhase::DroppingStale;
                    BulkAction::AbandonSession
                } else {
                    run.phase = BulkPhase::Counting(s);
                    BulkAction::CountMisses
                }
            },
            _ => sweep(run, false),
        },
        (BulkPhase::DroppingStale, BulkEvent::Abandoned) => sweep(run, false),
        (BulkPhase::Counting(s), BulkEvent::Counted(counts)) => {
            run.phase = BulkPhase::Offering;
            offer(s, counts)
        },
        (BulkPhase::Offering, BulkEvent::Idle) => {
            run.phase = BulkPhase::Done;
            BulkAction::Stop
        },
        (BulkPhase::Offering, BulkEvent::Pressed { id, at: _ }) => {
            if same(id.as_str(), CANCEL_BUTTON_ID) {
                run.phase = BulkPhase::Done;
                BulkAction::Say(CANCELLED.to_owned())
            } else if same(id.as_str(), START_OVER_BUTTON_ID) {
                run.phase = BulkPhase::Restarting;
                BulkAction::AbandonSession
            } else {
                run.phase = BulkPhase::Done;
                BulkAction::EnterWizard {
                    progress: Some(progress_embed(0, 0)),
                    assigned: Vec::new(),
                }
            }
        },
        (BulkPhase::Restarting, BulkEvent::Abandoned) => sweep(run, true),
        (BulkPhase::Enumerating, BulkEvent::Enumerated(found)) => match found {
            None => {
                run.phase = BulkPhase::Done;
                BulkAction::Say(ROSTER_FAILED.to_owned())
            },
            Some(members) => {
                run.members = members;
                run.phase = BulkPhase::Previewing;
                BulkAction::Preview
            },
        },
        (BulkPhase::Previewing, BulkEvent::Previewed(tally)) => {
            run.phase = BulkPhase::Confirming;
            confirm(run.scope, &tally)
        },
        (BulkPhase::Confirming, BulkEvent::Idle) => {
            run.phase = BulkPhase::Done;
            BulkAction::Stop
        },
        (BulkPhase::Confirming, BulkEvent::Pressed { id, at }) => {
            if same(id.as_str(), PREVIEW_CANCEL_BUTTON_ID) {
                run.phase = BulkPhase::Done;
                BulkAction::Say(CANCELLED.to_owned())
            } else {
                run.begin_apply(at)
            }
        },
        (BulkPhase::Applying(i), BulkEvent::Resynced(outcome)) => run.apply(i, outcome),
        (BulkPhase::Saving, BulkEvent::Saved) => {
            run.phase = BulkPhase::Done;
            BulkAction::EnterWizard { progress: None, assigned: run.tally.rows() }
        },
        _ => BulkAction::Ignore,
    }
}

/// The queue a roster with these outcomes leaves: its misses, in roster order.
pub open spec fn missed(members: Seq<BulkMemberView>, outcomes: Seq<ResyncOutcome>) -> Seq<
    BulkMissView,
>
    decreases outcomes.len(),
{
    if outcomes.len() == 0 {
        Seq::empty()
    } else {
        let before = missed(members, outcomes.drop_last());
        match outcomes.last() {
            ResyncOutcome::Miss { .. } => before.push(
                BulkMissView {
                    discord_user_id: members[outcomes.len() - 1].id,
                    handle: Some(members[outcomes.len() - 1].handle),
                    position: before.len() as u64,
                    state: MissState::Pending,
                },
            ),
            _ => before,
        }
    }
}

/// How many outcomes moved a member into `role`.
pub open spec fn moved(outcomes: Seq<ResyncOutcome>, role: Role) -> nat
    decreases outcomes.len(),
{
    if outcomes.len() == 0 {
        0
    } else {
        moved(outcomes.drop_last(), role) + if outcomes.last() == ResyncOutcome::Changed(role) {
            1nat
        } else {
            0nat
        }
    }
}

/// A run replayed over the outcomes of its members.
pub open spec fn applied_run(run: BulkRunView, outcomes: Seq<ResyncOutcome>) -> BulkRunView
    decreases outcomes.len(),
{
    if outcomes.len() == 0 {
        run
    } else {
        bulk_next(
            applied_run(run, outcomes.drop_last()),
            BulkEventView::Resynced(outcomes.last()),
        ).0
    }
}

/// Once confirmed, every member is resynced exactly once, whatever came back for the
/// others; the queue holds exactly the misses in roster order, and the tally counts
/// exactly the changes.
pub proof fn law_apply_covers_the_roster(
    run: BulkRunView,
    at: i64,
    outcomes: Seq<ResyncOutcome>,
)
    requires
        run.members.len() <= usize::MAX,
        outcomes.len() <= run.members.len(),
    ensures
        ({
            let end = applied_run(begin_apply(run, at).0, outcomes);
            &&& end.queue == missed(run.members, outcomes)
            &&& forall|role: Role| end.tally.count(role) == #[trigger] moved(outcomes, role)
            &&& end.members == run.members
            &&& outcomes.len() < run.members.len() ==> end.phase == BulkPhase::Applying(
                outcomes.len() as usize,
            )
            &&& outcomes.len() == run.members.len() ==> end.phase == BulkPhase::Saving
        }),
    decreases outcomes.len(),
{
    if outcomes.len() > 0 {
        let before = outcomes.drop_last();
        law_apply_covers_the_roster(run, at, before);
        lemma_counts_fit(run.members, before);
        let mid = applied_run(begin_apply(run, at).0, before);
        let end = applied_run(begin_apply(run, at).0, outcomes);
        assert forall|role: Role| end.tally.count(role) == #[trigger] moved(outcomes, role) by {
            assert(mid.tally.count(role) == moved(before, role));
            assert(moved(before, role) <= before.len());
        }
    }
}

proof fn lemma_counts_fit(members: Seq<BulkMemberView>, outcomes: Seq<ResyncOutcome>)
    ensures
        missed(members, outcomes).len() <= outcomes.len(),
        forall|role: Role| #[trigger] moved(outcomes, role) <= outcomes.len(),
    decreases outcomes.len(),
{
    if outcomes.len() > 0 {
        lemma_counts_fit(members, outcomes.drop_last());
        assert forall|role: Role| #[trigger] moved(outcomes, role) <= outcomes.len() by {
            assert(moved(outcomes.drop_last(), role) <= outcomes.drop_last().len());
        }
    }
}

/// No member is touched and no session is saved until the moderator has confirmed the
/// preview; a cancel or a timeout there only ends the run.
pub proof fn law_no_write_before_confirmation(run: BulkRunView, event: BulkEventView)
    requires
        !(run.phase is Applying),
        run.phase != BulkPhase::Saving,
    ensures
        bulk_next(run, event).1 is Advance ==> {
            &&& run.phase == BulkPhase::Confirming
            &&& event matches BulkEventView::Pressed { id, at }
            &&& id != PREVIEW_CANCEL_BUTTON_ID@
        },
{
}

/// An earlier session is discarded only when it is stale or the moderator asked to start
/// over.
pub proof fn law_sessions_are_kept(run: BulkRunView, event: BulkEventView)
    ensures
        bulk_next(run, event).1 == BulkActionView::AbandonSession ==> {
            ||| event matches BulkEventView::Loaded(Some(s)) && s.stale
            ||| event matches BulkEventView::Pressed { id, at } && id == START_OVER_BUTTON_ID@
        },
{
}

/// A non-moderator's run ends at once.
pub proof fn law_bulk_verify_is_for_moderators(run: BulkRunView, roles_configured: bool)
    requires
        run.phase == BulkPhase::Start,
    ensures
        bulk_next(run, BulkEventView::Invoked { is_moderator: false, roles_configured }) == (
            BulkRunView { phase: BulkPhase::Done, ..run },
            BulkActionView::Reply(MODERATORS_ONLY@),
        ),
{
}

/// Where the walk through the queue stands.
#[derive(Debug, Clone, Copy, PartialEq, Eq, Structural)]
pub enum WizardPhase {
    /// Counting the queue on entry.
    Entering,
    /// Asking for the next pending member.
    Next,
    /// Checking whether this member is still here and still unmanaged.
    Checking(DiscordUserId, u64),
    /// Fetching this member for display.
    Fetching(DiscordUserId, u64),
    /// The exchange about this member is running.
    Stepping(DiscordUserId),
    /// Persisting a decision.
    Marking,
    /// Closing the session.
    Completing,
    /// Counting for the summary.
    Summing,
    /// Over.
    Done,
}

/// A walk through the queue.
#[derive(Debug, Clone, PartialEq, Eq)]
pub struct WizardRun {
    pub phase: WizardPhase,
    /// The depth of the queue on entry.
    pub total: u64,
    /// What the apply pass assigned, for the summary.
    pub assigned: Vec<(Role, usize)>,
}

/// A [`WizardRun`] over its contents.
#[verifier::ext_equal]
pub struct WizardRunView {
    pub phase: WizardPhase,
    pub total: u64,
    pub assigned: Seq<(Role, usize)>,
}

impl View for WizardRun {
    type V = WizardRunView;

    open spec fn view(&self) -> WizardRunView {
        WizardRunView { phase: self.phase, total: self.total, assigned: self.assigned@ }
    }
}

/// What just happened to a walk.
#[derive(Debug, Clone, PartialEq, Eq)]
pub enum WizardEvent {
    /// What the queue holds.
    Counted(MissCounts),
    /// The next pending member and their position, if any is left.
    Found(Option<(DiscordUserId, u64)>),
    /// The member's roles were read: whether they are still to be reviewed.
    Alive { still_pending: bool },
    /// The member could not be read; the HTTP status, where there was one.
    Unreadable(Option<u16>),
    /// The member, for display.
    Fetched(TargetCard),
    /// The exchange ended, with the wizard control that was pressed, if one was.
    Stepped(StepOutcome, Option<String>),
    /// The decision was persisted.
    Marked,
    /// The session was closed.
    Completed,
    /// A step the walk cannot go on without failed.
    Broke,
}

/// A [`WizardEvent`] over characters.
pub enum WizardEventView {
    Counted(MissCounts),
    Found(Option<(DiscordUserId, u64)>),
    Alive { still_pending: bool },
    Unreadable(Option<u16>),
    Fetched(TargetCard),
    Stepped(StepOutcome, Option<Seq<char>>),
    Marked,
    Completed,
    Broke,
}

impl View for WizardEvent {
    type V = WizardEventView;

    open spec fn view(&self) -> WizardEventView {
        match self {
            WizardEvent::Counted(c) => WizardEventView::Counted(*c),
            WizardEvent::Found(m) => WizardEventView::Found(*m),
            WizardEvent::Alive { still_pending } => WizardEventView::Alive {
                still_pending: *still_pending,
            },
            WizardEvent::Unreadable(s) => WizardEventView::Unreadable(*s),
            WizardEvent::Fetched(t) => WizardEventView::Fetched(*t),
            WizardEvent::Stepped(o, p) => WizardEventView::Stepped(*o, opt_view(*p)),
            WizardEvent::Marked => WizardEventView::Marked,
            WizardEvent::Completed => WizardEventView::Completed,
            WizardEvent::Broke => WizardEventView::Broke,
        }
    }
}

/// What a walk does next.
#[derive(Debug, Clone, PartialEq, Eq)]
pub enum WizardAction {
    /// Count the queue.
    CountMisses,
    /// Ask for the next pending member.
    NextPending,
    /// Read this member's roles.
    CheckMember(DiscordUserId),
    /// Fetch this member for display.
    FetchMember(DiscordUserId),
    /// Show the member on the host message and run the exchange with the wizard's own
    /// controls beside it.
    RunStep { embed: Embed, row: Row, extra_buttons: Vec<Button> },
    /// Persist the decision on this member, acknowledging the pressed control first where
    /// one was pressed.
    Mark { user: DiscordUserId, state: MissState, acknowledge: bool },
    /// Close the session.
    CompleteSession,
    /// Show the summary and stop.
    Summarize(Embed),
    /// Stop; the session stays resumable. The pressed control is acknowledged first where
    /// one was pressed.
    Pause { acknowledge: bool },
    /// Stop and report the failure.
    Fail,
    /// Nothing: the event does not belong to this phase.
    Ignore,
}

/// A [`WizardAction`] over characters.
pub enum WizardActionView {
    CountMisses,
    NextPending,
    CheckMember(DiscordUserId),
    FetchMember(DiscordUserId),
    RunStep { embed: EmbedView, row: RowView, extra_buttons: Seq<ButtonView> },
    Mark { user: DiscordUserId, state: MissState, acknowledge: bool },
    CompleteSession,
    Summarize(EmbedView),
    Pause { acknowledge: bool },
    Fail,
    Ignore,
}

impl View for WizardAction {
    type V = WizardActionView;

    open spec fn view(&self) -> WizardActionView {
        match self {
            WizardAction::CountMisses => WizardActionView::CountMisses,
            WizardAction::NextPending => WizardActionView::NextPending,
            WizardAction::CheckMember(u) => WizardActionView::CheckMember(*u),
            WizardAction::FetchMember(u) => WizardActionView::FetchMember(*u),
            WizardAction::RunStep { embed, row, extra_buttons } => WizardActionView::RunStep {
                embed: embed@,
                row: row@,
                extra_buttons: button_views(extra_buttons@),
            },
            WizardAction::Mark { user, state, acknowledge } => WizardActionView::Mark {
                user: *user,
                state: *state,
                acknowledge: *acknowledge,
            },
            WizardAction::CompleteSession => WizardActionView::CompleteSession,
            WizardAction::Summarize(e) => WizardActionView::Summarize(e@),
            WizardAction::Pause { acknowledge } => WizardActionView::Pause {
                acknowledge: *acknowledge,
            },
            WizardAction::Fail => WizardActionView::Fail,
            WizardAction::Ignore => WizardActionView::Ignore,
        }
    }
}

/// Whether an HTTP status says the member left the guild.
pub open spec fn not_found_status(status: Option<u16>) -> bool {
    status == Some(404u16)
}

/// Whether a failed read means the member is not found: an HTTP 404.
pub fn is_not_found(status: Option<u16>) -> (r: bool)
    ensures
        r == not_found_status(status),
{
    match status {
        Some(code) => code == 404,
        None => false,
    }
}

/// The wizard's own controls.
pub open spec fn wizard_controls() -> Seq<ButtonView> {
    seq![
        press_view(SKIP_BUTTON_ID@, "Skip"@, Style::Secondary),
        press_view(STOP_BUTTON_ID@, "Stop"@, Style::Secondary),
    ]
}

/// The controls under a wizard card: the lookup button, then the wizard's own.
pub open spec fn wizard_row() -> RowView {
    RowView::Buttons(
        seq![press_view(LOOKUP_BUTTON_ID@, "Look up by email"@, Style::Primary)]
            + wizard_controls(),
    )
}

/// A queue position as shown, counting from one.
pub open spec fn shown_position(position: u64) -> int {
    if position == u64::MAX {
        position as int
    } else {
        position + 1
    }
}

/// The decision a finished exchange comes to: persist this state, or pause.
pub open spec fn decision(outcome: StepOutcome, pressed: Option<Seq<char>>) -> Option<MissState> {
    match outcome {
        StepOutcome::Verified(_) | StepOutcome::Overridden => Some(MissState::Verified),
        StepOutcome::NotFoundExhausted => if pressed == Some(STOP_BUTTON_ID@) {
            None
        } else {
            Some(MissState::Skipped)
        },
        StepOutcome::Expired => None,
        StepOutcome::Conflict | StepOutcome::Errored => Some(MissState::Skipped),
    }
}

/// A walk, one event at a time.
pub open spec fn wizard_next(run: WizardRunView, event: WizardEventView) -> (
    WizardRunView,
    WizardActionView,
) {
    let done = WizardRunView { phase: WizardPhase::Done, ..run };
    let marking = WizardRunView { phase: WizardPhase::Marking, ..run };
    match (run.phase, event) {
        (WizardPhase::Done, _) => (run, WizardActionView::Ignore),
        (_, WizardEventView::Broke) => (done, WizardActionView::Fail),
        (WizardPhase::Entering, WizardEventView::Counted(c)) => (
            WizardRunView {
                phase: WizardPhase::Next,
                total: (c.pending + c.verified + c.skipped) as u64,
                ..run
            },
            WizardActionView::NextPending,
        ),
        (WizardPhase::Next, WizardEventView::Found(None)) => (
            WizardRunView { phase: WizardPhase::Completing, ..run },
            WizardActionView::CompleteSession,
        ),
        (WizardPhase::Next, WizardEventView::Found(Some((user, position)))) => (
            WizardRunView { phase: WizardPhase::Checking(user, position), ..run },
            WizardActionView::CheckMember(user),
        ),
        (WizardPhase::Checking(user, position), WizardEventView::Alive { still_pending }) => if still_pending {
            (
                WizardRunView { phase: WizardPhase::Fetching(user, position), ..run },
                WizardActionView::FetchMember(user),
            )
        } else {
            (
                marking,
                WizardActionView::Mark { user, state: MissState::Skipped, acknowledge: false },
            )
        },
        (WizardPhase::Checking(user, _), WizardEventView::Unreadable(status))
        | (WizardPhase::Fetching(user, _), WizardEventView::Unreadable(status)) => if not_found_status(
            status,
        ) {
            (
                marking,
                WizardActionView::Mark { user, state: MissState::Skipped, acknowledge: false },
            )
        } else {
            (done, WizardActionView::Pause { acknowledge: false })
        },
        (WizardPhase::Fetching(user, position), WizardEventView::Fetched(target)) => (
            WizardRunView { phase: WizardPhase::Stepping(user), ..run },
            WizardActionView::RunStep {
                embed: wizard_view(
                    target.display@,
                    target.handle@,
                    target.avatar@,
                    shown_position(position),
                    run.total as int,
                ),
                row: wizard_row(),
                extra_buttons: wizard_controls(),
            },
        ),
        (WizardPhase::Stepping(user), WizardEventView::Stepped(outcome, pressed)) => match decision(
            outcome,
            pressed,
        ) {
            Some(state) => (
                marking,
                WizardActionView::Mark {
                    user,
                    state,
                    acknowledge: outcome == StepOutcome::NotFoundExhausted && pressed is Some,
                },
            ),
            None => (
                done,
                WizardActionView::Pause {
                    acknowledge: outcome == StepOutcome::NotFoundExhausted,
                },
            ),
        },
        (WizardPhase::Marking, WizardEventView::Marked) => (
            WizardRunView { phase: WizardPhase::Next, ..run },
            WizardActionView::NextPending,
        ),
        (WizardPhase::Completing, WizardEventView::Completed) => (
            WizardRunView { phase: WizardPhase::Summing, ..run },
            WizardActionView::CountMisses,
        ),
        (WizardPhase::Summing, WizardEventView::Counted(counts)) => (
            done,
            WizardActionView::Summarize(summary_view(run.assigned, counts)),
        ),
        _ => (run, WizardActionView::Ignore),
    }
}

impl WizardRun {
    /// A walk about to begin: the first thing it needs is the queue's depth.
    pub fn new(assigned: Vec<(Role, usize)>) -> (r: WizardRun)
        ensures
            r@ == (WizardRunView {
                phase: WizardPhase::Entering,
                total: 0,
                assigned: assigned@,
            }),
    {
        WizardRun { phase: WizardPhase::Entering, total: 0, assigned }
    }
}

fn wizard_step(target: &TargetCard, position: u64, total: u64) -> (r: WizardAction)
    ensures
        r@ == (WizardActionView::RunStep {
            embed: wizard_view(
                target.display@,
                target.handle@,
                target.avatar@,
                shown_position(position),
                total as int,
            ),
            row: wizard_row(),
            extra_buttons: wizard_controls(),
        }),
{
    let shown: u64 = if position == u64::MAX {
        position
    } else {
        position + 1
    };
    let embed = wizard_embed(
        target.display.as_str(),
        target.handle.as_str(),
        target.avatar.as_str(),
        shown,
        total,
    );
    let skip = press(SKIP_BUTTON_ID, "Skip", Style::Secondary);
    let stop = press(STOP_BUTTON_ID, "Stop", Style::Secondary);
    let buttons = vec![
        press(LOOKUP_BUTTON_ID, "Look up by email", Style::Primary),
        skip.copy(),
        stop.copy(),
    ];
    let extra_buttons = vec![skip, stop];
    assert(button_views(extra_buttons@) =~= wizard_controls());
    assert(button_views(buttons@) =~= seq![
        press_view(LOOKUP_BUTTON_ID@, "Look up by email"@, Style::Primary),
    ] + wizard_controls());
    WizardAction::RunStep { embed, row: Row::Buttons(buttons), extra_buttons }
}

fn decide(outcome: StepOutcome, pressed: &Option<String>) -> (r: Option<MissState>)
    ensures
        r == decision(outcome, opt_view(*pressed)),
{
    match outcome {
        StepOutcome::Verified(_) | StepOutcome::Overridden => Some(MissState::Verified),
        StepOutcome::NotFoundExhausted => {
            if let Some(id) = pressed {
                if same(id.as_str(), STOP_BUTTON_ID) {
                    return None;
                }
            }
            Some(MissState::Skipped)
        },
        StepOutcome::Expired => None,
        StepOutcome::Conflict | StepOutcome::Errored => Some(MissState::Skipped),
    }
}

/// Walk through each pending miss, letting the moderator verify, skip or stop. When none
/// is left, the session is closed and summed up.
pub fn run_wizard(run: &mut WizardRun, event: WizardEvent) -> (r: WizardAction)
    ensures
        (final(run)@, r@) == wizard_next(old(run)@, event@),
{
    match (run.phase, event) {
        (WizardPhase::Done, _) => WizardAction::Ignore,
        (_, WizardEvent::Broke) => {
            run.phase = WizardPhase::Done;
            WizardAction::Fail
        },
        (WizardPhase::Entering, WizardEvent::Counted(c)) => {
            run.total = c.pending as u64 + c.verified as u64 + c.skipped as u64;
            run.phase = WizardPhase::Next;
            WizardAction::NextPending
        },
        (WizardPhase::Next, WizardEvent::Found(None)) => {
            run.phase = WizardPhase::Completing;
            WizardAction::CompleteSession
        },
        (WizardPhase::Next, WizardEvent::Found(Some((user, position)))) => {
            run.phase = WizardPhase::Checking(user, position);
            WizardAction::CheckMember(user)
        },
        (WizardPhase::Checking(user, position), WizardEvent::Alive { still_pending }) => {
            if still_pending {
                run.phase = WizardPhase::Fetching(user, position);
                WizardAction::FetchMember(user)
            } else {
                run.phase = WizardPhase::Marking;
                WizardAction::Mark { user, state: MissState::Skipped, acknowledge: false }
            }
        },
        (WizardPhase::Checking(user, _), WizardEvent::Unreadable(status))
        | (WizardPhase::Fetching(user, _), WizardEvent::Unreadable(status)) => {
            if is_not_found(status) {
                run.phase = WizardPhase::Marking;
                WizardAction::Mark { user, state: MissState::Skipped, acknowledge: false }
            } else {
                run.phase = WizardPhase::Done;
                WizardAction::Pause { acknowledge: false }
            }
        },
        (WizardPhase::Fetching(user, position), WizardEvent::Fetched(target)) => {
            run.phase = WizardPhase::Stepping(user);
            wizard_step(&target, position, run.total)
        },
        (WizardPhase::Stepping(user), WizardEvent::Stepped(outcome, pressed)) => {
            let exhausted = matches!(outcome, StepOutcome::NotFoundExhausted);
            match decide(outcome, &pressed) {
                Some(state) => {
                    run.phase = WizardPhase::Marking;
                    WizardAction::Mark { user, state, acknowledge: exhausted && pressed.is_some() }
                },
                None => {
                    run.phase = WizardPhase::Done;
                    WizardAction::Pause { acknowledge: exhausted }
                },
            }
        },
        (WizardPhase::Marking, WizardEvent::Marked) => {
            run.phase = WizardPhase::Next;
            WizardAction::NextPending
        },
        (WizardPhase::Completing, WizardEvent::Completed) => {
            run.phase = WizardPhase::Summing;
            WizardAction::CountMisses
        },
        (WizardPhase::Summing, WizardEvent::Counted(counts)) => {
            run.phase = WizardPhase::Done;
            WizardAction::Summarize(summary_embed(&run.assigned, counts))
        },
        _ => WizardAction::Ignore,
    }
}

/// A member counts as verified only when the exchange reported a match or a hand
/// approval; every other decision leaves them skipped or still pending.
pub proof fn law_verified_is_earned(run: WizardRunView, event: WizardEventView)
    ensures
        wizard_next(run, event).1 matches WizardActionView::Mark { user, state, acknowledge }
            && state == MissState::Verified ==> {
            ||| event matches WizardEventView::Stepped(StepOutcome::Verified(role), p)
            ||| event matches WizardEventView::Stepped(StepOutcome::Overridden, p)
        },
{
}

/// The session is closed only once no pending member is left; a pause, a timeout or a
/// transient error keeps it resumable.
pub proof fn law_completion_needs_an_empty_queue(run: WizardRunView, event: WizardEventView)
    ensures
        wizard_next(run, event).1 == WizardActionView::CompleteSession <==> run.phase
            == WizardPhase::Next && event == WizardEventView::Found(None),
{
}

/// The walk asks for the next member only after the decision on the last one was
/// persisted.
pub proof fn law_progress_is_persisted(run: WizardRunView, event: WizardEventView)
    ensures
        wizard_next(run, event).1 == WizardActionView::NextPending ==> event
            == WizardEventView::Marked || run.phase == WizardPhase::Entering,
{
}

/// The roster is swept in the scope the moderator chose, and in no other: no step of a run
/// changes its scope, its guild or who started it, and what is enumerated, previewed and
/// persisted carries them.
pub proof fn law_the_chosen_scope_is_swept(run: BulkRunView, event: BulkEventView)
    ensures
        scope_of(ScopeChoice::Unmanaged) == BulkScope::UnmanagedOnly,
        scope_of(ScopeChoice::WholeGuild) == BulkScope::WholeGuild,
        bulk_next(run, event).0.scope == run.scope,
        bulk_next(run, event).0.guild == run.guild,
        bulk_next(run, event).0.invoker == run.invoker,
        (bulk_next(run, event).1 matches BulkActionView::Sweep { reuse_message, embed, scope }
            ==> scope == run.scope),
        (bulk_next(run, event).1 matches BulkActionView::Confirm(embed, row) ==> (
        event matches BulkEventView::Previewed(tally) && embed == preview_view(run.scope, tally)
            && row == confirm_buttons())),
        (bulk_next(run, event).1 matches BulkActionView::Advance { progress, pause, onward } ==> (
        onward matches Onward::Save(session) ==> session.guild == run.guild && session.scope
            == run.scope && session.started_by == run.invoker && session.status
            == BulkStatus::InProgress && session.created_at == bulk_next(run, event).0.confirmed_at
            && session.updated_at == session.created_at)),
{
}

/// A run goes where it is told to: it sweeps unless a session that can be resumed stands in
/// the way, offers that one with its own facts, and does with it what the moderator presses.
pub proof fn law_a_run_goes_where_it_is_told(
    run: BulkRunView,
    found: FoundSession,
    counts: MissCounts,
    members: Seq<BulkMemberView>,
    id: Seq<char>,
    at: i64,
)
    ensures
        ({
            let ready = BulkEventView::Invoked { is_moderator: true, roles_configured: true };
            let bare = BulkEventView::Invoked { is_moderator: true, roles_configured: false };
            let pressed = BulkEventView::Pressed { id, at };
            let resumable = found.status == BulkStatus::InProgress;
            &&& run.phase == BulkPhase::Start ==> {
                &&& bulk_next(run, ready).1 == BulkActionView::LoadSession
                &&& bulk_next(run, ready).0.phase == BulkPhase::Loading
                &&& bulk_next(run, bare).1 == BulkActionView::Reply(ROLES_NOT_CONFIGURED@)
                &&& bulk_next(run, bare).0.phase == BulkPhase::Done
            }
            &&& run.phase == BulkPhase::Loading ==> {
                &&& bulk_next(run, BulkEventView::Loaded(None)).1 is Sweep
                &&& bulk_next(run, BulkEventView::Loaded(None)).0.phase == BulkPhase::Enumerating
                &&& !resumable ==> bulk_next(run, BulkEventView::Loaded(Some(found))).1 is Sweep
                &&& resumable && found.stale ==> bulk_next(
                    run,
                    BulkEventView::Loaded(Some(found)),
                ).1 == BulkActionView::AbandonSession
                &&& resumable && !found.stale ==> bulk_next(
                    run,
                    BulkEventView::Loaded(Some(found)),
                ) == (
                    BulkRunView { phase: BulkPhase::Counting(found), ..run },
                    BulkActionView::CountMisses,
                )
            }
            &&& run.phase == BulkPhase::DroppingStale || run.phase == BulkPhase::Restarting ==> {
                &&& bulk_next(run, BulkEventView::Abandoned).0.phase == BulkPhase::Enumerating
                &&& (bulk_next(run, BulkEventView::Abandoned).1 matches BulkActionView::Sweep {
                    reuse_message,
                    embed,
                    scope,
                } && (reuse_message <==> run.phase == BulkPhase::Restarting))
            }
            &&& run.phase == BulkPhase::Counting(found) ==> bulk_next(
                run,
                BulkEventView::Counted(counts),
            ) == (
                BulkRunView { phase: BulkPhase::Offering, ..run },
                BulkActionView::Offer(
                    resume_view(found.scope, found.started_by, counts),
                    offer_buttons(),
                ),
            )
            &&& run.phase == BulkPhase::Offering ==> {
                &&& id == CANCEL_BUTTON_ID@ ==> bulk_next(run, pressed) == (
                    BulkRunView { phase: BulkPhase::Done, ..run },
                    BulkActionView::Say(CANCELLED@),
                )
                &&& id == START_OVER_BUTTON_ID@ ==> bulk_next(run, pressed) == (
                    BulkRunView { phase: BulkPhase::Restarting, ..run },
                    BulkActionView::AbandonSession,
                )
                &&& id == RESUME_BUTTON_ID@ ==> bulk_next(run, pressed).0.phase == BulkPhase::Done
                    && (bulk_next(run, pressed).1 matches BulkActionView::EnterWizard {
                    progress,
                    assigned,
                } && assigned.len() == 0)
                &&& bulk_next(run, BulkEventView::Idle).1 == BulkActionView::Stop
            }
            &&& run.phase == BulkPhase::Enumerating ==> {
                &&& bulk_next(run, BulkEventView::Enumerated(Some(members))) == (
                    BulkRunView { phase: BulkPhase::Previewing, members, ..run },
                    BulkActionView::Preview,
                )
                &&& bulk_next(run, BulkEventView::Enumerated(None)) == (
                    BulkRunView { phase: BulkPhase::Done, ..run },
                    BulkActionView::Say(ROSTER_FAILED@),
                )
            }
            &&& run.phase == BulkPhase::Confirming ==> {
                &&& id == PREVIEW_CANCEL_BUTTON_ID@ ==> bulk_next(run, pressed) == (
                    BulkRunView { phase: BulkPhase::Done, ..run },
                    BulkActionView::Say(CANCELLED@),
                )
                &&& bulk_next(run, BulkEventView::Idle).1 == BulkActionView::Stop
                &&& bulk_next(run, BulkEventView::Idle).0.phase == BulkPhase::Done
                &&& id == APPLY_BUTTON_ID@ ==> {
                    let (next, action) = bulk_next(run, pressed);
                    &&& next.confirmed_at == at
                    &&& next.members == run.members
                    &&& next.queue.len() == 0
                    &&& next.tally.member == 0 && next.tally.dues_expired == 0
                        && next.tally.unverified == 0
                    &&& (action matches BulkActionView::Advance { progress, pause, onward } && !pause
                        && progress == Some(progress_view(0, run.members.len() as int)) && (
                    run.members.len() > 0 ==> onward == Onward::Resync(0)))
                    &&& run.members.len() > 0 ==> next.phase == BulkPhase::Applying(0)
                }
            }
            &&& run.phase == BulkPhase::Saving ==> {
                let (next, action) = bulk_next(run, BulkEventView::Saved);
                &&& next.phase == BulkPhase::Done
                &&& (action matches BulkActionView::EnterWizard { progress, assigned }
                    && assigned.len() == 3 && assigned[0] == (Role::Member, run.tally.member)
                    && assigned[1] == (Role::DuesExpired, run.tally.dues_expired) && assigned[2] == (
                    Role::Unverified,
                    run.tally.unverified,
                ))
            }
        }),
{
    reveal_strlit("bulk_cancel");
    reveal_strlit("bulk_start_over");
    reveal_strlit("bulk_resume");
    reveal_strlit("bulk_apply");
    reveal_strlit("bulk_preview_cancel");
    assert(RESUME_BUTTON_ID@[5] == 'r' && CANCEL_BUTTON_ID@[5] == 'c');
    assert(START_OVER_BUTTON_ID@[5] == 's');
    assert(APPLY_BUTTON_ID@.len() != PREVIEW_CANCEL_BUTTON_ID@.len());
}

/// One resynced member leaves exactly their own mark: a change is counted under the role it
/// came to, a miss is queued last, pending, by its id and handle, and nothing else is
/// touched. The run waits exactly after a write and goes on to the next member, or saves
/// after the last.
pub proof fn law_each_member_leaves_one_mark(run: BulkRunView, i: usize, outcome: ResyncOutcome)
    requires
        run.wf(),
        run.phase == BulkPhase::Applying(i),
        run.members.len() <= usize::MAX,
    ensures
        ({
            let (next, action) = bulk_next(run, BulkEventView::Resynced(outcome));
            &&& next.members == run.members
            &&& next.confirmed_at == run.confirmed_at
            &&& forall|role: Role| #[trigger]
                next.tally.count(role) == run.tally.count(role) + if outcome
                    == ResyncOutcome::Changed(role) {
                    1int
                } else {
                    0int
                }
            &&& outcome is Miss ==> {
                let last = next.queue.last();
                &&& next.queue.len() == run.queue.len() + 1
                &&& next.queue.drop_last() == run.queue
                &&& last.discord_user_id == run.members[i as int].id
                &&& last.handle == Some(run.members[i as int].handle)
                &&& last.position == run.queue.len()
                &&& last.state == MissState::Pending
            }
            &&& !(outcome is Miss) ==> next.queue == run.queue
            &&& (action matches BulkActionView::Advance { progress, pause, onward } && (pause <==> (
            outcome is Changed || outcome == (ResyncOutcome::Miss { already_unverified: false })))
                && (i + 1 < run.members.len() ==> onward == Onward::Resync((i + 1) as usize)) && (i
                + 1 == run.members.len() ==> onward is Save) && (progress matches Some(shown)
                ==> shown == progress_view(i + 1, run.members.len() as int)) && (i == 0
                ==> progress is Some))
            &&& i + 1 < run.members.len() ==> next.phase == BulkPhase::Applying((i + 1) as usize)
            &&& i + 1 == run.members.len() ==> next.phase == BulkPhase::Saving
        }),
{
    let next = bulk_next(run, BulkEventView::Resynced(outcome)).0;
    assert forall|role: Role| #[trigger] next.tally.count(role) == run.tally.count(role) + if outcome
        == ResyncOutcome::Changed(role) {
        1int
    } else {
        0int
    } by {
        assert(run.tally.count(role) <= i);
    }
    if outcome is Miss {
        assert(next.queue.drop_last() =~= run.queue);
    }
}

/// The walk is about the member the queue gave until a decision on that very member is
/// persisted: whoever left or was managed meanwhile is skipped, and the exchange decides
/// about the rest.
pub proof fn law_decisions_are_about_the_member_shown(
    run: WizardRunView,
    user: DiscordUserId,
    position: u64,
    target: TargetCard,
    outcome: StepOutcome,
    pressed: Option<Seq<char>>,
    status: Option<u16>,
)
    ensures
        ({
            let checking = run.phase == WizardPhase::Checking(user, position);
            let fetching = run.phase == WizardPhase::Fetching(user, position);
            let unreadable = wizard_next(run, WizardEventView::Unreadable(status));
            let skip = WizardActionView::Mark {
                user,
                state: MissState::Skipped,
                acknowledge: false,
            };
            &&& run.phase == WizardPhase::Next ==> wizard_next(
                run,
                WizardEventView::Found(Some((user, position))),
            ) == (
                WizardRunView { phase: WizardPhase::Checking(user, position), ..run },
                WizardActionView::CheckMember(user),
            )
            &&& checking ==> {
                &&& wizard_next(run, WizardEventView::Alive { still_pending: true }) == (
                    WizardRunView { phase: WizardPhase::Fetching(user, position), ..run },
                    WizardActionView::FetchMember(user),
                )
                &&& wizard_next(run, WizardEventView::Alive { still_pending: false }) == (
                    WizardRunView { phase: WizardPhase::Marking, ..run },
                    skip,
                )
            }
            &&& checking || fetching ==> {
                &&& status == Some(404u16) ==> unreadable == (
                    WizardRunView { phase: WizardPhase::Marking, ..run },
                    skip,
                )
                &&& status != Some(404u16) ==> unreadable == (
                    WizardRunView { phase: WizardPhase::Done, ..run },
                    WizardActionView::Pause { acknowledge: false },
                )
            }
            &&& fetching ==> {
                let (next, action) = wizard_next(run, WizardEventView::Fetched(target));
                &&& next == (WizardRunView { phase: WizardPhase::Stepping(user), ..run })
                &&& (action matches WizardActionView::RunStep { embed, row, extra_buttons }
                    && extra_buttons.len() == 2 && extra_buttons[0] == press_view(
                    SKIP_BUTTON_ID@,
                    "Skip"@,
                    Style::Secondary,
                ) && extra_buttons[1] == press_view(STOP_BUTTON_ID@, "Stop"@, Style::Secondary) && (
                position < u64::MAX ==> embed == wizard_view(
                    target.display@,
                    target.handle@,
                    target.avatar@,
                    position + 1,
                    run.total as int,
                )))
            }
            &&& run.phase == WizardPhase::Stepping(user) ==> {
                let (next, action) = wizard_next(run, WizardEventView::Stepped(outcome, pressed));
                let stopped = outcome is NotFoundExhausted && pressed == Some(STOP_BUTTON_ID@);
                &&& outcome is Verified || outcome is Overridden ==> (
                action matches WizardActionView::Mark { user: u, state, acknowledge } && u == user
                    && state == MissState::Verified)
                &&& outcome is Conflict || outcome is Errored || (outcome is NotFoundExhausted
                    && !stopped) ==> (action matches WizardActionView::Mark {
                    user: u,
                    state,
                    acknowledge,
                } && u == user && state == MissState::Skipped)
                &&& outcome is Expired || stopped ==> action is Pause && next.phase
                    == WizardPhase::Done
                &&& action is Mark ==> next.phase == WizardPhase::Marking
                &&& action is Mark || action is Pause
            }
        }),
{
}

/// A walk counts the whole queue on entry, takes the next member after each decision, and
/// when none is left closes the session and sums up what was assigned and what the queue
/// came to.
pub proof fn law_a_walk_ends_in_its_summary(run: WizardRunView, counts: MissCounts)
    requires
        counts.pending + counts.verified + counts.skipped <= u64::MAX,
    ensures
        run.phase == WizardPhase::Entering ==> wizard_next(run, WizardEventView::Counted(counts)) == (
            WizardRunView {
                phase: WizardPhase::Next,
                total: (counts.pending + counts.verified + counts.skipped) as u64,
                ..run
            },
            WizardActionView::NextPending,
        ),
        run.phase == WizardPhase::Marking ==> wizard_next(run, WizardEventView::Marked) == (
            WizardRunView { phase: WizardPhase::Next, ..run },
            WizardActionView::NextPending,
        ),
        run.phase == WizardPhase::Completing ==> wizard_next(run, WizardEventView::Completed) == (
            WizardRunView { phase: WizardPhase::Summing, ..run },
            WizardActionView::CountMisses,
        ),
        run.phase == WizardPhase::Summing ==> wizard_next(run, WizardEventView::Counted(counts)) == (
            WizardRunView { phase: WizardPhase::Done, ..run },
            WizardActionView::Summarize(summary_view(run.assigned, counts)),
        ),
{
}

/// A run begins with what it was asked for: the server, the moderator and the scope chosen,
/// the narrow one where none was; and with nothing done yet. A walk begins with what was
/// assigned.
pub proof fn law_a_run_begins_as_it_was_asked(
    guild: DiscordGuildId,
    invoker: DiscordUserId,
    choice: Option<ScopeChoice>,
    run: BulkRun,
    assigned: Vec<(Role, usize)>,
    walk: WizardRun,
)
    requires
        call_ensures(BulkRun::new, (guild, invoker, choice), run),
        call_ensures(WizardRun::new, (assigned,), walk),
    ensures
        run@.guild == guild,
        run@.invoker == invoker,
        run@.scope == BulkScope::WholeGuild <==> choice == Some(ScopeChoice::WholeGuild),
        run@.scope == BulkScope::UnmanagedOnly <==> choice != Some(ScopeChoice::WholeGuild),
        run@.phase == BulkPhase::Start,
        run@.queue.len() == 0,
        run@.tally.member == 0 && run@.tally.dues_expired == 0 && run@.tally.unverified == 0,
        walk@.phase == WizardPhase::Entering,
        walk@.assigned == assigned@,
{
}

/// Every button is labelled with what pressing it does.
pub proof fn law_buttons_say_what_they_do()
    ensures
        (offer_buttons() matches RowView::Buttons(bs) && bs.len() == 3 && bs[0] == press_view(
            RESUME_BUTTON_ID@,
            "Resume"@,
            Style::Primary,
        ) && bs[1] == press_view(START_OVER_BUTTON_ID@, "Start over"@, Style::Secondary) && bs[2]
            == press_view(CANCEL_BUTTON_ID@, "Cancel"@, Style::Secondary)),
        (confirm_buttons() matches RowView::Buttons(bs) && bs.len() == 2 && bs[0] == press_view(
            APPLY_BUTTON_ID@,
            "Apply and continue"@,
            Style::Primary,
        ) && bs[1] == press_view(PREVIEW_CANCEL_BUTTON_ID@, "Cancel"@, Style::Secondary)),
        (wizard_row() matches RowView::Buttons(bs) && bs.len() == 3 && bs[0] == press_view(
            LOOKUP_BUTTON_ID@,
            "Look up by email"@,
            Style::Primary,
        ) && bs[1] == press_view(SKIP_BUTTON_ID@, "Skip"@, Style::Secondary) && bs[2] == press_view(
            STOP_BUTTON_ID@,
            "Stop"@,
            Style::Secondary,
        )),
{
}

/// A run that breaks ends as failed, wherever it stands, and an ended run does nothing more;
/// the same holds of a walk.
pub proof fn law_a_broken_run_ends(
    run: BulkRunView,
    event: BulkEventView,
    walk: WizardRunView,
    walked: WizardEventView,
)
    ensures
        run.phase != BulkPhase::Done ==> bulk_next(run, BulkEventView::Broke) == (
            BulkRunView { phase: BulkPhase::Done, ..run },
            BulkActionView::Fail,
        ),
        run.phase == BulkPhase::Done ==> bulk_next(run, event) == (run, BulkActionView::Ignore),
        walk.phase != WizardPhase::Done ==> wizard_next(walk, WizardEventView::Broke) == (
            WizardRunView { phase: WizardPhase::Done, ..walk },
            WizardActionView::Fail,
        ),
        walk.phase == WizardPhase::Done ==> wizard_next(walk, walked) == (
            walk,
            WizardActionView::Ignore,
        ),
        bulk_next(run, event).1 == BulkActionView::Fail ==> event == BulkEventView::Broke,
        wizard_next(walk, walked).1 == WizardActionView::Fail ==> walked
            == WizardEventView::Broke,
{
}

/// A pressed control is acknowledged exactly where one was pressed and nothing else answered
/// it.
pub proof fn law_pressed_controls_are_acknowledged(
    run: WizardRunView,
    user: DiscordUserId,
    outcome: StepOutcome,
    pressed: Option<Seq<char>>,
)
    requires
        run.phase == WizardPhase::Stepping(user),
    ensures
        ({
            let action = wizard_next(run, WizardEventView::Stepped(outcome, pressed)).1;
            &&& (action matches WizardActionView::Mark { user: u, state, acknowledge }
                ==> acknowledge == (outcome is NotFoundExhausted && pressed is Some))
            &&& (action matches WizardActionView::Pause { acknowledge } ==> acknowledge
                == outcome is NotFoundExhausted)
        }),
{
}

/// Progress is shown for the first member and every fifth after.
pub proof fn law_progress_is_shown_now_and_again(
    run: BulkRunView,
    i: usize,
    outcome: ResyncOutcome,
)
    requires
        run.phase == BulkPhase::Applying(i),
    ensures
        (bulk_next(run, BulkEventView::Resynced(outcome)).1 matches BulkActionView::Advance {
            progress,
            pause,
            onward,
        } && (progress is Some <==> i % 5 == 0)),
{
}

/// What does not belong to a phase changes nothing; a run stops without a word only where the
/// moderator stayed silent.
pub proof fn law_stray_events_change_nothing(
    run: BulkRunView,
    event: BulkEventView,
    walk: WizardRunView,
    walked: WizardEventView,
)
    ensures
        bulk_next(run, event).1 == BulkActionView::Ignore ==> bulk_next(run, event).0 == run,
        bulk_next(run, event).1 == BulkActionView::Stop ==> event == BulkEventView::Idle,
        bulk_next(run, event).1 is Say || bulk_next(run, event).1 is Reply || bulk_next(
            run,
            event,
        ).1 is Stop || bulk_next(run, event).1 is Fail ==> bulk_next(run, event).0.phase
            == BulkPhase::Done,
        run.phase == BulkPhase::Start && !(event is Invoked) && !(event is Broke) ==> bulk_next(
            run,
            event,
        ) == (run, BulkActionView::Ignore),
        run.phase is Applying && !(event is Resynced) && !(event is Broke) ==> bulk_next(
            run,
            event,
        ) == (run, BulkActionView::Ignore),
        (bulk_next(run, event).1 matches BulkActionView::Sweep { reuse_message, embed, scope }
            ==> embed == progress_view(0, 0)),
        (bulk_next(run, event).1 matches BulkActionView::EnterWizard { progress, assigned } ==> (
        progress matches Some(shown) ==> shown == progress_view(0, 0))),
        wizard_next(walk, walked).1 == WizardActionView::Ignore ==> wizard_next(walk, walked).0
            == walk,
        walk.phase is Stepping && !(walked is Stepped) && !(walked is Broke) ==> wizard_next(
            walk,
            walked,
        ) == (walk, WizardActionView::Ignore),
{
}

} // verus!
