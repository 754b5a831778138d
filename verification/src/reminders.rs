//! Dues reminders: the delivery of one member's reminder into their private thread, the
//! sweep that delivers every one that is due, and the buttons on each message.

use vstd::prelude::*;

use crate::clock::{Duration, LONGEST_NANOS};
use crate::dates::{Date, MAX_SPAN_DAYS};
use crate::ids::{DiscordRoleId, DiscordUserId};
use crate::render::reminders::{
    default_template, reminder_message, Post, DUES_HELP_ID, DUES_OPTOUT_ID, DUES_SNOOZE_ID,
};
use crate::self_verify::{in_home_guild, parse_target};
use crate::store::{MembershipType, Milestone, ReminderTemplateKind};
use crate::text::{number, same, split_once};
use crate::ui::as_opt_str;

#[allow(unused_imports)]
use crate::dates::{MAX_DAY, MIN_DAY};
#[allow(unused_imports)]
use crate::render::reminders::{
    deadline_words, member_button, reminder_button_views, reminder_view, template_words,
    EXPIRED_BODY, INCOME_BASED_BODY, MONTHLY_BODY, ONE_TIME_BODY, YEARLY_BODY,
};
#[allow(unused_imports)]
use crate::self_verify::suffix_number;
#[allow(unused_imports)]
use crate::store::template_of;
#[allow(unused_imports)]
use crate::text::{
    decimal, halves, law_number_round_trips, lemma_halves_of_joined, unsigned_value,
};
#[allow(unused_imports)]
use crate::ui::{opt_str_view, opt_view, ButtonView, EmbedView, RowView};

verus! {

/// One reminder that is due.
#[derive(Debug, Clone, Copy, PartialEq, Eq, Structural)]
pub struct DueReminder {
    pub id: DiscordUserId,
    pub milestone: Milestone,
    pub days_until: i64,
    pub membership_type: Option<MembershipType>,
}

/// The text a reminder is written from. Once lapsed it is fixed; before, it follows how the
/// member pays, and without that there is none.
pub open spec fn kind_of(due: DueReminder) -> Option<ReminderTemplateKind> {
    if due.milestone == Milestone::Expired {
        Some(ReminderTemplateKind::Expired)
    } else {
        match due.membership_type {
            Some(t) => Some(template_of(t)),
            None => None,
        }
    }
}

/// Choose the text a reminder is written from.
pub fn template_kind(due: &DueReminder) -> (r: Option<ReminderTemplateKind>)
    ensures
        r == kind_of(*due),
{
    if matches!(due.milestone, Milestone::Expired) {
        return Some(ReminderTemplateKind::Expired);
    }
    match due.membership_type {
        Some(t) => Some(ReminderTemplateKind::from_membership_type(t)),
        None => None,
    }
}

/// Where a delivery stands.
#[derive(Debug, Clone, Copy, PartialEq, Eq, Structural)]
pub enum SendPhase {
    /// Not begun.
    Start,
    /// Reading what was sent before.
    Reading(ReminderTemplateKind),
    /// Creating the member's thread.
    CreatingThread(ReminderTemplateKind, Date),
    /// Adding the member to this thread.
    Inviting(ReminderTemplateKind, Date, u64),
    /// Remembering this thread.
    Remembering(ReminderTemplateKind, Date, u64),
    /// Reading the stored text.
    Resolving(ReminderTemplateKind, Date, u64),
    /// Sending the message into this thread.
    Sending(Date, u64),
    /// Recording the send.
    Recording,
    /// Over.
    Done,
}

/// What just happened to a delivery.
#[derive(Debug, Clone, PartialEq, Eq)]
pub enum SendEvent {
    /// It was asked for.
    Asked,
    /// The member's thread, if one was created before.
    Read(Option<u64>),
    /// The thread was created.
    Created(u64),
    /// The last step was done.
    Finished,
    /// The stored text, if a moderator set one.
    Template(Option<String>),
    /// The last step failed.
    Failed,
}

/// A [`SendEvent`] over characters.
pub enum SendEventView {
    Asked,
    Read(Option<u64>),
    Created(u64),
    Finished,
    Template(Option<Seq<char>>),
    Failed,
}

impl View for SendEvent {
    type V = SendEventView;

    open spec fn view(&self) -> SendEventView {
        match self {
            SendEvent::Asked => SendEventView::Asked,
            SendEvent::Read(t) => SendEventView::Read(*t),
            SendEvent::Created(t) => SendEventView::Created(*t),
            SendEvent::Finished => SendEventView::Finished,
            SendEvent::Template(t) => SendEventView::Template(opt_view(*t)),
            SendEvent::Failed => SendEventView::Failed,
        }
    }
}

/// The name of every reminder thread: stable, and without a trace of whom it is for.
pub const THREAD_NAME: &'static str = "Dues renewal";

/// What a delivery does next.
#[derive(Debug, Clone, PartialEq, Eq)]
pub enum SendAction {
    /// Read what was sent to the member before.
    ReadState,
    /// Create a private thread named [`THREAD_NAME`].
    CreateThread,
    /// Add the member to this thread.
    Invite(u64),
    /// Remember this thread for the cycle that ends on this date.
    Remember(u64, Date),
    /// Read the stored text of this kind.
    ReadTemplate(ReminderTemplateKind),
    /// Send this into the thread.
    Send(u64, Post),
    /// Record the send for the cycle that ends on this date.
    Record { thread: u64, cycle: Date },
    /// Delivered.
    Delivered,
    /// Nothing to deliver.
    Skip,
    /// Could not be delivered.
    Fail,
    /// Nothing: the event does not belong to this phase.
    Ignore,
}

/// A message as posted, over characters.
pub struct PostView {
    pub content: Seq<char>,
    pub embed: EmbedView,
    pub row: RowView,
}

impl View for Post {
    type V = PostView;

    open spec fn view(&self) -> PostView {
        PostView { content: self.content@, embed: self.embed@, row: self.row@ }
    }
}

/// A [`SendAction`] over characters.
pub enum SendActionView {
    ReadState,
    CreateThread,
    Invite(u64),
    Remember(u64, Date),
    ReadTemplate(ReminderTemplateKind),
    Send(u64, PostView),
    Record { thread: u64, cycle: Date },
    Delivered,
    Skip,
    Fail,
    Ignore,
}

impl View for SendAction {
    type V = SendActionView;

    open spec fn view(&self) -> SendActionView {
        match self {
            SendAction::ReadState => SendActionView::ReadState,
            SendAction::CreateThread => SendActionView::CreateThread,
            SendAction::Invite(t) => SendActionView::Invite(*t),
            SendAction::Remember(t, d) => SendActionView::Remember(*t, *d),
            SendAction::ReadTemplate(k) => SendActionView::ReadTemplate(*k),
            SendAction::Send(t, p) => SendActionView::Send(*t, p@),
            SendAction::Record { thread, cycle } => SendActionView::Record {
                thread: *thread,
                cycle: *cycle,
            },
            SendAction::Delivered => SendActionView::Delivered,
            SendAction::Skip => SendActionView::Skip,
            SendAction::Fail => SendActionView::Fail,
            SendAction::Ignore => SendActionView::Ignore,
        }
    }
}

/// What a pass delivers with.
#[derive(Debug, Clone, PartialEq, Eq)]
pub struct ReminderCtx {
    pub today: Date,
    pub signup_url: Option<String>,
    /// The longest gap since the last pass that still counts as timely.
    pub catchup_gap: Duration,
    /// The pause between members.
    pub pace: Duration,
    pub accent: u32,
}

/// The message of one reminder.
pub open spec fn post_of(ctx: ReminderCtx, due: DueReminder, body: Seq<char>) -> PostView {
    PostView {
        content: "<@"@ + decimal(due.id.0 as nat) + ">"@,
        embed: reminder_view(body, due.days_until as int, ctx.accent),
        row: RowView::Buttons(
            reminder_button_views(due.milestone, opt_view(ctx.signup_url), due.id, false),
        ),
    }
}

/// Whether the cycle a reminder belongs to ends on a representable date.
pub open spec fn cycle_fits(ctx: ReminderCtx, due: DueReminder) -> bool {
    MIN_DAY <= ctx.today.day() + due.days_until <= MAX_DAY
}

/// Whether a step of a delivery is the one it must be.
pub open spec fn sends(
    ctx: ReminderCtx,
    due: DueReminder,
    phase: SendPhase,
    event: SendEventView,
    next: SendPhase,
    action: SendActionView,
) -> bool {
    match (phase, event) {
        (SendPhase::Start, SendEventView::Asked) => match kind_of(due) {
            None => next == SendPhase::Done && action == SendActionView::Skip,
            Some(kind) => next == SendPhase::Reading(kind) && action == SendActionView::ReadState,
        },
        (SendPhase::Reading(kind), SendEventView::Read(thread)) => if !cycle_fits(ctx, due) {
            next == SendPhase::Done && action == SendActionView::Skip
        } else {
            match thread {
                Some(t) => next matches SendPhase::Resolving(k, cycle, u) && k == kind && u == t
                    && cycle.day() == ctx.today.day() + due.days_until && action
                    == SendActionView::ReadTemplate(kind),
                None => next matches SendPhase::CreatingThread(k, cycle) && k == kind && cycle.day()
                    == ctx.today.day() + due.days_until && action == SendActionView::CreateThread,
            }
        },
        (SendPhase::CreatingThread(kind, cycle), SendEventView::Created(t)) => next
            == SendPhase::Inviting(kind, cycle, t) && action == SendActionView::Invite(t),
        (SendPhase::Inviting(kind, cycle, t), SendEventView::Finished) => next == SendPhase::Remembering(
            kind,
            cycle,
            t,
        ) && action == SendActionView::Remember(t, cycle),
        (SendPhase::Remembering(kind, cycle, t), SendEventView::Finished) => next == SendPhase::Resolving(
            kind,
            cycle,
            t,
        ) && action == SendActionView::ReadTemplate(kind),
        (SendPhase::Resolving(kind, cycle, t), SendEventView::Template(stored)) => next
            == SendPhase::Sending(cycle, t) && action == SendActionView::Send(
            t,
            post_of(
                ctx,
                due,
                match stored {
                    Some(body) => body,
                    None => template_words(kind),
                },
            ),
        ),
        (SendPhase::Sending(cycle, t), SendEventView::Finished) => next == SendPhase::Recording && action
            == (SendActionView::Record { thread: t, cycle }),
        (SendPhase::Recording, SendEventView::Finished) => next == SendPhase::Done && action
            == SendActionView::Delivered,
        (SendPhase::Start, SendEventView::Failed) | (SendPhase::Done, _) => next == phase && action
            == SendActionView::Ignore,
        (_, SendEventView::Failed) => next == SendPhase::Done && action == SendActionView::Fail,
        _ => next == phase && action == SendActionView::Ignore,
    }
}

/// Deliver one member's reminder: choose the text, make sure the member has a thread, send
/// the message, and record the send. A new thread is remembered before the message goes
/// out, so a later failure reuses it instead of leaving it orphaned.
pub fn send_reminder(ctx: &ReminderCtx, due: &DueReminder, phase: SendPhase, event: &SendEvent) -> (r:
    (SendPhase, SendAction))
    requires
        phase is Reading && event is Read ==> -MAX_SPAN_DAYS <= due.days_until <= MAX_SPAN_DAYS,
    ensures
        sends(*ctx, *due, phase, event@, r.0, r.1@),
{
    match (phase, event) {
        (SendPhase::Start, SendEvent::Asked) => match template_kind(due) {
            None => (SendPhase::Done, SendAction::Skip),
            Some(kind) => (SendPhase::Reading(kind), SendAction::ReadState),
        },
        (SendPhase::Reading(kind), SendEvent::Read(thread)) => {
            match ctx.today.checked_add_signed(due.days_until) {
                None => (SendPhase::Done, SendAction::Skip),
                Some(cycle) => match thread {
                    Some(t) => (
                        SendPhase::Resolving(kind, cycle, *t),
                        SendAction::ReadTemplate(kind),
                    ),
                    None => (SendPhase::CreatingThread(kind, cycle), SendAction::CreateThread),
                },
            }
        },
        (SendPhase::CreatingThread(kind, cycle), SendEvent::Created(t)) => (
            SendPhase::Inviting(kind, cycle, *t),
            SendAction::Invite(*t),
        ),
        (SendPhase::Inviting(kind, cycle, t), SendEvent::Finished) => (
            SendPhase::Remembering(kind, cycle, t),
            SendAction::Remember(t, cycle),
        ),
        (SendPhase::Remembering(kind, cycle, t), SendEvent::Finished) => (
            SendPhase::Resolving(kind, cycle, t),
            SendAction::ReadTemplate(kind),
        ),
        (SendPhase::Resolving(kind, cycle, t), SendEvent::Template(stored)) => {
            let body = match stored {
                Some(custom) => custom.clone(),
                None => default_template(kind).to_owned(),
            };
            let post = reminder_message(
                body.as_str(),
                due.days_until,
                due.milestone,
                as_opt_str(&ctx.signup_url),
                due.id,
                ctx.accent,
            );
            (SendPhase::Sending(cycle, t), SendAction::Send(t, post))
        },
        (SendPhase::Sending(cycle, t), SendEvent::Finished) => (
            SendPhase::Recording,
            SendAction::Record { thread: t, cycle },
        ),
        (SendPhase::Recording, SendEvent::Finished) => (SendPhase::Done, SendAction::Delivered),
        (SendPhase::Start, SendEvent::Failed) => (phase, SendAction::Ignore),
        (SendPhase::Done, _) => (phase, SendAction::Ignore),
        (_, SendEvent::Failed) => (SendPhase::Done, SendAction::Fail),
        _ => (phase, SendAction::Ignore),
    }
}

/// A message only ever goes into a thread the store already knows, and a send is recorded
/// only after the message went out.
pub proof fn law_threads_are_remembered_before_use(
    ctx: ReminderCtx,
    due: DueReminder,
    phase: SendPhase,
    event: SendEventView,
    next: SendPhase,
    action: SendActionView,
)
    requires
        sends(ctx, due, phase, event, next, action),
    ensures
        next is Resolving ==> next == phase || event is Read || phase is Remembering,
        action is Send ==> phase is Resolving,
        action is Record ==> phase is Sending && event == SendEventView::Finished,
{
}

/// Whether a pass counts as timely: the first ever, or one within the catch-up gap. A last
/// pass that lies ahead of the clock counts as the longest gap there is.
pub open spec fn timely(last_run: Option<i64>, now: i64, catchup_gap: Duration) -> bool {
    match last_run {
        None => true,
        Some(last) => (if now >= last {
            (now - last) * 1000
        } else {
            LONGEST_NANOS as int
        }) <= catchup_gap.nanos,
    }
}

/// Decide whether a pass counts as timely. Times are microseconds since the Unix epoch.
pub fn is_timely(last_run: Option<i64>, now: i64, catchup_gap: Duration) -> (r: bool)
    ensures
        r == timely(last_run, now, catchup_gap),
{
    match last_run {
        None => true,
        Some(last) => {
            if now < last {
                return LONGEST_NANOS <= catchup_gap.nanos;
            }
            let gap: i128 = now as i128 - last as i128;
            (gap as u128) * 1000 <= catchup_gap.nanos
        },
    }
}

/// What a sweep did so far.
#[derive(Debug, Clone, Copy, PartialEq, Eq, Structural)]
pub struct SweepCounts {
    pub sent: usize,
    pub failed: usize,
}

/// Where a sweep stands.
#[derive(Debug, Clone, Copy, PartialEq, Eq, Structural)]
pub enum SweepPhase {
    /// Not begun.
    Start,
    /// Planning who is due.
    Planning,
    /// Delivering the reminder at this index.
    Delivering(usize),
    /// Recording the run.
    Recording,
    /// Over.
    Done,
}

/// One sweep.
#[derive(Debug, Clone, Copy, PartialEq, Eq, Structural)]
pub struct Sweep {
    pub phase: SweepPhase,
    /// How many reminders are due.
    pub total: usize,
    pub counts: SweepCounts,
}

impl Sweep {
    /// While reminders are being delivered, the index is inside the plan and every reminder
    /// before it is accounted for. Once the run is being recorded, all of them are.
    pub open spec fn wf(self) -> bool {
        match self.phase {
            SweepPhase::Delivering(i) => i < self.total && self.counts.sent + self.counts.failed
                == i,
            SweepPhase::Recording => self.counts.sent + self.counts.failed == self.total,
            _ => true,
        }
    }

    /// A sweep that has not begun.
    pub open spec fn fresh() -> Sweep {
        Sweep {
            phase: SweepPhase::Start,
            total: 0,
            counts: SweepCounts { sent: 0, failed: 0 },
        }
    }

    /// A sweep that has not begun.
    pub fn new() -> (r: Sweep)
        ensures
            r == Sweep::fresh(),
            r.wf(),
    {
        Sweep { phase: SweepPhase::Start, total: 0, counts: SweepCounts { sent: 0, failed: 0 } }
    }
}

/// What just happened to a sweep.
#[derive(Debug, Clone, Copy, PartialEq, Eq, Structural)]
pub enum SweepEvent {
    /// It is now this time, and the last run was then, if it is known. Times are
    /// microseconds since the Unix epoch.
    Began { last_run: Option<i64>, now: i64 },
    /// How many reminders are due; absent when planning failed.
    Planned(Option<usize>),
    /// One reminder was delivered or skipped, or failed.
    Delivered(bool),
    /// The run was recorded, or could not be.
    Recorded,
}

/// What a sweep does next.
#[derive(Debug, Clone, Copy, PartialEq, Eq, Structural)]
pub enum SweepAction {
    /// Plan who is due, on time or catching up.
    Plan { timely: bool },
    /// Deliver the reminder at this index, after a pause for all but the first.
    Deliver { index: usize, pause: bool },
    /// Record that this run happened.
    Record,
    /// The sweep is complete.
    Complete(SweepCounts),
    /// Skip this pass.
    Skip,
    /// Nothing: the event does not belong to this phase.
    Ignore,
}

/// Go on with the reminder at `i`, or record the run.
pub open spec fn sweep_onward(sweep: Sweep, i: int) -> (Sweep, SweepAction) {
    if i < sweep.total {
        (
            Sweep { phase: SweepPhase::Delivering(i as usize), ..sweep },
            SweepAction::Deliver { index: i as usize, pause: i > 0 },
        )
    } else {
        (Sweep { phase: SweepPhase::Recording, ..sweep }, SweepAction::Record)
    }
}

/// The counts after one more reminder.
pub open spec fn swept(counts: SweepCounts, ok: bool) -> SweepCounts {
    if ok {
        SweepCounts { sent: (counts.sent + 1) as usize, ..counts }
    } else {
        SweepCounts { failed: (counts.failed + 1) as usize, ..counts }
    }
}

/// A sweep, one event at a time. One member's failure never stops it, and it records the
/// run even so, so that a later pass does not send twice.
pub open spec fn sweep_next(ctx: ReminderCtx, sweep: Sweep, event: SweepEvent) -> (Sweep, SweepAction) {
    match (sweep.phase, event) {
        (SweepPhase::Start, SweepEvent::Began { last_run, now }) => (
            Sweep { phase: SweepPhase::Planning, ..sweep },
            SweepAction::Plan { timely: timely(last_run, now, ctx.catchup_gap) },
        ),
        (SweepPhase::Planning, SweepEvent::Planned(None)) => (
            Sweep { phase: SweepPhase::Done, ..sweep },
            SweepAction::Skip,
        ),
        (SweepPhase::Planning, SweepEvent::Planned(Some(total))) => sweep_onward(
            Sweep { total, counts: SweepCounts { sent: 0, failed: 0 }, ..sweep },
            0,
        ),
        (SweepPhase::Delivering(i), SweepEvent::Delivered(ok)) => sweep_onward(
            Sweep { counts: swept(sweep.counts, ok), ..sweep },
            i + 1,
        ),
        (SweepPhase::Recording, SweepEvent::Recorded) => (
            Sweep { phase: SweepPhase::Done, ..sweep },
            SweepAction::Complete(sweep.counts),
        ),
        _ => (sweep, SweepAction::Ignore),
    }
}

fn go_on(sweep: Sweep, i: usize) -> (r: (Sweep, SweepAction))
    requires
        sweep.counts.sent + sweep.counts.failed == i,
        i <= sweep.total,
    ensures
        r == sweep_onward(sweep, i as int),
        r.0.wf(),
{
    if i < sweep.total {
        (
            Sweep { phase: SweepPhase::Delivering(i), ..sweep },
            SweepAction::Deliver { index: i, pause: i > 0 },
        )
    } else {
        (Sweep { phase: SweepPhase::Recording, ..sweep }, SweepAction::Record)
    }
}

/// Run the dues-reminder sweep for one pass.
pub fn run_reminder_sweep(ctx: &ReminderCtx, sweep: Sweep, event: SweepEvent) -> (r: (
    Sweep,
    SweepAction,
))
    requires
        sweep.wf(),
    ensures
        r == sweep_next(*ctx, sweep, event),
        r.0.wf(),
{
    match (sweep.phase, event) {
        (SweepPhase::Start, SweepEvent::Began { last_run, now }) => (
            Sweep { phase: SweepPhase::Planning, ..sweep },
            SweepAction::Plan { timely: is_timely(last_run, now, ctx.catchup_gap) },
        ),
        (SweepPhase::Planning, SweepEvent::Planned(None)) => (
            Sweep { phase: SweepPhase::Done, ..sweep },
            SweepAction::Skip,
        ),
        (SweepPhase::Planning, SweepEvent::Planned(Some(total))) => go_on(
            Sweep { total, counts: SweepCounts { sent: 0, failed: 0 }, ..sweep },
            0,
        ),
        (SweepPhase::Delivering(i), SweepEvent::Delivered(ok)) => {
            let counts = if ok {
                SweepCounts { sent: sweep.counts.sent + 1, ..sweep.counts }
            } else {
                SweepCounts { failed: sweep.counts.failed + 1, ..sweep.counts }
            };
            go_on(Sweep { counts, ..sweep }, i + 1)
        },
        (SweepPhase::Recording, SweepEvent::Recorded) => (
            Sweep { phase: SweepPhase::Done, ..sweep },
            SweepAction::Complete(sweep.counts),
        ),
        _ => (sweep, SweepAction::Ignore),
    }
}

/// A sweep takes the due reminders one after the other, each exactly once, whether the one
/// before failed or not. It records its run only once every one of them was tried, and the
/// counts it ends with account for all of them.
pub proof fn law_sweep_tries_every_reminder(ctx: ReminderCtx, sweep: Sweep, event: SweepEvent)
    requires
        sweep.wf(),
    ensures
        ({
            let (next, action) = sweep_next(ctx, sweep, event);
            &&& next.wf()
            &&& event is Delivered ==> (sweep.phase matches SweepPhase::Delivering(i) ==> if i + 1
                < sweep.total {
                action == (SweepAction::Deliver { index: (i + 1) as usize, pause: true })
            } else {
                action == SweepAction::Record
            })
            &&& sweep.phase is Planning ==> (event matches SweepEvent::Planned(Some(total)) ==> if 0
                < total {
                action == (SweepAction::Deliver { index: 0, pause: false })
            } else {
                action == SweepAction::Record
            })
            &&& action == SweepAction::Record ==> next.counts.sent + next.counts.failed
                == next.total
            &&& action matches SweepAction::Complete(counts) ==> counts.sent + counts.failed
                == sweep.total
        }),
{
}

pub const NOT_YOUR_BUTTON: &'static str = "This button is for the member it was sent to.";

pub const SAVE_TROUBLE: &'static str = "Something went wrong saving that - please try again in a moment.";

pub const SNOOZED: &'static str = "You won't get more reminders this cycle.";

pub const OPTED_OUT: &'static str = "You won't get dues reminders anymore. A moderator can turn them back on if you ask.";

pub const HELP_ON_THE_WAY: &'static str = "Got it - I've let the admins know. Someone will follow up with you here.";

/// What a reminder button does.
#[derive(Debug, Clone, Copy, PartialEq, Eq, Structural)]
pub enum ReminderPress {
    Snooze(DiscordUserId),
    OptOut(DiscordUserId),
    Help(DiscordUserId),
    /// Someone else's button.
    NotYours,
    /// Not ours.
    Ignore,
}

/// What a press comes to: only the member a button was sent to may use it.
pub open spec fn press_of(in_home: bool, presser: u64, id: Seq<char>) -> ReminderPress {
    if !in_home {
        ReminderPress::Ignore
    } else {
        match halves(id, ':') {
            None => ReminderPress::Ignore,
            Some((kind, suffix)) => if kind != DUES_SNOOZE_ID@ && kind != DUES_OPTOUT_ID@ && kind
                != DUES_HELP_ID@ {
                ReminderPress::Ignore
            } else {
                match suffix_number(suffix) {
                    None => ReminderPress::Ignore,
                    Some(target) => if presser != target {
                        ReminderPress::NotYours
                    } else if kind == DUES_SNOOZE_ID@ {
                        ReminderPress::Snooze(DiscordUserId(target))
                    } else if kind == DUES_OPTOUT_ID@ {
                        ReminderPress::OptOut(DiscordUserId(target))
                    } else {
                        ReminderPress::Help(DiscordUserId(target))
                    },
                }
            },
        }
    }
}

/// Route a dues-reminder button press. Presses from elsewhere, on other buttons, or by
/// anyone but the member the message was sent to change nothing: a moderator who joined the
/// thread cannot toggle a member's reminders.
pub fn on_component(guild: Option<u64>, home: u64, presser: u64, id: &str) -> (r: ReminderPress)
    ensures
        r == press_of(guild == Some(home), presser, id@),
{
    if !in_home_guild(guild, home) {
        return ReminderPress::Ignore;
    }
    match split_once(id, ':') {
        None => ReminderPress::Ignore,
        Some((kind, suffix)) => {
            let snooze = same(kind, DUES_SNOOZE_ID);
            let optout = same(kind, DUES_OPTOUT_ID);
            let help = same(kind, DUES_HELP_ID);
            if !snooze && !optout && !help {
                return ReminderPress::Ignore;
            }
            match parse_target(suffix) {
                None => ReminderPress::Ignore,
                Some(target) => {
                    if presser != target.0 {
                        ReminderPress::NotYours
                    } else if snooze {
                        ReminderPress::Snooze(target)
                    } else if optout {
                        ReminderPress::OptOut(target)
                    } else {
                        ReminderPress::Help(target)
                    }
                },
            }
        },
    }
}

/// The buttons on a member's reminder do what they say for that member, and nothing for
/// anyone else.
pub proof fn law_reminder_buttons_are_personal(member: DiscordUserId, presser: u64)
    ensures
        press_of(true, member.0, DUES_SNOOZE_ID@ + ":"@ + decimal(member.0 as nat))
            == ReminderPress::Snooze(member),
        press_of(true, member.0, DUES_OPTOUT_ID@ + ":"@ + decimal(member.0 as nat))
            == ReminderPress::OptOut(member),
        press_of(true, member.0, DUES_HELP_ID@ + ":"@ + decimal(member.0 as nat))
            == ReminderPress::Help(member),
        presser != member.0 ==> press_of(
            true,
            presser,
            DUES_OPTOUT_ID@ + ":"@ + decimal(member.0 as nat),
        ) == ReminderPress::NotYours,
        presser != member.0 ==> press_of(
            true,
            presser,
            DUES_SNOOZE_ID@ + ":"@ + decimal(member.0 as nat),
        ) == ReminderPress::NotYours,
        presser != member.0 ==> press_of(
            true,
            presser,
            DUES_HELP_ID@ + ":"@ + decimal(member.0 as nat),
        ) == ReminderPress::NotYours,
{
    reveal_strlit("dues_snooze");
    reveal_strlit("dues_optout");
    reveal_strlit("dues_help");
    reveal_strlit(":");
    assert(":"@ =~= seq![':']);
    let d = decimal(member.0 as nat);
    lemma_halves_of_joined(DUES_SNOOZE_ID@, ':', d);
    lemma_halves_of_joined(DUES_OPTOUT_ID@, ':', d);
    lemma_halves_of_joined(DUES_HELP_ID@, ':', d);
    law_number_round_trips(member.0 as nat, u64::MAX as nat);
    assert(DUES_SNOOZE_ID@[5] != DUES_OPTOUT_ID@[5]);
    assert(DUES_HELP_ID@.len() != DUES_OPTOUT_ID@.len());
    assert(DUES_HELP_ID@.len() != DUES_SNOOZE_ID@.len());
}

/// What just happened to a snooze.
#[derive(Debug, Clone, Copy, PartialEq, Eq, Structural)]
pub enum SnoozeEvent {
    /// The cycle the member was last reminded about, if any; absent when it could not be
    /// read.
    Read(Option<Option<Date>>),
    /// The snooze was stored, or could not be.
    Stored(bool),
}

/// What a snooze does next.
#[derive(Debug, Clone, Copy, PartialEq, Eq)]
pub enum SnoozeAction {
    /// Snooze this cycle.
    Store(Date),
    /// Answer privately and stop.
    Answer(&'static str),
}

/// Snooze reminders for the cycle the member was actually reminded about, not the one on
/// the current record, which may have moved on. With nothing sent there is nothing to
/// snooze, and the press is acknowledged all the same.
pub fn handle_snooze(event: SnoozeEvent) -> (r: SnoozeAction)
    ensures
        (match event {
            SnoozeEvent::Read(None) => r matches SnoozeAction::Answer(s) && s@ == SAVE_TROUBLE@,
            SnoozeEvent::Read(Some(None)) => r matches SnoozeAction::Answer(s) && s@ == SNOOZED@,
            SnoozeEvent::Read(Some(Some(cycle))) => r == SnoozeAction::Store(cycle),
            SnoozeEvent::Stored(ok) => r matches SnoozeAction::Answer(s) && s@ == (if ok {
                SNOOZED@
            } else {
                SAVE_TROUBLE@
            }),
        }),
{
    match event {
        SnoozeEvent::Read(None) => SnoozeAction::Answer(SAVE_TROUBLE),
        SnoozeEvent::Read(Some(None)) => SnoozeAction::Answer(SNOOZED),
        SnoozeEvent::Read(Some(Some(cycle))) => SnoozeAction::Store(cycle),
        SnoozeEvent::Stored(ok) => {
            if ok {
                SnoozeAction::Answer(SNOOZED)
            } else {
                SnoozeAction::Answer(SAVE_TROUBLE)
            }
        },
    }
}

/// The answer to an opt-out, once storing it was tried.
pub fn handle_optout(stored: bool) -> (r: &'static str)
    ensures
        r@ == (if stored {
            OPTED_OUT@
        } else {
            SAVE_TROUBLE@
        }),
{
    if stored {
        OPTED_OUT
    } else {
        SAVE_TROUBLE
    }
}

/// The line that calls for help in the thread, and the role it may ping.
pub open spec fn help_words(moderator_role: Option<DiscordRoleId>, member: DiscordUserId) -> Seq<char> {
    let who = "<@"@ + decimal(member.0 as nat) + "> asked for help renewing their membership."@;
    match moderator_role {
        Some(role) => "<@&"@ + decimal(role.0 as nat) + "> - "@ + who,
        None => who,
    }
}

/// Call for help in the thread, pinging the moderator role where one is configured.
pub fn handle_help(moderator_role: Option<DiscordRoleId>, member: DiscordUserId) -> (r: (
    String,
    Option<DiscordRoleId>,
))
    ensures
        r.0@ == help_words(moderator_role, member),
        r.1 == moderator_role,
{
    let who = "<@".to_owned().concat(number(member.0).as_str()).concat(
        "> asked for help renewing their membership.",
    );
    match moderator_role {
        Some(role) => (
            "<@&".to_owned().concat(number(role.0).as_str()).concat("> - ").concat(who.as_str()),
            Some(role),
        ),
        None => (who, None),
    }
}

/// A delivery walked to its end. The text is chosen once, when it is asked for, by how the
/// member pays, and only a lapsed member gets the lapsed text; with nothing stored the
/// message carries the built-in words of just that text, and with something stored exactly
/// that. It goes into the member's own thread, the one known or the one just created, it
/// mentions the member, and the send is recorded for that thread and for the day the
/// membership runs out.
pub proof fn law_a_reminder_says_what_it_was_chosen_to_say(
    ctx: ReminderCtx,
    due: DueReminder,
    thread: Option<u64>,
    created: u64,
    stored: Option<Seq<char>>,
    p1: SendPhase,
    a1: SendActionView,
    p2: SendPhase,
    a2: SendActionView,
    p3: SendPhase,
    a3: SendActionView,
    p4: SendPhase,
    a4: SendActionView,
    p5: SendPhase,
    a5: SendActionView,
    p6: SendPhase,
    a6: SendActionView,
    p7: SendPhase,
    a7: SendActionView,
    p8: SendPhase,
    a8: SendActionView,
)
    requires
        due.milestone == Milestone::Expired || due.membership_type is Some,
        MIN_DAY <= ctx.today.day() + due.days_until <= MAX_DAY,
        sends(ctx, due, SendPhase::Start, SendEventView::Asked, p1, a1),
        sends(ctx, due, p1, SendEventView::Read(thread), p2, a2),
        if thread is None {
            &&& sends(ctx, due, p2, SendEventView::Created(created), p3, a3)
            &&& sends(ctx, due, p3, SendEventView::Finished, p4, a4)
            &&& sends(ctx, due, p4, SendEventView::Finished, p5, a5)
        } else {
            p5 == p2 && a5 == a2
        },
        sends(ctx, due, p5, SendEventView::Template(stored), p6, a6),
        sends(ctx, due, p6, SendEventView::Finished, p7, a7),
        sends(ctx, due, p7, SendEventView::Finished, p8, a8),
    ensures
        ({
            let own = match thread {
                Some(t) => t,
                None => created,
            };
            let text = if due.milestone == Milestone::Expired {
                ReminderTemplateKind::Expired
            } else {
                match due.membership_type->0 {
                    MembershipType::Monthly => ReminderTemplateKind::Monthly,
                    MembershipType::Yearly => ReminderTemplateKind::Yearly,
                    MembershipType::OneTime => ReminderTemplateKind::OneTime,
                    MembershipType::IncomeBased => ReminderTemplateKind::IncomeBased,
                }
            };
            let body = match stored {
                Some(words) => words,
                None => match text {
                    ReminderTemplateKind::Monthly => MONTHLY_BODY@,
                    ReminderTemplateKind::Yearly => YEARLY_BODY@,
                    ReminderTemplateKind::OneTime => ONE_TIME_BODY@,
                    ReminderTemplateKind::IncomeBased => INCOME_BASED_BODY@,
                    ReminderTemplateKind::Expired => EXPIRED_BODY@,
                },
            };
            &&& a1 == SendActionView::ReadState
            &&& a5 == SendActionView::ReadTemplate(text)
            &&& a6 matches SendActionView::Send(into, post)
            &&& into == own
            &&& post.content == "<@"@ + decimal(due.id.0 as nat) + ">"@
            &&& post.embed.title == Some("Dues renewal"@)
            &&& post.embed.description == Some(
                deadline_words(due.days_until as int) + "\n\n"@ + body,
            )
            &&& post.embed.colour == Some(ctx.accent)
            &&& post.row == RowView::Buttons(
                reminder_button_views(due.milestone, opt_view(ctx.signup_url), due.id, false),
            )
            &&& a7 matches SendActionView::Record { thread: t, cycle }
            &&& t == own
            &&& cycle.day() == ctx.today.day() + due.days_until
            &&& a8 == SendActionView::Delivered
            &&& p8 == SendPhase::Done
            &&& thread is None ==> a2 == SendActionView::CreateThread && a3
                == SendActionView::Invite(created) && (a4 matches SendActionView::Remember(u, day)
                && u == created && day == cycle)
        }),
{
}

/// A reminder is skipped exactly where there is nothing to write it from, or where its cycle
/// ends on no representable day; nothing else skips one. A failed step ends it as failed.
pub proof fn law_a_reminder_is_skipped_only_without_a_text_or_a_day(
    ctx: ReminderCtx,
    due: DueReminder,
    phase: SendPhase,
    event: SendEventView,
    next: SendPhase,
    action: SendActionView,
)
    requires
        sends(ctx, due, phase, event, next, action),
    ensures
        action == SendActionView::Skip <==> (phase == SendPhase::Start && event
            == SendEventView::Asked && due.milestone != Milestone::Expired
            && due.membership_type is None) || (phase is Reading && event is Read && !(MIN_DAY
            <= ctx.today.day() + due.days_until <= MAX_DAY)),
        action == SendActionView::Fail <==> event == SendEventView::Failed && phase
            != SendPhase::Start && phase != SendPhase::Done,
        action == SendActionView::Skip || action == SendActionView::Fail ==> next
            == SendPhase::Done,
        action == SendActionView::Ignore ==> next == phase,
        phase == SendPhase::Done ==> action == SendActionView::Ignore,
{
}

/// The first pass ever is timely; otherwise a pass is timely exactly when it comes no later
/// than the gap after the last. With the same last pass, an earlier one is timely whenever a
/// later one is.
pub proof fn law_a_pass_within_the_gap_is_timely(last: i64, now: i64, later: i64, gap: Duration)
    requires
        last <= now <= later,
    ensures
        timely(None, now, gap),
        timely(Some(last), now, gap) <==> (now - last) * 1000 <= gap.nanos,
        timely(Some(last), later, gap) ==> timely(Some(last), now, gap),
        timely(Some(now), now, gap),
{
}

/// A sweep counts a delivered reminder as sent and a failed one as failed, the other count
/// staying as it is; it plans with the true timeliness and stops where planning failed.
pub proof fn law_a_sweep_counts_what_happened(
    ctx: ReminderCtx,
    sweep: Sweep,
    ok: bool,
    last_run: Option<i64>,
    now: i64,
)
    requires
        sweep.wf(),
    ensures
        (sweep.phase is Delivering ==> ({
            let (next, action) = sweep_next(ctx, sweep, SweepEvent::Delivered(ok));
            &&& next.total == sweep.total
            &&& next.counts.sent == sweep.counts.sent + if ok {
                1int
            } else {
                0int
            }
            &&& next.counts.failed == sweep.counts.failed + if ok {
                0int
            } else {
                1int
            }
        })),
        sweep_next(
            ctx,
            Sweep::fresh(),
            SweepEvent::Began { last_run, now },
        ).1 == (SweepAction::Plan { timely: timely(last_run, now, ctx.catchup_gap) }),
        sweep_next(
            ctx,
            Sweep { phase: SweepPhase::Planning, ..sweep },
            SweepEvent::Planned(None),
        ).1 == SweepAction::Skip,
        sweep.phase is Recording ==> sweep_next(ctx, sweep, SweepEvent::Recorded).1
            == SweepAction::Complete(sweep.counts),
        Sweep::fresh().counts.sent == 0 && Sweep::fresh().counts.failed == 0,
{
}

/// A press from outside the home server does nothing, and a press that does something is the
/// presser's own.
pub proof fn law_only_the_member_is_acted_on(in_home: bool, presser: u64, id: Seq<char>)
    ensures
        !in_home ==> press_of(in_home, presser, id) == ReminderPress::Ignore,
        (press_of(in_home, presser, id) matches ReminderPress::Snooze(m) ==> m.0 == presser),
        (press_of(in_home, presser, id) matches ReminderPress::OptOut(m) ==> m.0 == presser),
        (press_of(in_home, presser, id) matches ReminderPress::Help(m) ==> m.0 == presser),
{
}

/// A snooze is for the very cycle that was read, an answer tells whether it was stored, and
/// the same holds of an opt-out.
pub proof fn law_a_press_is_answered_by_what_was_stored(
    event: SnoozeEvent,
    action: SnoozeAction,
    stored: bool,
    words: &'static str,
)
    requires
        call_ensures(handle_snooze, (event,), action),
        call_ensures(handle_optout, (stored,), words),
    ensures
        (event matches SnoozeEvent::Read(Some(Some(cycle))) ==> action == SnoozeAction::Store(
            cycle,
        )),
        action is Store ==> (event matches SnoozeEvent::Read(Some(Some(_)))),
        (action matches SnoozeAction::Answer(s) ==> (s@ == SAVE_TROUBLE@ <==> event
            == SnoozeEvent::Read(None) || event == SnoozeEvent::Stored(false)) && (s@ == SNOOZED@
            <==> event == SnoozeEvent::Read(Some(None)) || event == SnoozeEvent::Stored(true))),
        words@ == OPTED_OUT@ <==> stored,
        words@ == SAVE_TROUBLE@ <==> !stored,
{
    reveal_strlit("Something went wrong saving that - please try again in a moment.");
    reveal_strlit("You won't get more reminders this cycle.");
    reveal_strlit(
        "You won't get dues reminders anymore. A moderator can turn them back on if you ask.",
    );
    assert(SAVE_TROUBLE@[0] == 'S' && SNOOZED@[0] == 'Y' && OPTED_OUT@[0] == 'Y');
}

/// A call for help names the member, and pings the moderator role exactly where there is one.
pub proof fn law_help_names_the_member(
    moderator_role: Option<DiscordRoleId>,
    member: DiscordUserId,
    r: (String, Option<DiscordRoleId>),
)
    requires
        call_ensures(handle_help, (moderator_role, member), r),
    ensures
        r.1 == moderator_role,
        moderator_role is None ==> r.0@ == "<@"@ + decimal(member.0 as nat)
            + "> asked for help renewing their membership."@,
        (moderator_role matches Some(role) ==> r.0@ == "<@&"@ + decimal(role.0 as nat) + "> - "@
            + ("<@"@ + decimal(member.0 as nat) + "> asked for help renewing their membership."@)),
{
}

/// A last pass that lies ahead of the clock is as far away as can be.
pub proof fn law_a_pass_ahead_of_the_clock_is_late(last: i64, now: i64, gap: Duration)
    requires
        now < last,
        gap.nanos < LONGEST_NANOS,
    ensures
        !timely(Some(last), now, gap),
{
}

/// A sweep that is skipped or complete is over, and an ended one does nothing more; what does
/// not belong to where it stands changes nothing.
pub proof fn law_an_ended_sweep_stays_ended(ctx: ReminderCtx, sweep: Sweep, event: SweepEvent)
    ensures
        ({
            let (next, action) = sweep_next(ctx, sweep, event);
            &&& action is Complete || action == SweepAction::Skip ==> next.phase == SweepPhase::Done
            &&& sweep.phase == SweepPhase::Done ==> (next, action) == (sweep, SweepAction::Ignore)
            &&& action == SweepAction::Ignore ==> next == sweep
            &&& action is Plan ==> next.phase == SweepPhase::Planning
            &&& action == SweepAction::Record ==> next.phase == SweepPhase::Recording
            &&& (action matches SweepAction::Deliver { index, pause } ==> next.phase
                == SweepPhase::Delivering(index))
        }),
{
}

} // verus!
