//! `/reminders`: dues-reminder templates, previews, opt-outs and a test send. Server managers
//! only. A kind's or milestone's token is its stored name.

use vstd::prelude::*;

use crate::commands::replies::MANAGERS_ONLY;
use crate::ids::{DiscordChannelId, DiscordUserId};
use crate::render::reminders::{default_template, reminder_buttons, reminder_embed};
use crate::store::{GuildConfig, MembershipType, Milestone, ReminderTemplateKind};
use crate::text::{number, trim};
use crate::ui::{as_opt_str, Embed, Input, Modal, Row};

#[allow(unused_imports)]
use crate::render::reminders::{reminder_button_views, reminder_view, template_words};
#[allow(unused_imports)]
use crate::store::lead;
#[allow(unused_imports)]
use crate::text::{decimal, trimmed};
#[allow(unused_imports)]
use crate::ui::{opt_view, EmbedView, InputView, ModalView, RowView};

verus! {

pub const NO_REMINDER_CHANNEL: &'static str = "No dues-reminder channel is configured. Set one in /setup before using this command.";

pub const TEST_SEND_FAILED: &'static str = "Failed to send the test reminder - check the logs for details.";

/// How long the template form may stay open, in seconds.
pub const TEMPLATE_MODAL_SECS: u64 = 300;

/// The template kinds a manager picks from.
#[derive(Debug, Clone, Copy, PartialEq, Eq, Structural)]
pub enum TemplateKindChoice {
    Monthly,
    Yearly,
    OneTime,
    IncomeBased,
    Expired,
}

impl TemplateKindChoice {
    /// The kind picked.
    pub open spec fn picked(self) -> ReminderTemplateKind {
        match self {
            TemplateKindChoice::Monthly => ReminderTemplateKind::Monthly,
            TemplateKindChoice::Yearly => ReminderTemplateKind::Yearly,
            TemplateKindChoice::OneTime => ReminderTemplateKind::OneTime,
            TemplateKindChoice::IncomeBased => ReminderTemplateKind::IncomeBased,
            TemplateKindChoice::Expired => ReminderTemplateKind::Expired,
        }
    }

    /// The kind picked.
    pub fn kind(self) -> (r: ReminderTemplateKind)
        ensures
            r == self.picked(),
    {
        match self {
            TemplateKindChoice::Monthly => ReminderTemplateKind::Monthly,
            TemplateKindChoice::Yearly => ReminderTemplateKind::Yearly,
            TemplateKindChoice::OneTime => ReminderTemplateKind::OneTime,
            TemplateKindChoice::IncomeBased => ReminderTemplateKind::IncomeBased,
            TemplateKindChoice::Expired => ReminderTemplateKind::Expired,
        }
    }
}

/// The milestones a manager picks from.
#[derive(Debug, Clone, Copy, PartialEq, Eq, Structural)]
pub enum MilestoneChoice {
    Days30,
    Days14,
    Day1,
    Expired,
}

impl MilestoneChoice {
    /// The milestone picked.
    pub open spec fn picked(self) -> Milestone {
        match self {
            MilestoneChoice::Days30 => Milestone::Days30,
            MilestoneChoice::Days14 => Milestone::Days14,
            MilestoneChoice::Day1 => Milestone::Day1,
            MilestoneChoice::Expired => Milestone::Expired,
        }
    }

    /// The milestone picked.
    pub fn milestone(self) -> (r: Milestone)
        ensures
            r == self.picked(),
    {
        match self {
            MilestoneChoice::Days30 => Milestone::Days30,
            MilestoneChoice::Days14 => Milestone::Days14,
            MilestoneChoice::Day1 => Milestone::Day1,
            MilestoneChoice::Expired => Milestone::Expired,
        }
    }
}

/// The in-code gate: the refusal, where the invoker may not manage the server. What the
/// client hides is only a hint.
pub fn ensure_can_manage(can_manage: bool) -> (r: Option<&'static str>)
    ensures
        r is None <==> can_manage,
        r matches Some(s) ==> s@ == MANAGERS_ONLY@,
{
    if can_manage {
        None
    } else {
        Some(MANAGERS_ONLY)
    }
}

/// The body in use: the stored one, else the built-in one.
pub open spec fn body_in_use(
    stored: Option<Seq<char>>,
    kind: ReminderTemplateKind,
) -> Seq<char> {
    match stored {
        Some(body) => body,
        None => template_words(kind),
    }
}

fn body_of(stored: &Option<String>, kind: ReminderTemplateKind) -> (r: String)
    ensures
        r@ == body_in_use(opt_view(*stored), kind),
{
    match stored {
        Some(body) => body.clone(),
        None => default_template(kind).to_owned(),
    }
}

/// The template form: one required paragraph, prefilled with the body in use.
pub open spec fn template_modal_view(body: Seq<char>) -> ModalView {
    ModalView {
        id: "reminder_template"@,
        title: "Edit reminder template"@,
        inputs: seq![
            InputView {
                id: "body"@,
                label: "Template body"@,
                paragraph: true,
                placeholder: Some("Enter the reminder message body..."@),
                value: Some(body),
                required: true,
                min_length: Some(1),
                max_length: Some(1000),
            },
        ],
    }
}

/// Open the template form for a kind, prefilled so the manager edits rather than retypes.
pub fn template_form(kind: TemplateKindChoice, stored: &Option<String>) -> (r: Modal)
    ensures
        r@ == template_modal_view(body_in_use(opt_view(*stored), kind.picked())),
{
    let input = Input {
        id: "body".to_owned(),
        label: "Template body".to_owned(),
        paragraph: true,
        placeholder: Some("Enter the reminder message body...".to_owned()),
        value: Some(body_of(stored, kind.kind())),
        required: true,
        min_length: Some(1),
        max_length: Some(1000),
    };
    let modal = Modal {
        id: "reminder_template".to_owned(),
        title: "Edit reminder template".to_owned(),
        inputs: vec![input],
    };
    assert(modal@.inputs =~= seq![input@]);
    modal
}

/// The body to save from a submitted form: trimmed, and nothing where the form was dismissed
/// or only blank.
pub fn template_body(submitted: Option<&str>) -> (r: Option<String>)
    ensures
        r is Some <==> (submitted matches Some(s) && trimmed(s@).len() > 0),
        r matches Some(body) ==> body@ == trimmed(submitted->0@),
{
    match submitted {
        Some(s) => {
            let body = trim(s);
            if body.is_empty() {
                None
            } else {
                Some(body.to_owned())
            }
        },
        None => None,
    }
}

/// The confirmation of a saved template.
pub open spec fn template_saved_words(token: Seq<char>) -> Seq<char> {
    "Template for **"@ + token + "** saved."@
}

/// Confirm a saved template.
pub fn template_saved(token: &str) -> (r: String)
    ensures
        r@ == template_saved_words(token@),
{
    "Template for **".to_owned().concat(token).concat("** saved.")
}

/// A preview message.
#[derive(Debug, Clone, PartialEq, Eq)]
pub struct Preview {
    pub content: String,
    pub embed: Embed,
    pub row: Row,
}

/// A [`Preview`] over characters.
pub struct PreviewView {
    pub content: Seq<char>,
    pub embed: EmbedView,
    pub row: RowView,
}

impl View for Preview {
    type V = PreviewView;

    open spec fn view(&self) -> PreviewView {
        PreviewView { content: self.content@, embed: self.embed@, row: self.row@ }
    }
}

/// The placeholder days and milestone a preview shows.
pub open spec fn preview_moment(kind: ReminderTemplateKind) -> (int, Milestone) {
    if kind == ReminderTemplateKind::Expired {
        (-1, Milestone::Expired)
    } else {
        (14, Milestone::Days14)
    }
}

/// The preview of a kind's message.
pub open spec fn preview_view(
    kind: ReminderTemplateKind,
    token: Seq<char>,
    stored: Option<Seq<char>>,
    signup_url: Option<Seq<char>>,
    manager: DiscordUserId,
    accent: u32,
) -> PreviewView {
    PreviewView {
        content: "Preview for **"@ + token + "** template (placeholder data):"@,
        embed: reminder_view(body_in_use(stored, kind), preview_moment(kind).0, accent),
        row: RowView::Buttons(
            reminder_button_views(preview_moment(kind).1, signup_url, manager, true),
        ),
    }
}

/// Preview a kind's message on placeholder days. Its buttons are disabled, so that looking at
/// the layout fires nothing.
pub fn preview_message(
    kind: TemplateKindChoice,
    token: &str,
    stored: &Option<String>,
    cfg: &GuildConfig,
    manager: DiscordUserId,
    accent: u32,
) -> (r: Preview)
    ensures
        r@ == preview_view(
            kind.picked(),
            token@,
            opt_view(*stored),
            opt_view(cfg.dues_signup_url),
            manager,
            accent,
        ),
{
    let kind = kind.kind();
    let body = body_of(stored, kind);
    let expired = kind == ReminderTemplateKind::Expired;
    let days_until: i64 = if expired {
        -1
    } else {
        14
    };
    let milestone = if expired {
        Milestone::Expired
    } else {
        Milestone::Days14
    };
    Preview {
        content: "Preview for **".to_owned().concat(token).concat(
            "** template (placeholder data):",
        ),
        embed: reminder_embed(body.as_str(), days_until, accent),
        row: Row::Buttons(
            reminder_buttons(milestone, as_opt_str(&cfg.dues_signup_url), manager, true),
        ),
    }
}

/// The confirmation of a cleared opt-out.
pub open spec fn optout_cleared_words(member: DiscordUserId) -> Seq<char> {
    "Cleared dues-reminder opt-out for <@"@ + decimal(member.0 as nat)
        + ">. They will receive reminders again."@
}

/// Confirm a cleared opt-out.
pub fn optout_cleared(member: DiscordUserId) -> (r: String)
    ensures
        r@ == optout_cleared_words(member),
{
    "Cleared dues-reminder opt-out for <@".to_owned().concat(number(member.0).as_str()).concat(
        ">. They will receive reminders again.",
    )
}

/// What reading a member's cached record gave.
#[derive(Debug, Clone, Copy, PartialEq, Eq, Structural)]
pub enum CachedType {
    /// There is a record, with this membership type.
    Record(Option<MembershipType>),
    /// There is none.
    Absent,
    /// The store failed.
    Failed,
}

/// The membership type a test send goes by: the record's own, and Monthly where there is no
/// record to go by, so that the test still fires.
pub open spec fn type_to_send(cached: CachedType) -> Option<MembershipType> {
    match cached {
        CachedType::Record(t) => t,
        CachedType::Absent => Some(MembershipType::Monthly),
        CachedType::Failed => Some(MembershipType::Monthly),
    }
}

/// What a test send sends.
#[derive(Debug, Clone, Copy, PartialEq, Eq, Structural)]
pub struct TestSend {
    pub parent: DiscordChannelId,
    pub milestone: Milestone,
    pub days_until: i64,
    pub membership_type: Option<MembershipType>,
}

/// What a test send to this channel sends: the days follow from the milestone, and an expired
/// one is a day past.
pub open spec fn test_plan_of(
    parent: DiscordChannelId,
    milestone: Milestone,
    cached: CachedType,
) -> TestSend {
    TestSend {
        parent,
        milestone,
        days_until: match lead(milestone) {
            Some(d) => d,
            None => -1i64,
        },
        membership_type: type_to_send(cached),
    }
}

/// Plan a test send to this channel.
pub fn test_plan(parent: DiscordChannelId, milestone: MilestoneChoice, cached: CachedType) -> (r:
    TestSend)
    ensures
        r == test_plan_of(parent, milestone.picked(), cached),
{
    let milestone = milestone.milestone();
    let days_until: i64 = match milestone.lead_days() {
        Some(d) => d,
        None => -1,
    };
    let membership_type = match cached {
        CachedType::Record(t) => t,
        CachedType::Absent => Some(MembershipType::Monthly),
        CachedType::Failed => Some(MembershipType::Monthly),
    };
    TestSend { parent, milestone, days_until, membership_type }
}

/// The report of a test send.
pub open spec fn test_send_words(sent: bool, token: Seq<char>, member: DiscordUserId) -> Seq<char> {
    if sent {
        "Sent "@ + token + " reminder to <@"@ + decimal(member.0 as nat) + ">."@
    } else {
        TEST_SEND_FAILED@
    }
}

/// Report a test send.
pub fn test_send_report(sent: bool, token: &str, member: DiscordUserId) -> (r: String)
    ensures
        r@ == test_send_words(sent, token@, member),
{
    if sent {
        "Sent ".to_owned().concat(token).concat(" reminder to <@").concat(
            number(member.0).as_str(),
        ).concat(">.")
    } else {
        TEST_SEND_FAILED.to_owned()
    }
}

/// Where a `/reminders` invocation stands.
#[derive(Debug, Clone, Copy, PartialEq, Eq, Structural)]
pub enum RemindersPhase {
    /// Not begun.
    Start,
    /// Reading the stored body.
    ReadingBody,
    /// The template form is open.
    Editing,
    /// Saving the template.
    Saving,
    /// Clearing the opt-out.
    Clearing,
    /// Reading the member's membership type, for a reminder under this channel.
    ReadingType(DiscordChannelId),
    /// Sending the test reminder.
    Sending,
    /// Over.
    Done,
}

/// What just happened to a `/reminders` invocation.
#[derive(Debug, Clone, PartialEq, Eq)]
pub enum RemindersEvent {
    /// It was invoked, by someone who may manage the server or not.
    Invoked { can_manage: bool },
    /// The stored body, where there is one.
    Body(Option<String>),
    /// The form was submitted with this; absent where it was dismissed.
    Submitted(Option<String>),
    /// What reading the member's record gave.
    Cached(CachedType),
    /// The test reminder was sent, or could not be.
    Sent(bool),
    /// The last step was done.
    Finished,
    /// The last step failed.
    Failed,
}

/// What a `/reminders` invocation does next.
#[derive(Debug, Clone, PartialEq, Eq)]
pub enum RemindersAction {
    /// Say this, privately, and stop.
    Reply(String),
    /// Read the stored body of this kind.
    ReadBody(ReminderTemplateKind),
    /// Open this form.
    Open(Modal),
    /// Save this body for this kind.
    Save(ReminderTemplateKind, String),
    /// Show this preview and stop.
    Show(Preview),
    /// Clear this member's opt-out.
    Clear(DiscordUserId),
    /// Read this member's membership type.
    ReadType(DiscordUserId),
    /// Send this reminder.
    Send(TestSend),
    /// Stop without a word.
    Stop,
    /// Fail the command.
    Fail,
    /// Nothing: the event does not belong to this phase.
    Ignore,
}

/// A [`RemindersAction`] over characters.
pub enum RemindersActionView {
    Reply(Seq<char>),
    ReadBody(ReminderTemplateKind),
    Open(ModalView),
    Save(ReminderTemplateKind, Seq<char>),
    Show(PreviewView),
    Clear(DiscordUserId),
    ReadType(DiscordUserId),
    Send(TestSend),
    Stop,
    Fail,
    Ignore,
}

impl View for RemindersAction {
    type V = RemindersActionView;

    open spec fn view(&self) -> RemindersActionView {
        match self {
            RemindersAction::Reply(s) => RemindersActionView::Reply(s@),
            RemindersAction::ReadBody(k) => RemindersActionView::ReadBody(*k),
            RemindersAction::Open(m) => RemindersActionView::Open(m@),
            RemindersAction::Save(k, b) => RemindersActionView::Save(*k, b@),
            RemindersAction::Show(p) => RemindersActionView::Show(p@),
            RemindersAction::Clear(m) => RemindersActionView::Clear(*m),
            RemindersAction::ReadType(m) => RemindersActionView::ReadType(*m),
            RemindersAction::Send(t) => RemindersActionView::Send(*t),
            RemindersAction::Stop => RemindersActionView::Stop,
            RemindersAction::Fail => RemindersActionView::Fail,
            RemindersAction::Ignore => RemindersActionView::Ignore,
        }
    }
}

/// The first step of a command: whoever may not manage the server is refused.
pub open spec fn gated(
    can_manage: bool,
    next: (RemindersPhase, RemindersActionView),
) -> (RemindersPhase, RemindersActionView) {
    if can_manage {
        next
    } else {
        (RemindersPhase::Done, RemindersActionView::Reply(MANAGERS_ONLY@))
    }
}

/// `/reminders template`, one event at a time.
pub open spec fn template_next(
    kind: ReminderTemplateKind,
    token: Seq<char>,
    phase: RemindersPhase,
    event: RemindersEvent,
) -> (RemindersPhase, RemindersActionView) {
    match (phase, event) {
        (RemindersPhase::Start, RemindersEvent::Invoked { can_manage }) => gated(
            can_manage,
            (RemindersPhase::ReadingBody, RemindersActionView::ReadBody(kind)),
        ),
        (RemindersPhase::ReadingBody, RemindersEvent::Body(stored)) => (
            RemindersPhase::Editing,
            RemindersActionView::Open(template_modal_view(body_in_use(opt_view(stored), kind))),
        ),
        (RemindersPhase::Editing, RemindersEvent::Submitted(typed)) => match typed {
            Some(s) if trimmed(s@).len() > 0 => (
                RemindersPhase::Saving,
                RemindersActionView::Save(kind, trimmed(s@)),
            ),
            _ => (RemindersPhase::Done, RemindersActionView::Stop),
        },
        (RemindersPhase::Saving, RemindersEvent::Finished) => (
            RemindersPhase::Done,
            RemindersActionView::Reply(template_saved_words(token)),
        ),
        (RemindersPhase::ReadingBody, RemindersEvent::Failed) | (
            RemindersPhase::Editing,
            RemindersEvent::Failed,
        ) | (RemindersPhase::Saving, RemindersEvent::Failed) => (
            RemindersPhase::Done,
            RemindersActionView::Fail,
        ),
        _ => (phase, RemindersActionView::Ignore),
    }
}

fn refused() -> (r: (RemindersPhase, RemindersAction))
    ensures
        r.0 == RemindersPhase::Done,
        r.1@ == RemindersActionView::Reply(MANAGERS_ONLY@),
{
    (RemindersPhase::Done, RemindersAction::Reply(MANAGERS_ONLY.to_owned()))
}

/// `/reminders template`: open the form prefilled with the body in use, and save what is
/// submitted, trimmed. A form that was dismissed or is only blank saves nothing.
pub fn template(
    kind: TemplateKindChoice,
    token: &str,
    phase: RemindersPhase,
    event: &RemindersEvent,
) -> (r: (RemindersPhase, RemindersAction))
    ensures
        (r.0, r.1@) == template_next(kind.picked(), token@, phase, *event),
{
    match (phase, event) {
        (RemindersPhase::Start, RemindersEvent::Invoked { can_manage }) => {
            if ensure_can_manage(*can_manage).is_some() {
                return refused();
            }
            (RemindersPhase::ReadingBody, RemindersAction::ReadBody(kind.kind()))
        },
        (RemindersPhase::ReadingBody, RemindersEvent::Body(stored)) => (
            RemindersPhase::Editing,
            RemindersAction::Open(template_form(kind, stored)),
        ),
        (RemindersPhase::Editing, RemindersEvent::Submitted(typed)) => match template_body(
            as_opt_str(typed),
        ) {
            Some(body) => (RemindersPhase::Saving, RemindersAction::Save(kind.kind(), body)),
            None => (RemindersPhase::Done, RemindersAction::Stop),
        },
        (RemindersPhase::Saving, RemindersEvent::Finished) => (
            RemindersPhase::Done,
            RemindersAction::Reply(template_saved(token)),
        ),
        (RemindersPhase::ReadingBody, RemindersEvent::Failed) => (
            RemindersPhase::Done,
            RemindersAction::Fail,
        ),
        (RemindersPhase::Editing, RemindersEvent::Failed) => (
            RemindersPhase::Done,
            RemindersAction::Fail,
        ),
        (RemindersPhase::Saving, RemindersEvent::Failed) => (
            RemindersPhase::Done,
            RemindersAction::Fail,
        ),
        _ => (phase, RemindersAction::Ignore),
    }
}

/// `/reminders preview`, one event at a time.
pub open spec fn preview_next(
    kind: ReminderTemplateKind,
    token: Seq<char>,
    signup_url: Option<Seq<char>>,
    manager: DiscordUserId,
    accent: u32,
    phase: RemindersPhase,
    event: RemindersEvent,
) -> (RemindersPhase, RemindersActionView) {
    match (phase, event) {
        (RemindersPhase::Start, RemindersEvent::Invoked { can_manage }) => gated(
            can_manage,
            (RemindersPhase::ReadingBody, RemindersActionView::ReadBody(kind)),
        ),
        (RemindersPhase::ReadingBody, RemindersEvent::Body(stored)) => (
            RemindersPhase::Done,
            RemindersActionView::Show(
                preview_view(kind, token, opt_view(stored), signup_url, manager, accent),
            ),
        ),
        (RemindersPhase::ReadingBody, RemindersEvent::Failed) => (
            RemindersPhase::Done,
            RemindersActionView::Fail,
        ),
        _ => (phase, RemindersActionView::Ignore),
    }
}

/// `/reminders preview`: show a kind's message on placeholder days.
pub fn preview(
    kind: TemplateKindChoice,
    token: &str,
    cfg: &GuildConfig,
    manager: DiscordUserId,
    accent: u32,
    phase: RemindersPhase,
    event: &RemindersEvent,
) -> (r: (RemindersPhase, RemindersAction))
    ensures
        (r.0, r.1@) == preview_next(
            kind.picked(),
            token@,
            opt_view(cfg.dues_signup_url),
            manager,
            accent,
            phase,
            *event,
        ),
{
    match (phase, event) {
        (RemindersPhase::Start, RemindersEvent::Invoked { can_manage }) => {
            if ensure_can_manage(*can_manage).is_some() {
                return refused();
            }
            (RemindersPhase::ReadingBody, RemindersAction::ReadBody(kind.kind()))
        },
        (RemindersPhase::ReadingBody, RemindersEvent::Body(stored)) => (
            RemindersPhase::Done,
            RemindersAction::Show(preview_message(kind, token, stored, cfg, manager, accent)),
        ),
        (RemindersPhase::ReadingBody, RemindersEvent::Failed) => (
            RemindersPhase::Done,
            RemindersAction::Fail,
        ),
        _ => (phase, RemindersAction::Ignore),
    }
}

/// `/reminders clear-optout`, one event at a time.
pub open spec fn clear_optout_next(
    member: DiscordUserId,
    phase: RemindersPhase,
    event: RemindersEvent,
) -> (RemindersPhase, RemindersActionView) {
    match (phase, event) {
        (RemindersPhase::Start, RemindersEvent::Invoked { can_manage }) => gated(
            can_manage,
            (RemindersPhase::Clearing, RemindersActionView::Clear(member)),
        ),
        (RemindersPhase::Clearing, RemindersEvent::Finished) => (
            RemindersPhase::Done,
            RemindersActionView::Reply(optout_cleared_words(member)),
        ),
        (RemindersPhase::Clearing, RemindersEvent::Failed) => (
            RemindersPhase::Done,
            RemindersActionView::Fail,
        ),
        _ => (phase, RemindersActionView::Ignore),
    }
}

/// `/reminders clear-optout`: lift a member's permanent opt-out.
pub fn clear_optout(member: DiscordUserId, phase: RemindersPhase, event: &RemindersEvent) -> (r: (
    RemindersPhase,
    RemindersAction,
))
    ensures
        (r.0, r.1@) == clear_optout_next(member, phase, *event),
{
    match (phase, event) {
        (RemindersPhase::Start, RemindersEvent::Invoked { can_manage }) => {
            if ensure_can_manage(*can_manage).is_some() {
                return refused();
            }
            (RemindersPhase::Clearing, RemindersAction::Clear(member))
        },
        (RemindersPhase::Clearing, RemindersEvent::Finished) => (
            RemindersPhase::Done,
            RemindersAction::Reply(optout_cleared(member)),
        ),
        (RemindersPhase::Clearing, RemindersEvent::Failed) => (
            RemindersPhase::Done,
            RemindersAction::Fail,
        ),
        _ => (phase, RemindersAction::Ignore),
    }
}

/// `/reminders test-send`, one event at a time.
pub open spec fn test_send_next(
    channel: Option<DiscordChannelId>,
    member: DiscordUserId,
    milestone: Milestone,
    token: Seq<char>,
    phase: RemindersPhase,
    event: RemindersEvent,
) -> (RemindersPhase, RemindersActionView) {
    match (phase, event) {
        (RemindersPhase::Start, RemindersEvent::Invoked { can_manage }) => gated(
            can_manage,
            match channel {
                Some(parent) => (
                    RemindersPhase::ReadingType(parent),
                    RemindersActionView::ReadType(member),
                ),
                None => (RemindersPhase::Done, RemindersActionView::Reply(NO_REMINDER_CHANNEL@)),
            },
        ),
        (RemindersPhase::ReadingType(parent), RemindersEvent::Cached(cached)) => (
            RemindersPhase::Sending,
            RemindersActionView::Send(test_plan_of(parent, milestone, cached)),
        ),
        (RemindersPhase::Sending, RemindersEvent::Sent(sent)) => (
            RemindersPhase::Done,
            RemindersActionView::Reply(test_send_words(sent, token, member)),
        ),
        _ => (phase, RemindersActionView::Ignore),
    }
}

/// `/reminders test-send`: send one member a reminder now. Without a reminder channel there
/// is nowhere to send it.
pub fn test_send(
    cfg: &GuildConfig,
    member: DiscordUserId,
    milestone: MilestoneChoice,
    token: &str,
    phase: RemindersPhase,
    event: &RemindersEvent,
) -> (r: (RemindersPhase, RemindersAction))
    ensures
        (r.0, r.1@) == test_send_next(
            cfg.dues_reminder_channel,
            member,
            milestone.picked(),
            token@,
            phase,
            *event,
        ),
{
    match (phase, event) {
        (RemindersPhase::Start, RemindersEvent::Invoked { can_manage }) => {
            if ensure_can_manage(*can_manage).is_some() {
                return refused();
            }
            match cfg.dues_reminder_channel {
                Some(parent) => (
                    RemindersPhase::ReadingType(parent),
                    RemindersAction::ReadType(member),
                ),
                None => (
                    RemindersPhase::Done,
                    RemindersAction::Reply(NO_REMINDER_CHANNEL.to_owned()),
                ),
            }
        },
        (RemindersPhase::ReadingType(parent), RemindersEvent::Cached(cached)) => (
            RemindersPhase::Sending,
            RemindersAction::Send(test_plan(parent, milestone, *cached)),
        ),
        (RemindersPhase::Sending, RemindersEvent::Sent(sent)) => (
            RemindersPhase::Done,
            RemindersAction::Reply(test_send_report(*sent, token, member)),
        ),
        _ => (phase, RemindersAction::Ignore),
    }
}

/// Whoever may not manage the server gets the refusal from every `/reminders` command and
/// nothing else: what follows the refusal changes nothing, and until their permission is known
/// nothing is read, saved, cleared or sent.
pub proof fn law_reminders_are_for_managers(
    kind: ReminderTemplateKind,
    token: Seq<char>,
    signup_url: Option<Seq<char>>,
    channel: Option<DiscordChannelId>,
    member: DiscordUserId,
    milestone: Milestone,
    accent: u32,
    event: RemindersEvent,
)
    ensures
        ({
            let refusal = (RemindersPhase::Done, RemindersActionView::Reply(MANAGERS_ONLY@));
            let start = RemindersPhase::Start;
            let done = RemindersPhase::Done;
            let over = (done, RemindersActionView::Ignore);
            &&& event == (RemindersEvent::Invoked { can_manage: false }) ==> {
                &&& template_next(kind, token, start, event) == refusal
                &&& preview_next(kind, token, signup_url, member, accent, start, event) == refusal
                &&& clear_optout_next(member, start, event) == refusal
                &&& test_send_next(channel, member, milestone, token, start, event) == refusal
            }
            &&& !(event is Invoked) ==> {
                let idle = (start, RemindersActionView::Ignore);
                &&& template_next(kind, token, start, event) == idle
                &&& preview_next(kind, token, signup_url, member, accent, start, event) == idle
                &&& clear_optout_next(member, start, event) == idle
                &&& test_send_next(channel, member, milestone, token, start, event) == idle
            }
            &&& template_next(kind, token, done, event) == over
            &&& preview_next(kind, token, signup_url, member, accent, done, event) == over
            &&& clear_optout_next(member, done, event) == over
            &&& test_send_next(channel, member, milestone, token, done, event) == over
        }),
{
}

/// Every button of a preview that could act is disabled.
pub proof fn law_preview_buttons_do_nothing(
    milestone: Milestone,
    url: Option<Seq<char>>,
    manager: DiscordUserId,
    i: int,
)
    requires
        0 <= i < reminder_button_views(milestone, url, manager, true).len(),
    ensures
        (reminder_button_views(milestone, url, manager, true)[i] matches
            crate::ui::ButtonView::Press { id, label, style, disabled } ==> disabled),
{
}

/// What a manager picks is what is meant.
pub proof fn law_picks_mean_what_they_say(
    a: TemplateKindChoice,
    b: TemplateKindChoice,
    m: MilestoneChoice,
    n: MilestoneChoice,
)
    ensures
        TemplateKindChoice::Monthly.picked() == ReminderTemplateKind::Monthly,
        TemplateKindChoice::Yearly.picked() == ReminderTemplateKind::Yearly,
        TemplateKindChoice::OneTime.picked() == ReminderTemplateKind::OneTime,
        TemplateKindChoice::IncomeBased.picked() == ReminderTemplateKind::IncomeBased,
        TemplateKindChoice::Expired.picked() == ReminderTemplateKind::Expired,
        MilestoneChoice::Days30.picked() == Milestone::Days30,
        MilestoneChoice::Days14.picked() == Milestone::Days14,
        MilestoneChoice::Day1.picked() == Milestone::Day1,
        MilestoneChoice::Expired.picked() == Milestone::Expired,
        a != b ==> a.picked() != b.picked(),
        m != n ==> m.picked() != n.picked(),
{
}

/// `/reminders template` walked through: the body in use of the very kind picked is read and
/// offered, and what is typed, without the blanks around it, is saved for that kind and
/// confirmed under its name. Nothing blank is saved.
pub proof fn law_a_template_is_edited_for_its_kind(
    kind: ReminderTemplateKind,
    token: Seq<char>,
    stored: Option<String>,
    typed: String,
)
    ensures
        ({
            let asked = template_next(
                kind,
                token,
                RemindersPhase::Start,
                RemindersEvent::Invoked { can_manage: true },
            );
            let opened = template_next(kind, token, asked.0, RemindersEvent::Body(stored));
            let typed_in = template_next(
                kind,
                token,
                opened.0,
                RemindersEvent::Submitted(Some(typed)),
            );
            let dismissed = template_next(kind, token, opened.0, RemindersEvent::Submitted(None));
            let saved = template_next(kind, token, typed_in.0, RemindersEvent::Finished);
            &&& asked.1 == RemindersActionView::ReadBody(kind)
            &&& (opened.1 matches RemindersActionView::Open(form) && form.inputs.len() == 1
                && form.inputs[0].required && form.inputs[0].value == Some(
                match stored {
                    Some(body) => body@,
                    None => template_words(kind),
                },
            ))
            &&& dismissed.1 == RemindersActionView::Stop
            &&& trimmed(typed@).len() == 0 ==> typed_in.1 == RemindersActionView::Stop
            &&& trimmed(typed@).len() > 0 ==> typed_in.1 == RemindersActionView::Save(
                kind,
                trimmed(typed@),
            ) && saved == (
                RemindersPhase::Done,
                RemindersActionView::Reply("Template for **"@ + token + "** saved."@),
            )
            &&& template_next(kind, token, asked.0, RemindersEvent::Failed).1
                == RemindersActionView::Fail
            &&& template_next(kind, token, opened.0, RemindersEvent::Failed).1
                == RemindersActionView::Fail
        }),
{
}

/// `/reminders preview` walked through: the very kind picked is read and shown, as it would
/// be sent, on placeholder days and with dead buttons.
pub proof fn law_a_preview_shows_its_kind(
    kind: ReminderTemplateKind,
    token: Seq<char>,
    signup_url: Option<Seq<char>>,
    manager: DiscordUserId,
    accent: u32,
    stored: Option<String>,
)
    ensures
        ({
            let asked = preview_next(
                kind,
                token,
                signup_url,
                manager,
                accent,
                RemindersPhase::Start,
                RemindersEvent::Invoked { can_manage: true },
            );
            let shown = preview_next(
                kind,
                token,
                signup_url,
                manager,
                accent,
                asked.0,
                RemindersEvent::Body(stored),
            );
            let body = match stored {
                Some(b) => b@,
                None => template_words(kind),
            };
            &&& asked.1 == RemindersActionView::ReadBody(kind)
            &&& shown.0 == RemindersPhase::Done
            &&& shown.1 matches RemindersActionView::Show(p)
            &&& p.content == "Preview for **"@ + token + "** template (placeholder data):"@
            &&& kind == ReminderTemplateKind::Expired ==> p.embed == reminder_view(body, -1, accent)
                && p.row == RowView::Buttons(
                reminder_button_views(Milestone::Expired, signup_url, manager, true),
            )
            &&& kind != ReminderTemplateKind::Expired ==> p.embed == reminder_view(body, 14, accent)
                && p.row == RowView::Buttons(
                reminder_button_views(Milestone::Days14, signup_url, manager, true),
            )
            &&& preview_next(
                kind,
                token,
                signup_url,
                manager,
                accent,
                asked.0,
                RemindersEvent::Failed,
            ).1 == RemindersActionView::Fail
        }),
{
}

/// `/reminders clear-optout` clears the opt-out of the very member named, and says so of
/// them.
pub proof fn law_an_optout_is_cleared_for_its_member(member: DiscordUserId)
    ensures
        ({
            let asked = clear_optout_next(
                member,
                RemindersPhase::Start,
                RemindersEvent::Invoked { can_manage: true },
            );
            &&& asked.1 == RemindersActionView::Clear(member)
            &&& clear_optout_next(member, asked.0, RemindersEvent::Finished) == (
                RemindersPhase::Done,
                RemindersActionView::Reply(
                    "Cleared dues-reminder opt-out for <@"@ + decimal(member.0 as nat)
                        + ">. They will receive reminders again."@,
                ),
            )
            &&& clear_optout_next(member, asked.0, RemindersEvent::Failed) == (
                RemindersPhase::Done,
                RemindersActionView::Fail,
            )
        }),
{
}

/// `/reminders test-send` sends the milestone picked to the member named, under the
/// configured channel, with the days that milestone leads by and the way of paying on
/// record, and tells whether it was sent; without a channel it says so.
pub proof fn law_a_test_send_sends_what_was_picked(
    channel: Option<DiscordChannelId>,
    member: DiscordUserId,
    milestone: Milestone,
    token: Seq<char>,
    cached: CachedType,
    sent: bool,
)
    ensures
        ({
            let asked = test_send_next(
                channel,
                member,
                milestone,
                token,
                RemindersPhase::Start,
                RemindersEvent::Invoked { can_manage: true },
            );
            let read = test_send_next(
                channel,
                member,
                milestone,
                token,
                asked.0,
                RemindersEvent::Cached(cached),
            );
            let told = test_send_next(
                channel,
                member,
                milestone,
                token,
                read.0,
                RemindersEvent::Sent(sent),
            );
            &&& channel is None ==> asked == (
                RemindersPhase::Done,
                RemindersActionView::Reply(NO_REMINDER_CHANNEL@),
            )
            &&& channel is Some ==> {
                &&& asked.1 == RemindersActionView::ReadType(member)
                &&& read.1 matches RemindersActionView::Send(plan)
                &&& Some(plan.parent) == channel
                &&& plan.milestone == milestone
                &&& plan.days_until == (match milestone {
                    Milestone::Days30 => 30int,
                    Milestone::Days14 => 14int,
                    Milestone::Day1 => 1int,
                    Milestone::Expired => -1int,
                })
                &&& plan.membership_type == (match cached {
                    CachedType::Record(t) => t,
                    _ => Some(MembershipType::Monthly),
                })
                &&& told.0 == RemindersPhase::Done
                &&& told.1 == RemindersActionView::Reply(
                    if sent {
                        "Sent "@ + token + " reminder to <@"@ + decimal(member.0 as nat) + ">."@
                    } else {
                        TEST_SEND_FAILED@
                    },
                )
            }
        }),
{
}

/// A command that was answered, stopped or failed is over; what does not belong to where it
/// stands changes nothing.
pub proof fn law_an_answered_command_is_over(
    kind: ReminderTemplateKind,
    token: Seq<char>,
    signup_url: Option<Seq<char>>,
    channel: Option<DiscordChannelId>,
    member: DiscordUserId,
    milestone: Milestone,
    accent: u32,
    phase: RemindersPhase,
    event: RemindersEvent,
)
    ensures
        ({
            let over = |r: (RemindersPhase, RemindersActionView)|
                (r.1 is Reply || r.1 is Show || r.1 is Stop || r.1 is Fail ==> r.0
                    == RemindersPhase::Done) && (r.1 is Ignore ==> r.0 == phase);
            &&& over(template_next(kind, token, phase, event))
            &&& over(preview_next(kind, token, signup_url, member, accent, phase, event))
            &&& over(clear_optout_next(member, phase, event))
            &&& over(test_send_next(channel, member, milestone, token, phase, event))
        }),
{
}

} // verus!
