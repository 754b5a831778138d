//! `/verify @member`: match a member on record and assign their role.
//!
//! On an automatic miss the moderator can supply the member's email by hand, or approve
//! the member outright. [`verify_step`] drives that exchange on one host message, and
//! the bulk wizard shares it.

use vstd::prelude::*;

use crate::commands::reclick::{reclick_action, ReclickAction};
use crate::commands::replies::{BACKEND_FAILURE, MODERATORS_ONLY, ROLES_NOT_CONFIGURED};
use crate::ids::Email;
use crate::render::modal::{
    email_modal, override_modal, parse_email, parse_reason, EMAIL_MODAL_ID, OVERRIDE_MODAL_ID,
};
use crate::render::verify::{state_embed, VerifyState};
use crate::role::Role;
use crate::text::{number, same};
use crate::ui::{press, Button, Embed, Modal, Row, Style};

#[allow(unused_imports)]
use crate::render::modal::{email_modal_view, non_empty, override_modal_view, plausible_email};
#[allow(unused_imports)]
use crate::render::verify::state_view;
#[allow(unused_imports)]
use crate::text::{decimal, trimmed};
#[allow(unused_imports)]
use crate::ui::{
    button_views, opt_str_view, opt_view, press_view, row_views, ButtonView, EmbedView, ModalView,
    RowView,
};

verus! {

/// The "Look up by email" button.
pub const LOOKUP_BUTTON_ID: &'static str = "verify_lookup_email";

/// The "Override and approve" button, shown only once a lookup has missed.
pub const OVERRIDE_BUTTON_ID: &'static str = "verify_override_approve";

/// How long the exchange waits for the moderator, in seconds.
pub const IDLE_SECS: u64 = 180;

/// What matching a member on record came to.
#[derive(Debug, Clone, Copy, PartialEq, Eq, Structural)]
pub enum VerifyOutcome {
    /// Matched, and this role was assigned.
    Verified(Role),
    /// No record matched the Discord account.
    Unverified,
    /// No record matched the email.
    NotFound,
    /// The record belongs to a different account; nothing was changed.
    Conflict,
}

/// How an exchange with the moderator ended.
#[derive(Debug, Clone, Copy, PartialEq, Eq, Structural)]
pub enum StepOutcome {
    /// The member was found on record and the role was assigned.
    Verified(Role),
    /// The member was approved by hand.
    Overridden,
    /// A wizard control was pressed instead; its press is handed back.
    NotFoundExhausted,
    /// The record is a different account's; nothing was changed.
    Conflict,
    /// The moderator did not interact within the idle window.
    Expired,
    /// A backend error occurred.
    Errored,
}

/// The member an exchange is about, as shown on its embeds.
#[derive(Debug, Clone, PartialEq, Eq)]
pub struct TargetCard {
    pub display: String,
    pub handle: String,
    pub avatar: String,
}

/// Head an exchange: the global display name where there is one, else the handle.
pub fn header(global_name: Option<&str>, name: &str, avatar: &str) -> (r: TargetCard)
    ensures
        r.display@ == (match global_name {
            Some(g) => g@,
            None => name@,
        }),
        r.handle@ == name@,
        r.avatar@ == avatar@,
{
    let display = match global_name {
        Some(g) => g.to_owned(),
        None => name.to_owned(),
    };
    TargetCard { display, handle: name.to_owned(), avatar: avatar.to_owned() }
}

impl TargetCard {
    /// The embed of a state for this member.
    pub open spec fn shows(&self, state: VerifyState) -> EmbedView {
        state_view(self.display@, self.handle@, self.avatar@, state)
    }

    fn embed(&self, state: VerifyState) -> (r: Embed)
        ensures
            r@ == self.shows(state),
    {
        state_embed(self.display.as_str(), self.handle.as_str(), self.avatar.as_str(), &state)
    }
}

/// The controls of a state: the lookup button always, the override button once a lookup
/// has missed, then the caller's own.
pub open spec fn buttons_view(state: VerifyState, extra: Seq<ButtonView>) -> RowView {
    let lookup = seq![press_view(LOOKUP_BUTTON_ID@, "Look up by email"@, Style::Primary)];
    let escape = if state == VerifyState::NotFound {
        seq![press_view(OVERRIDE_BUTTON_ID@, "Override and approve"@, Style::Danger)]
    } else {
        seq![]
    };
    RowView::Buttons(lookup + escape + extra)
}

/// Build the button row for a state.
pub fn buttons_for(state: &VerifyState, extra_buttons: &Vec<Button>) -> (r: Row)
    ensures
        r@ == buttons_view(*state, button_views(extra_buttons@)),
{
    let mut buttons: Vec<Button> = Vec::new();
    buttons.push(press(LOOKUP_BUTTON_ID, "Look up by email", Style::Primary));
    if matches!(state, VerifyState::NotFound) {
        buttons.push(press(OVERRIDE_BUTTON_ID, "Override and approve", Style::Danger));
    }
    let ghost own = button_views(buttons@);
    let mut i: usize = 0;
    while i < extra_buttons.len()
        invariant
            i <= extra_buttons.len(),
            button_views(buttons@) =~= own + button_views(extra_buttons@).take(i as int),
        decreases extra_buttons.len() - i,
    {
        let ghost before = button_views(buttons@);
        let ghost others = button_views(extra_buttons@);
        buttons.push(extra_buttons[i].copy());
        assert(button_views(buttons@) =~= before.push(others[i as int]));
        assert(own + others.take(i + 1) =~= (own + others.take(i as int)).push(others[i as int]));
        i += 1;
    }
    proof {
        let lookup = seq![press_view(LOOKUP_BUTTON_ID@, "Look up by email"@, Style::Primary)];
        let escape = if *state == VerifyState::NotFound {
            seq![press_view(OVERRIDE_BUTTON_ID@, "Override and approve"@, Style::Danger)]
        } else {
            seq![]
        };
        assert(own =~= lookup + escape);
        assert(button_views(buttons@) =~= lookup + escape + button_views(extra_buttons@));
    }
    Row::Buttons(buttons)
}

/// Where an exchange stands.
#[derive(Debug, Clone, Copy, PartialEq, Eq, Structural)]
pub enum StepPhase {
    /// Waiting for a button press.
    AwaitPress,
    /// The email modal is open.
    AwaitEmail,
    /// A typed email is being matched.
    LookingUp,
    /// The override-reason modal is open.
    AwaitReason,
    /// The hand approval is being written.
    Approving,
    /// Over.
    Finished,
}

/// What just happened in an exchange.
#[derive(Debug, Clone, PartialEq, Eq)]
pub enum StepEvent {
    /// Nothing arrived within the idle window.
    Idle,
    /// A button with this id was pressed.
    Pressed(String),
    /// The open modal was submitted with this text.
    Submitted(String),
    /// The lookup ended; absent on a backend error.
    LookedUp(Option<VerifyOutcome>),
    /// The hand approval was written, or failed.
    Approved(bool),
}

/// What to do next in an exchange.
#[derive(Debug, Clone, PartialEq, Eq)]
pub enum StepAction {
    /// Open this modal in response to the press.
    Open(Modal),
    /// Match this email on record.
    LookUp(Email),
    /// Approve by hand, for this reason.
    Approve(Option<String>),
    /// Edit the host message and wait for the next press.
    Show(Embed, Row),
    /// The exchange is over; edit the host message where an embed is given, leaving no
    /// controls.
    Finish(StepOutcome, Option<Embed>),
    /// The exchange is over; the press belongs to the caller.
    HandBack,
    /// Nothing: the event does not belong to this phase.
    Ignore,
}

/// A [`StepEvent`] over characters.
pub enum StepEventView {
    Idle,
    Pressed(Seq<char>),
    Submitted(Seq<char>),
    LookedUp(Option<VerifyOutcome>),
    Approved(bool),
}

impl View for StepEvent {
    type V = StepEventView;

    open spec fn view(&self) -> StepEventView {
        match self {
            StepEvent::Idle => StepEventView::Idle,
            StepEvent::Pressed(id) => StepEventView::Pressed(id@),
            StepEvent::Submitted(s) => StepEventView::Submitted(s@),
            StepEvent::LookedUp(o) => StepEventView::LookedUp(*o),
            StepEvent::Approved(b) => StepEventView::Approved(*b),
        }
    }
}

/// A [`StepAction`] over characters.
pub enum StepActionView {
    Open(ModalView),
    LookUp(Seq<char>),
    Approve(Option<Seq<char>>),
    Show(EmbedView, RowView),
    Finish(StepOutcome, Option<EmbedView>),
    HandBack,
    Ignore,
}

impl View for StepAction {
    type V = StepActionView;

    open spec fn view(&self) -> StepActionView {
        match self {
            StepAction::Open(m) => StepActionView::Open(m@),
            StepAction::LookUp(e) => StepActionView::LookUp(e@),
            StepAction::Approve(r) => StepActionView::Approve(opt_view(*r)),
            StepAction::Show(e, r) => StepActionView::Show(e@, r@),
            StepAction::Finish(o, e) => StepActionView::Finish(
                *o,
                match e {
                    Some(e) => Some(e@),
                    None => None,
                },
            ),
            StepAction::HandBack => StepActionView::HandBack,
            StepAction::Ignore => StepActionView::Ignore,
        }
    }
}

/// What an exchange is run with.
#[derive(Debug, Clone, PartialEq, Eq)]
pub struct StepContext {
    pub target: TargetCard,
    /// The host message, which keeps this exchange's modals apart from others'.
    pub message_id: u64,
    /// The wizard controls shown beside the exchange's own buttons.
    pub extra_buttons: Vec<Button>,
    /// Whether the Manual Override role is configured at this moment.
    pub override_role_set: bool,
}

impl StepContext {
    /// The modal a lookup press opens.
    pub open spec fn email_form(&self) -> ModalView {
        email_modal_view(
            EMAIL_MODAL_ID@ + ":"@ + decimal(self.message_id as nat),
            self.target.display@,
        )
    }

    /// The modal an override press opens.
    pub open spec fn reason_form(&self) -> ModalView {
        override_modal_view(
            OVERRIDE_MODAL_ID@ + ":"@ + decimal(self.message_id as nat),
            self.target.display@,
        )
    }

    fn open_email(&self) -> (r: Modal)
        ensures
            r@ == self.email_form(),
    {
        let id = EMAIL_MODAL_ID.to_owned().concat(":").concat(number(self.message_id).as_str());
        email_modal(id.as_str(), self.target.display.as_str())
    }

    fn open_reason(&self) -> (r: Modal)
        ensures
            r@ == self.reason_form(),
    {
        let id = OVERRIDE_MODAL_ID.to_owned().concat(":").concat(number(self.message_id).as_str());
        override_modal(id.as_str(), self.target.display.as_str())
    }
}

/// Route a button press: a wizard control goes back to the caller; the override button
/// asks for a reason, or fails where the role it grants is not configured; anything else
/// asks for an email.
pub open spec fn press_next(cx: StepContext, pressed: Seq<char>) -> (StepPhase, StepActionView) {
    if cx.extra_buttons@.len() > 0 && pressed != LOOKUP_BUTTON_ID@ && pressed
        != OVERRIDE_BUTTON_ID@ {
        (StepPhase::Finished, StepActionView::HandBack)
    } else if pressed == OVERRIDE_BUTTON_ID@ {
        if cx.override_role_set {
            (StepPhase::AwaitReason, StepActionView::Open(cx.reason_form()))
        } else {
            (
                StepPhase::Finished,
                StepActionView::Finish(
                    StepOutcome::Errored,
                    Some(cx.target.shows(VerifyState::Error)),
                ),
            )
        }
    } else {
        (StepPhase::AwaitEmail, StepActionView::Open(cx.email_form()))
    }
}

/// What a finished lookup shows.
pub open spec fn lookup_state(outcome: Option<VerifyOutcome>) -> VerifyState {
    match outcome {
        Some(VerifyOutcome::Verified(role)) => VerifyState::Verified(role),
        Some(VerifyOutcome::NotFound) | Some(VerifyOutcome::Unverified) => VerifyState::NotFound,
        Some(VerifyOutcome::Conflict) => VerifyState::Conflict,
        None => VerifyState::Error,
    }
}

/// Show a state: a miss or a typo keeps the exchange open, everything else ends it.
pub open spec fn shown_next(cx: StepContext, state: VerifyState) -> (StepPhase, StepActionView) {
    match state {
        VerifyState::NotFound | VerifyState::InvalidEmail => (
            StepPhase::AwaitPress,
            StepActionView::Show(
                cx.target.shows(state),
                buttons_view(state, button_views(cx.extra_buttons@)),
            ),
        ),
        VerifyState::Verified(role) => (
            StepPhase::Finished,
            StepActionView::Finish(StepOutcome::Verified(role), Some(cx.target.shows(state))),
        ),
        VerifyState::Conflict => (
            StepPhase::Finished,
            StepActionView::Finish(StepOutcome::Conflict, Some(cx.target.shows(state))),
        ),
        _ => (
            StepPhase::Finished,
            StepActionView::Finish(StepOutcome::Errored, Some(cx.target.shows(state))),
        ),
    }
}

/// The exchange, one event at a time.
pub open spec fn step_next(cx: StepContext, phase: StepPhase, event: StepEventView) -> (
    StepPhase,
    StepActionView,
) {
    match (phase, event) {
        (StepPhase::AwaitPress, StepEventView::Idle)
        | (StepPhase::AwaitEmail, StepEventView::Idle)
        | (StepPhase::AwaitReason, StepEventView::Idle) => (
            StepPhase::Finished,
            StepActionView::Finish(StepOutcome::Expired, None),
        ),
        (StepPhase::AwaitPress, StepEventView::Pressed(id)) => press_next(cx, id),
        (StepPhase::AwaitEmail, StepEventView::Pressed(id)) => if id == LOOKUP_BUTTON_ID@ {
            (StepPhase::AwaitEmail, StepActionView::Open(cx.email_form()))
        } else {
            press_next(cx, id)
        },
        (StepPhase::AwaitReason, StepEventView::Pressed(id)) => if id == OVERRIDE_BUTTON_ID@ {
            (StepPhase::AwaitReason, StepActionView::Open(cx.reason_form()))
        } else {
            press_next(cx, id)
        },
        (StepPhase::AwaitEmail, StepEventView::Submitted(raw)) => if plausible_email(
            trimmed(raw),
        ) {
            (StepPhase::LookingUp, StepActionView::LookUp(trimmed(raw)))
        } else {
            shown_next(cx, VerifyState::InvalidEmail)
        },
        (StepPhase::AwaitReason, StepEventView::Submitted(raw)) => (
            StepPhase::Approving,
            StepActionView::Approve(non_empty(raw)),
        ),
        (StepPhase::LookingUp, StepEventView::LookedUp(o)) => shown_next(cx, lookup_state(o)),
        (StepPhase::Approving, StepEventView::Approved(true)) => (
            StepPhase::Finished,
            StepActionView::Finish(
                StepOutcome::Overridden,
                Some(cx.target.shows(VerifyState::Overridden)),
            ),
        ),
        (StepPhase::Approving, StepEventView::Approved(false)) => (
            StepPhase::Finished,
            StepActionView::Finish(StepOutcome::Errored, Some(cx.target.shows(VerifyState::Error))),
        ),
        _ => (phase, StepActionView::Ignore),
    }
}

fn route_press(cx: &StepContext, pressed: &str) -> (r: (StepPhase, StepAction))
    ensures
        (r.0, r.1@) == press_next(*cx, pressed@),
{
    let is_lookup = same(pressed, LOOKUP_BUTTON_ID);
    let is_override = same(pressed, OVERRIDE_BUTTON_ID);
    if cx.extra_buttons.len() > 0 && !is_lookup && !is_override {
        return (StepPhase::Finished, StepAction::HandBack);
    }
    if is_override {
        if !cx.override_role_set {
            return (
                StepPhase::Finished,
                StepAction::Finish(
                    StepOutcome::Errored,
                    Some(cx.target.embed(VerifyState::Error)),
                ),
            );
        }
        return (StepPhase::AwaitReason, StepAction::Open(cx.open_reason()));
    }
    (StepPhase::AwaitEmail, StepAction::Open(cx.open_email()))
}

fn show(cx: &StepContext, state: VerifyState) -> (r: (StepPhase, StepAction))
    ensures
        (r.0, r.1@) == shown_next(*cx, state),
{
    let embed = cx.target.embed(state);
    match state {
        VerifyState::NotFound | VerifyState::InvalidEmail => {
            let row = buttons_for(&state, &cx.extra_buttons);
            (StepPhase::AwaitPress, StepAction::Show(embed, row))
        },
        VerifyState::Verified(role) => (
            StepPhase::Finished,
            StepAction::Finish(StepOutcome::Verified(role), Some(embed)),
        ),
        VerifyState::Conflict => (
            StepPhase::Finished,
            StepAction::Finish(StepOutcome::Conflict, Some(embed)),
        ),
        _ => (StepPhase::Finished, StepAction::Finish(StepOutcome::Errored, Some(embed))),
    }
}

/// Drive the email-lookup / override exchange for a single member on an already-sent
/// host message.
///
/// On `Expired` the caller edits the host message itself: no interaction is at hand to
/// do it with.
pub fn verify_step(cx: &StepContext, phase: StepPhase, event: &StepEvent) -> (r: (
    StepPhase,
    StepAction,
))
    ensures
        (r.0, r.1@) == step_next(*cx, phase, event@),
{
    match (phase, event) {
        (StepPhase::AwaitPress, StepEvent::Idle)
        | (StepPhase::AwaitEmail, StepEvent::Idle)
        | (StepPhase::AwaitReason, StepEvent::Idle) => (
            StepPhase::Finished,
            StepAction::Finish(StepOutcome::Expired, None),
        ),
        (StepPhase::AwaitPress, StepEvent::Pressed(id)) => route_press(cx, id.as_str()),
        (StepPhase::AwaitEmail, StepEvent::Pressed(id)) => {
            match reclick_action(id.as_str(), LOOKUP_BUTTON_ID) {
                ReclickAction::Reopen => (StepPhase::AwaitEmail, StepAction::Open(cx.open_email())),
                ReclickAction::Redispatch => route_press(cx, id.as_str()),
            }
        },
        (StepPhase::AwaitReason, StepEvent::Pressed(id)) => {
            match reclick_action(id.as_str(), OVERRIDE_BUTTON_ID) {
                ReclickAction::Reopen => (
                    StepPhase::AwaitReason,
                    StepAction::Open(cx.open_reason()),
                ),
                ReclickAction::Redispatch => route_press(cx, id.as_str()),
            }
        },
        (StepPhase::AwaitEmail, StepEvent::Submitted(raw)) => match parse_email(raw.as_str()) {
            None => show(cx, VerifyState::InvalidEmail),
            Some(email) => (StepPhase::LookingUp, StepAction::LookUp(email)),
        },
        (StepPhase::AwaitReason, StepEvent::Submitted(raw)) => (
            StepPhase::Approving,
            StepAction::Approve(parse_reason(raw.as_str())),
        ),
        (StepPhase::LookingUp, StepEvent::LookedUp(o)) => {
            let next = match o {
                Some(VerifyOutcome::Verified(role)) => VerifyState::Verified(*role),
                Some(VerifyOutcome::NotFound) => VerifyState::NotFound,
                Some(VerifyOutcome::Conflict) => VerifyState::Conflict,
                Some(VerifyOutcome::Unverified) => VerifyState::NotFound,
                None => VerifyState::Error,
            };
            show(cx, next)
        },
        (StepPhase::Approving, StepEvent::Approved(ok)) => if *ok {
            (
                StepPhase::Finished,
                StepAction::Finish(
                    StepOutcome::Overridden,
                    Some(cx.target.embed(VerifyState::Overridden)),
                ),
            )
        } else {
            (
                StepPhase::Finished,
                StepAction::Finish(
                    StepOutcome::Errored,
                    Some(cx.target.embed(VerifyState::Error)),
                ),
            )
        },
        _ => (phase, StepAction::Ignore),
    }
}

/// An exchange replayed from `phase` over `events`, each with the context of its moment.
pub open spec fn step_run(phase: StepPhase, events: Seq<(StepContext, StepEventView)>) -> StepPhase
    decreases events.len(),
{
    if events.len() == 0 {
        phase
    } else {
        let last = events.last();
        step_next(last.0, step_run(phase, events.drop_last()), last.1).0
    }
}

/// The modal's own trigger is the only press that reopens it; with wizard controls on
/// the message, a press of one of them always reaches the wizard, modal open or not.
pub proof fn law_only_the_trigger_reopens(cx: StepContext, phase: StepPhase, pressed: Seq<char>)
    requires
        phase == StepPhase::AwaitPress || phase == StepPhase::AwaitEmail || phase
            == StepPhase::AwaitReason,
        cx.extra_buttons@.len() > 0,
        pressed != LOOKUP_BUTTON_ID@,
        pressed != OVERRIDE_BUTTON_ID@,
    ensures
        step_next(cx, phase, StepEventView::Pressed(pressed)) == (
            StepPhase::Finished,
            StepActionView::HandBack,
        ),
{
}

/// A role is reported as assigned only when the lookup just reported it, and a hand
/// approval only when it was just written.
pub proof fn law_outcomes_are_earned(cx: StepContext, phase: StepPhase, event: StepEventView)
    ensures
        step_next(cx, phase, event).1 matches StepActionView::Finish(
            StepOutcome::Verified(role),
            _,
        ) ==> phase == StepPhase::LookingUp && event == StepEventView::LookedUp(
            Some(VerifyOutcome::Verified(role)),
        ),
        step_next(cx, phase, event).1 matches StepActionView::Finish(StepOutcome::Overridden, _)
            ==> phase == StepPhase::Approving && event == StepEventView::Approved(true),
{
}

/// Only a plausible address is ever looked up.
pub proof fn law_lookups_are_plausible(cx: StepContext, phase: StepPhase, event: StepEventView)
    ensures
        step_next(cx, phase, event).1 matches StepActionView::LookUp(email) ==> plausible_email(
            email,
        ),
{
}

/// Whatever happens, an approval is only asked for after the override form was opened
/// with the Manual Override role configured.
pub proof fn law_approval_needs_the_override_role(events: Seq<(StepContext, StepEventView)>)
    requires
        step_run(StepPhase::AwaitPress, events) == StepPhase::AwaitReason || step_run(
            StepPhase::AwaitPress,
            events,
        ) == StepPhase::Approving,
    ensures
        exists|i: int|
            0 <= i < events.len() && (#[trigger] events[i]).0.override_role_set && events[i].1
                == StepEventView::Pressed(OVERRIDE_BUTTON_ID@),
    decreases events.len(),
{
    let before = events.drop_last();
    let last = events.last();
    let p = step_run(StepPhase::AwaitPress, before);
    if p == StepPhase::AwaitReason || p == StepPhase::Approving {
        law_approval_needs_the_override_role(before);
        let i = choose|i: int|
            0 <= i < before.len() && (#[trigger] before[i]).0.override_role_set && before[i].1
                == StepEventView::Pressed(OVERRIDE_BUTTON_ID@);
        assert(events[i] == before[i]);
    } else {
        assert(events[events.len() - 1] == last);
    }
}

/// What just happened to a `/verify` invocation.
#[derive(Debug, Clone, Copy, PartialEq, Eq, Structural)]
pub enum VerifyEvent {
    /// It was invoked, by a moderator or not, with the managed roles set or not.
    Invoked { is_moderator: bool, roles_configured: bool },
    /// The automatic match ended; absent on a backend error.
    Matched(Option<VerifyOutcome>),
}

/// What `/verify` does next.
#[derive(Debug, Clone, PartialEq, Eq)]
pub enum VerifyAction {
    /// Say this, privately, and stop.
    Reply(String),
    /// Match the member on record by their Discord account.
    Match,
    /// Host the manual exchange on a private message.
    StartManual(Embed, Row),
}

/// A [`VerifyAction`] over characters.
pub enum VerifyActionView {
    Reply(Seq<char>),
    Match,
    StartManual(EmbedView, RowView),
}

impl View for VerifyAction {
    type V = VerifyActionView;

    open spec fn view(&self) -> VerifyActionView {
        match self {
            VerifyAction::Reply(s) => VerifyActionView::Reply(s@),
            VerifyAction::Match => VerifyActionView::Match,
            VerifyAction::StartManual(e, r) => VerifyActionView::StartManual(e@, r@),
        }
    }
}

/// The reply when the handle belongs to another account.
pub const CONFLICT_REPLY: &'static str = "That handle is on record for a different account. Nothing was changed - please check the records by hand.";

/// What `/verify` does about an event.
pub open spec fn verify_next(target: TargetCard, event: VerifyEvent) -> VerifyActionView {
    match event {
        VerifyEvent::Invoked { is_moderator, roles_configured } => if !is_moderator {
            VerifyActionView::Reply(MODERATORS_ONLY@)
        } else if !roles_configured {
            VerifyActionView::Reply(ROLES_NOT_CONFIGURED@)
        } else {
            VerifyActionView::Match
        },
        VerifyEvent::Matched(Some(VerifyOutcome::Verified(role))) => VerifyActionView::Reply(
            "Verified "@ + target.handle@ + " as "@ + role.words() + "."@,
        ),
        VerifyEvent::Matched(Some(VerifyOutcome::Conflict)) => VerifyActionView::Reply(
            CONFLICT_REPLY@,
        ),
        VerifyEvent::Matched(None) => VerifyActionView::Reply(BACKEND_FAILURE@),
        VerifyEvent::Matched(Some(VerifyOutcome::Unverified))
        | VerifyEvent::Matched(Some(VerifyOutcome::NotFound)) => VerifyActionView::StartManual(
            target.shows(VerifyState::Prompt),
            buttons_view(VerifyState::Prompt, Seq::empty()),
        ),
    }
}

/// Decide a `/verify` invocation. Moderators only; on an automatic miss the manual
/// exchange is hosted.
pub fn verify(target: &TargetCard, event: VerifyEvent) -> (r: VerifyAction)
    ensures
        r@ == verify_next(*target, event),
{
    match event {
        VerifyEvent::Invoked { is_moderator, roles_configured } => {
            if !is_moderator {
                VerifyAction::Reply(MODERATORS_ONLY.to_owned())
            } else if !roles_configured {
                VerifyAction::Reply(ROLES_NOT_CONFIGURED.to_owned())
            } else {
                VerifyAction::Match
            }
        },
        VerifyEvent::Matched(Some(VerifyOutcome::Verified(role))) => VerifyAction::Reply(
            "Verified ".to_owned().concat(target.handle.as_str()).concat(" as ").concat(
                role.as_str(),
            ).concat("."),
        ),
        VerifyEvent::Matched(Some(VerifyOutcome::Conflict)) => VerifyAction::Reply(
            CONFLICT_REPLY.to_owned(),
        ),
        VerifyEvent::Matched(None) => VerifyAction::Reply(BACKEND_FAILURE.to_owned()),
        VerifyEvent::Matched(Some(VerifyOutcome::Unverified))
        | VerifyEvent::Matched(Some(VerifyOutcome::NotFound)) => manual_verify_flow(target),
    }
}

/// Open the manual exchange on one private message.
fn manual_verify_flow(target: &TargetCard) -> (r: VerifyAction)
    ensures
        r@ == VerifyActionView::StartManual(
            target.shows(VerifyState::Prompt),
            buttons_view(VerifyState::Prompt, Seq::empty()),
        ),
{
    let none: Vec<Button> = Vec::new();
    let row = buttons_for(&VerifyState::Prompt, &none);
    assert(button_views(none@) =~= Seq::<ButtonView>::empty());
    VerifyAction::StartManual(target.embed(VerifyState::Prompt), row)
}

/// The edit the caller of a finished manual exchange owes its host message: only an
/// expired one still shows live controls.
pub fn manual_verify_end(target: &TargetCard, outcome: StepOutcome) -> (r: Option<Embed>)
    ensures
        r is Some <==> outcome == StepOutcome::Expired,
        r matches Some(e) ==> e@ == target.shows(VerifyState::Expired),
{
    match outcome {
        StepOutcome::Expired => Some(target.embed(VerifyState::Expired)),
        _ => None,
    }
}

/// Whatever the backend would answer, a non-moderator's invocation matches nobody and is
/// only told so.
pub proof fn law_verify_is_for_moderators(target: TargetCard, roles_configured: bool)
    ensures
        verify_next(
            target,
            VerifyEvent::Invoked { is_moderator: false, roles_configured },
        ) == VerifyActionView::Reply(MODERATORS_ONLY@),
{
}

/// A match is answered with the very role that was assigned, by its name, and with the
/// member's handle: answers for different roles or different members differ.
pub proof fn law_the_answer_names_the_role(a: TargetCard, b: TargetCard, one: Role, other: Role)
    ensures
        ({
            let said = |t: TargetCard, r: Role|
                verify_next(t, VerifyEvent::Matched(Some(VerifyOutcome::Verified(r))));
            &&& said(a, Role::Member) == VerifyActionView::Reply(
                "Verified "@ + a.handle@ + " as Member."@,
            )
            &&& said(a, Role::DuesExpired) == VerifyActionView::Reply(
                "Verified "@ + a.handle@ + " as Dues Expired."@,
            )
            &&& said(a, Role::Unverified) == VerifyActionView::Reply(
                "Verified "@ + a.handle@ + " as Unverified."@,
            )
            &&& said(a, one) == said(a, other) ==> one == other
            &&& said(a, one) == said(b, one) ==> a.handle@ == b.handle@
        }),
{
    reveal_strlit(" as ");
    reveal_strlit(".");
    reveal_strlit("Verified ");
    reveal_strlit("Member");
    reveal_strlit("Dues Expired");
    reveal_strlit("Unverified");
    reveal_strlit(" as Member.");
    reveal_strlit(" as Dues Expired.");
    reveal_strlit(" as Unverified.");
    let head = "Verified "@ + a.handle@;
    assert(head + " as "@ + Role::Member.words() + "."@ =~= head + " as Member."@);
    assert(head + " as "@ + Role::DuesExpired.words() + "."@ =~= head + " as Dues Expired."@);
    assert(head + " as "@ + Role::Unverified.words() + "."@ =~= head + " as Unverified."@);
    let x = head + " as "@ + one.words() + "."@;
    let y = head + " as "@ + other.words() + "."@;
    assert(x.len() == head.len() + 4 + one.words().len() + 1);
    assert(y.len() == head.len() + 4 + other.words().len() + 1);
    assert("Member"@.len() == 6 && "Dues Expired"@.len() == 12 && "Unverified"@.len() == 10);
    let z = "Verified "@ + b.handle@ + " as "@ + one.words() + "."@;
    if x == z {
        assert(x.len() == z.len());
        assert(x.subrange(9, 9 + a.handle@.len() as int) =~= a.handle@);
        assert(z.subrange(9, 9 + b.handle@.len() as int) =~= b.handle@);
    }
}

/// A moderator's `/verify` matches the member; a conflict and a failure are told apart from
/// a miss, and only a miss opens the manual exchange, with the lookup as its one way on.
pub proof fn law_only_a_miss_is_handled_by_hand(target: TargetCard, event: VerifyEvent)
    ensures
        (verify_next(target, event) matches VerifyActionView::StartManual(embed, row) ==> (event
            == VerifyEvent::Matched(Some(VerifyOutcome::NotFound)) || event
            == VerifyEvent::Matched(Some(VerifyOutcome::Unverified)))),
        verify_next(target, VerifyEvent::Matched(Some(VerifyOutcome::NotFound))) == verify_next(
            target,
            VerifyEvent::Matched(Some(VerifyOutcome::Unverified)),
        ),
        (verify_next(target, VerifyEvent::Matched(Some(VerifyOutcome::NotFound))) matches
            VerifyActionView::StartManual(embed, row) && embed == state_view(
            target.display@,
            target.handle@,
            target.avatar@,
            VerifyState::Prompt,
        ) && (row matches RowView::Buttons(bs) && bs.len() == 1 && bs[0] == press_view(
            LOOKUP_BUTTON_ID@,
            "Look up by email"@,
            Style::Primary,
        ))),
        verify_next(
            target,
            VerifyEvent::Invoked { is_moderator: true, roles_configured: true },
        ) == VerifyActionView::Match,
        verify_next(
            target,
            VerifyEvent::Invoked { is_moderator: true, roles_configured: false },
        ) == VerifyActionView::Reply(ROLES_NOT_CONFIGURED@),
        verify_next(target, VerifyEvent::Matched(Some(VerifyOutcome::Conflict)))
            == VerifyActionView::Reply(CONFLICT_REPLY@),
        verify_next(target, VerifyEvent::Matched(None)) == VerifyActionView::Reply(
            BACKEND_FAILURE@,
        ),
{
}

/// Each press opens its own form, whatever form is open; what is typed there is what is
/// looked up or approved for, trimmed; and each answer of the backend ends or continues the
/// exchange in its own way.
pub proof fn law_an_exchange_follows_the_moderator(
    cx: StepContext,
    phase: StepPhase,
    typed: Seq<char>,
    role: Role,
)
    ensures
        ({
            let waiting = phase == StepPhase::AwaitPress || phase == StepPhase::AwaitEmail || phase
                == StepPhase::AwaitReason;
            let shows = |state: VerifyState|
                state_view(cx.target.display@, cx.target.handle@, cx.target.avatar@, state);
            let looked = |o: Option<VerifyOutcome>|
                step_next(cx, StepPhase::LookingUp, StepEventView::LookedUp(o));
            let ends = |o: StepOutcome, state: VerifyState|
                (StepPhase::Finished, StepActionView::Finish(o, Some(shows(state))));
            &&& waiting ==> {
                &&& step_next(cx, phase, StepEventView::Pressed(LOOKUP_BUTTON_ID@)) == (
                    StepPhase::AwaitEmail,
                    StepActionView::Open(cx.email_form()),
                )
                &&& cx.override_role_set ==> step_next(
                    cx,
                    phase,
                    StepEventView::Pressed(OVERRIDE_BUTTON_ID@),
                ) == (StepPhase::AwaitReason, StepActionView::Open(cx.reason_form()))
                &&& step_next(cx, phase, StepEventView::Idle) == (
                    StepPhase::Finished,
                    StepActionView::Finish(StepOutcome::Expired, None),
                )
            }
            &&& !cx.override_role_set ==> step_next(
                cx,
                StepPhase::AwaitPress,
                StepEventView::Pressed(OVERRIDE_BUTTON_ID@),
            ) == ends(StepOutcome::Errored, VerifyState::Error)
            &&& plausible_email(trimmed(typed)) ==> step_next(
                cx,
                StepPhase::AwaitEmail,
                StepEventView::Submitted(typed),
            ) == (StepPhase::LookingUp, StepActionView::LookUp(trimmed(typed)))
            &&& !plausible_email(trimmed(typed)) ==> {
                let (next, action) = step_next(
                    cx,
                    StepPhase::AwaitEmail,
                    StepEventView::Submitted(typed),
                );
                next == StepPhase::AwaitPress && (action matches StepActionView::Show(embed, row)
                    && embed == shows(VerifyState::InvalidEmail))
            }
            &&& {
                let (next, action) = step_next(
                    cx,
                    StepPhase::AwaitReason,
                    StepEventView::Submitted(typed),
                );
                next == StepPhase::Approving && (action matches StepActionView::Approve(reason) && (
                reason is None <==> trimmed(typed).len() == 0) && (reason matches Some(why) ==> why
                    == trimmed(typed)))
            }
            &&& looked(Some(VerifyOutcome::Verified(role))) == ends(
                StepOutcome::Verified(role),
                VerifyState::Verified(role),
            )
            &&& looked(Some(VerifyOutcome::Conflict)) == ends(
                StepOutcome::Conflict,
                VerifyState::Conflict,
            )
            &&& looked(None) == ends(StepOutcome::Errored, VerifyState::Error)
            &&& looked(Some(VerifyOutcome::Unverified)) == looked(Some(VerifyOutcome::NotFound))
            &&& (looked(Some(VerifyOutcome::NotFound)).1 matches StepActionView::Show(embed, row)
                && embed == shows(VerifyState::NotFound) && (row matches RowView::Buttons(bs)
                && bs.len() == 2 + cx.extra_buttons@.len() && bs[0] == press_view(
                LOOKUP_BUTTON_ID@,
                "Look up by email"@,
                Style::Primary,
            ) && bs[1] == press_view(OVERRIDE_BUTTON_ID@, "Override and approve"@, Style::Danger)))
            &&& looked(Some(VerifyOutcome::NotFound)).0 == StepPhase::AwaitPress
            &&& step_next(cx, StepPhase::Approving, StepEventView::Approved(true)) == ends(
                StepOutcome::Overridden,
                VerifyState::Overridden,
            )
            &&& step_next(cx, StepPhase::Approving, StepEventView::Approved(false)) == ends(
                StepOutcome::Errored,
                VerifyState::Error,
            )
        }),
{
    reveal_strlit("verify_lookup_email");
    reveal_strlit("verify_override_approve");
    assert(LOOKUP_BUTTON_ID@.len() != OVERRIDE_BUTTON_ID@.len());
    let bs = seq![press_view(LOOKUP_BUTTON_ID@, "Look up by email"@, Style::Primary)] + seq![
        press_view(OVERRIDE_BUTTON_ID@, "Override and approve"@, Style::Danger),
    ] + button_views(cx.extra_buttons@);
    assert(bs[0] == press_view(LOOKUP_BUTTON_ID@, "Look up by email"@, Style::Primary));
    assert(bs[1] == press_view(OVERRIDE_BUTTON_ID@, "Override and approve"@, Style::Danger));
}

/// A finished exchange is over, whatever still happens to its message.
pub proof fn law_a_finished_exchange_stays_finished(cx: StepContext, event: StepEventView)
    ensures
        step_next(cx, StepPhase::Finished, event) == (StepPhase::Finished, StepActionView::Ignore),
{
}

/// An exchange is headed by the name the member goes by everywhere, or their handle where
/// there is none, and by their handle and picture; one that timed out is told so, and no
/// other ending is.
pub proof fn law_an_exchange_is_headed_by_the_member(
    global_name: Option<&str>,
    name: &str,
    avatar: &str,
    card: TargetCard,
    target: &TargetCard,
    outcome: StepOutcome,
    end: Option<Embed>,
)
    requires
        call_ensures(header, (global_name, name, avatar), card),
        call_ensures(manual_verify_end, (target, outcome), end),
    ensures
        global_name is Some ==> card.display@ == global_name->0@,
        global_name is None ==> card.display@ == name@,
        card.handle@ == name@,
        card.avatar@ == avatar@,
        end is Some <==> outcome == StepOutcome::Expired,
        (end matches Some(e) ==> e@ == state_view(
            target.display@,
            target.handle@,
            target.avatar@,
            VerifyState::Expired,
        )),
{
}

/// The lookup comes first, the override only after a miss, and the caller's own controls
/// last, as they were given; a press of one of those goes back to the caller, and with none
/// of them any other press asks for an email.
pub proof fn law_controls_stand_in_order(
    cx: StepContext,
    state: VerifyState,
    extra: Seq<ButtonView>,
    pressed: Seq<char>,
    i: int,
)
    ensures
        (buttons_view(state, extra) matches RowView::Buttons(bs) && ({
            let own: int = if state == VerifyState::NotFound {
                2
            } else {
                1
            };
            &&& bs.len() == own + extra.len()
            &&& bs[0] == press_view(LOOKUP_BUTTON_ID@, "Look up by email"@, Style::Primary)
            &&& own == 2 ==> bs[1] == press_view(
                OVERRIDE_BUTTON_ID@,
                "Override and approve"@,
                Style::Danger,
            )
            &&& 0 <= i < extra.len() ==> bs[own + i] == extra[i]
        })),
        cx.extra_buttons@.len() == 0 && pressed != OVERRIDE_BUTTON_ID@ ==> step_next(
            cx,
            StepPhase::AwaitPress,
            StepEventView::Pressed(pressed),
        ) == (StepPhase::AwaitEmail, StepActionView::Open(cx.email_form())),
        cx.email_form() == email_modal_view(
            EMAIL_MODAL_ID@ + ":"@ + decimal(cx.message_id as nat),
            cx.target.display@,
        ),
        cx.reason_form() == override_modal_view(
            OVERRIDE_MODAL_ID@ + ":"@ + decimal(cx.message_id as nat),
            cx.target.display@,
        ),
{
}

} // verus!
