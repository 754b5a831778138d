//! The form-driven flows: editing one message body, and setting the dues sign-up URL.

use vstd::prelude::*;

use crate::commands::setup::handlers::{AuditEntry, Change, ChangeKind, SAVE_FAILED};
use crate::commands::setup::ids::{
    DUES_URL_FIELD_ID, DUES_URL_MODAL_ID, MSG_BODY_FIELD_ID, MSG_MODAL_ID,
};
use crate::commands::setup::pages::Page;
use crate::render::reminders::is_http_signup_url;
use crate::store::{GuildConfig, MessageKind};
use crate::text::trim;
use crate::ui::{clone_opt, Embed, Input, Modal};

#[allow(unused_imports)]
use crate::commands::setup::handlers::{AuditEntryView, ChangeView};
#[allow(unused_imports)]
use crate::render::modal::non_empty;
#[allow(unused_imports)]
use crate::render::reminders::is_web_link;
#[allow(unused_imports)]
use crate::store::GuildConfigView;
#[allow(unused_imports)]
use crate::text::trimmed;
#[allow(unused_imports)]
use crate::ui::{opt_str_view, opt_view, EmbedView, InputView, ModalView};

verus! {

/// The page a message editor lives on.
pub open spec fn page_of_editor(kind: MessageKind) -> Page {
    if kind == MessageKind::Unverified {
        Page::Verification
    } else {
        Page::Dues
    }
}

/// Which page a message editor lives on, so a redraw after a save returns there.
pub fn editor_page(kind: MessageKind) -> (r: Page)
    ensures
        r == page_of_editor(kind),
{
    match kind {
        MessageKind::Unverified => Page::Verification,
        _ => Page::Dues,
    }
}

/// The name of a message in its editor's title.
pub open spec fn kind_words(kind: MessageKind) -> Seq<char> {
    match kind {
        MessageKind::Monthly => "monthly reminder"@,
        MessageKind::Yearly => "yearly reminder"@,
        MessageKind::OneTime => "one-time reminder"@,
        MessageKind::IncomeBased => "income-based reminder"@,
        MessageKind::Unverified => "verification prompt"@,
        MessageKind::DuesBanner => "dues channel"@,
    }
}

/// The human label for a message kind.
pub fn kind_label(kind: MessageKind) -> (r: &'static str)
    ensures
        r@ == kind_words(kind),
{
    match kind {
        MessageKind::Monthly => "monthly reminder",
        MessageKind::Yearly => "yearly reminder",
        MessageKind::OneTime => "one-time reminder",
        MessageKind::IncomeBased => "income-based reminder",
        MessageKind::Unverified => "verification prompt",
        MessageKind::DuesBanner => "dues channel",
    }
}

/// The body in use: the stored one, else the built-in default, also where the stored one
/// cannot be read.
pub fn resolve_body(stored: Result<Option<String>, ()>, default: &str) -> (r: String)
    ensures
        r@ == (match stored {
            Ok(Some(body)) => body@,
            _ => default@,
        }),
{
    match stored {
        Ok(Some(body)) => body,
        _ => default.to_owned(),
    }
}

/// The editor of one message body.
pub open spec fn message_modal_view(kind: MessageKind, current: Seq<char>) -> ModalView {
    ModalView {
        id: MSG_MODAL_ID@,
        title: "Edit "@ + kind_words(kind) + " message"@,
        inputs: seq![
            InputView {
                id: MSG_BODY_FIELD_ID@,
                label: "Message body"@,
                paragraph: true,
                placeholder: None,
                value: Some(current),
                required: true,
                min_length: Some(1),
                max_length: Some(2000),
            },
        ],
    }
}

/// Build the editor of one message body, prefilled so the moderator edits rather than
/// retypes.
pub fn message_modal(kind: MessageKind, current: &str) -> (r: Modal)
    ensures
        r@ == message_modal_view(kind, current@),
{
    let input = Input {
        id: MSG_BODY_FIELD_ID.to_owned(),
        label: "Message body".to_owned(),
        paragraph: true,
        placeholder: None,
        value: Some(current.to_owned()),
        required: true,
        min_length: Some(1),
        max_length: Some(2000),
    };
    let r = Modal {
        id: MSG_MODAL_ID.to_owned(),
        title: "Edit ".to_owned().concat(kind_label(kind)).concat(" message"),
        inputs: vec![input],
    };
    assert(r@.inputs =~= message_modal_view(kind, current@).inputs);
    r
}

/// The card a just-saved body is previewed on, titled as the live message will be.
pub open spec fn preview_view(
    kind: MessageKind,
    body: Seq<char>,
    notice_title: Seq<char>,
    accent: u32,
) -> EmbedView {
    EmbedView::empty().title(
        match kind {
            MessageKind::Unverified => "Verify your membership"@,
            MessageKind::DuesBanner => "Dues Expiring!"@,
            _ => notice_title,
        },
    ).description(body).colour(accent)
}

/// Build the preview of a just-saved body. A dues message previews under the renewal
/// notice's title, which the caller supplies.
pub fn preview_embed(kind: MessageKind, body: &str, notice_title: &str, accent: u32) -> (r: Embed)
    ensures
        r@ == preview_view(kind, body@, notice_title@, accent),
{
    let title = match kind {
        MessageKind::Unverified => "Verify your membership".to_owned(),
        MessageKind::DuesBanner => "Dues Expiring!".to_owned(),
        _ => notice_title.to_owned(),
    };
    Embed::new().title(title).description(body.to_owned()).colour(accent)
}

pub const EMPTY_BODY: &'static str = "Left the message unchanged - the body can't be empty.";

pub const BODY_SAVED: &'static str = "Saved. Here's how it looks:";

/// Where a message edit stands.
#[derive(Debug, Clone, PartialEq, Eq)]
pub enum EditPhase {
    /// Not begun.
    Start,
    /// The form is open.
    AwaitSubmit,
    /// This body is being saved.
    Saving(String),
    /// Over.
    Done,
}

/// An [`EditPhase`] over characters.
pub enum EditPhaseView {
    Start,
    AwaitSubmit,
    Saving(Seq<char>),
    Done,
}

impl View for EditPhase {
    type V = EditPhaseView;

    open spec fn view(&self) -> EditPhaseView {
        match self {
            EditPhase::Start => EditPhaseView::Start,
            EditPhase::AwaitSubmit => EditPhaseView::AwaitSubmit,
            EditPhase::Saving(body) => EditPhaseView::Saving(body@),
            EditPhase::Done => EditPhaseView::Done,
        }
    }
}

/// What just happened to a form-driven flow.
#[derive(Debug, Clone, PartialEq, Eq)]
pub enum FormEvent {
    /// Its button was pressed; the value it edits now.
    Pressed(String),
    /// The form was dismissed, timed out, or could not be opened or acknowledged.
    Abandoned,
    /// The form was submitted with this text.
    Submitted(String),
    /// The new value was saved, or could not be.
    Saved(bool),
}

/// A [`FormEvent`] over characters.
pub enum FormEventView {
    Pressed(Seq<char>),
    Abandoned,
    Submitted(Seq<char>),
    Saved(bool),
}

impl View for FormEvent {
    type V = FormEventView;

    open spec fn view(&self) -> FormEventView {
        match self {
            FormEvent::Pressed(s) => FormEventView::Pressed(s@),
            FormEvent::Abandoned => FormEventView::Abandoned,
            FormEvent::Submitted(s) => FormEventView::Submitted(s@),
            FormEvent::Saved(b) => FormEventView::Saved(*b),
        }
    }
}

/// What a message edit does next.
#[derive(Debug, Clone, PartialEq, Eq)]
pub enum EditAction {
    /// Open the form.
    Open(Modal),
    /// Save this body.
    Save(String),
    /// Redraw the page with this note, then show the preview where there is one.
    Finish { page: Page, note: String, preview: Option<Embed> },
    /// Stop without a word.
    Stop,
    /// Nothing: the event does not belong to this phase.
    Ignore,
}

/// An [`EditAction`] over characters.
pub enum EditActionView {
    Open(ModalView),
    Save(Seq<char>),
    Finish { page: Page, note: Seq<char>, preview: Option<EmbedView> },
    Stop,
    Ignore,
}

impl View for EditAction {
    type V = EditActionView;

    open spec fn view(&self) -> EditActionView {
        match self {
            EditAction::Open(m) => EditActionView::Open(m@),
            EditAction::Save(s) => EditActionView::Save(s@),
            EditAction::Finish { page, note, preview } => EditActionView::Finish {
                page: *page,
                note: note@,
                preview: match preview {
                    Some(e) => Some(e@),
                    None => None,
                },
            },
            EditAction::Stop => EditActionView::Stop,
            EditAction::Ignore => EditActionView::Ignore,
        }
    }
}

/// A message edit, one event at a time. An empty body changes nothing.
pub open spec fn edit_next(
    kind: MessageKind,
    notice_title: Seq<char>,
    accent: u32,
    phase: EditPhaseView,
    event: FormEventView,
) -> (EditPhaseView, EditActionView) {
    match (phase, event) {
        (EditPhaseView::Start, FormEventView::Pressed(current)) => (
            EditPhaseView::AwaitSubmit,
            EditActionView::Open(message_modal_view(kind, current)),
        ),
        (EditPhaseView::AwaitSubmit, FormEventView::Abandoned) => (
            EditPhaseView::Done,
            EditActionView::Stop,
        ),
        (EditPhaseView::AwaitSubmit, FormEventView::Submitted(raw)) => match non_empty(raw) {
            None => (
                EditPhaseView::Done,
                EditActionView::Finish {
                    page: page_of_editor(kind),
                    note: EMPTY_BODY@,
                    preview: None,
                },
            ),
            Some(body) => (EditPhaseView::Saving(body), EditActionView::Save(body)),
        },
        (EditPhaseView::Saving(body), FormEventView::Saved(ok)) => (
            EditPhaseView::Done,
            EditActionView::Finish {
                page: page_of_editor(kind),
                note: if ok {
                    BODY_SAVED@
                } else {
                    SAVE_FAILED@
                },
                preview: Some(preview_view(kind, body, notice_title, accent)),
            },
        ),
        _ => (phase, EditActionView::Ignore),
    }
}

/// Edit one message body through a prefilled form.
pub fn edit_message(
    kind: MessageKind,
    notice_title: &str,
    accent: u32,
    phase: EditPhase,
    event: &FormEvent,
) -> (r: (EditPhase, EditAction))
    ensures
        (r.0@, r.1@) == edit_next(kind, notice_title@, accent, phase@, event@),
{
    match (phase, event) {
        (EditPhase::Start, FormEvent::Pressed(current)) => (
            EditPhase::AwaitSubmit,
            EditAction::Open(message_modal(kind, current.as_str())),
        ),
        (EditPhase::AwaitSubmit, FormEvent::Abandoned) => (EditPhase::Done, EditAction::Stop),
        (EditPhase::AwaitSubmit, FormEvent::Submitted(raw)) => {
            let body = trim(raw.as_str());
            if body.is_empty() {
                (
                    EditPhase::Done,
                    EditAction::Finish {
                        page: editor_page(kind),
                        note: EMPTY_BODY.to_owned(),
                        preview: None,
                    },
                )
            } else {
                (EditPhase::Saving(body.to_owned()), EditAction::Save(body.to_owned()))
            }
        },
        (EditPhase::Saving(body), FormEvent::Saved(ok)) => {
            let note = if *ok {
                BODY_SAVED.to_owned()
            } else {
                SAVE_FAILED.to_owned()
            };
            let preview = preview_embed(kind, body.as_str(), notice_title, accent);
            (
                EditPhase::Done,
                EditAction::Finish { page: editor_page(kind), note, preview: Some(preview) },
            )
        },
        (phase, _) => (phase, EditAction::Ignore),
    }
}

/// The sign-up URL form.
pub open spec fn dues_url_modal_view(current: Option<Seq<char>>) -> ModalView {
    ModalView {
        id: DUES_URL_MODAL_ID@,
        title: "Set dues sign-up URL"@,
        inputs: seq![
            InputView {
                id: DUES_URL_FIELD_ID@,
                label: "Dues sign-up URL"@,
                paragraph: false,
                placeholder: Some("https://example.org/dues"@),
                value: current,
                required: false,
                min_length: None,
                max_length: Some(2000),
            },
        ],
    }
}

/// Build the sign-up URL form, prefilled with the current value.
pub fn dues_url_modal(current: Option<&str>) -> (r: Modal)
    ensures
        r@ == dues_url_modal_view(opt_str_view(current)),
{
    let value = match current {
        Some(url) => Some(url.to_owned()),
        None => None,
    };
    let input = Input {
        id: DUES_URL_FIELD_ID.to_owned(),
        label: "Dues sign-up URL".to_owned(),
        paragraph: false,
        placeholder: Some("https://example.org/dues".to_owned()),
        value,
        required: false,
        min_length: None,
        max_length: Some(2000),
    };
    let r = Modal {
        id: DUES_URL_MODAL_ID.to_owned(),
        title: "Set dues sign-up URL".to_owned(),
        inputs: vec![input],
    };
    assert(r@.inputs =~= dues_url_modal_view(opt_str_view(current)).inputs);
    r
}

pub const NOT_A_LINK: &'static str = "That doesn't look like a web link - the dues sign-up URL must start with http:// or https://. Left it unchanged.";

/// What just happened to the sign-up URL flow.
#[derive(Debug, Clone, PartialEq, Eq)]
pub enum LinkEvent {
    /// Its button was pressed.
    Pressed,
    /// The form was dismissed, timed out, or could not be opened or acknowledged.
    Abandoned,
    /// The form was submitted with this text.
    Submitted(String),
}

/// What the sign-up URL flow does next.
#[derive(Debug, Clone, PartialEq, Eq)]
pub enum LinkAction {
    /// Open the form.
    Open(Modal),
    /// Redraw the dues page with this note; nothing changes.
    Refuse(String),
    /// Save this change, then settle it.
    Propose(Change),
    /// Stop without a word.
    Stop,
}

/// The change a submitted link proposes: an empty text clears it.
pub open spec fn link_change(cfg: GuildConfigView, raw: Seq<char>) -> ChangeView {
    ChangeView {
        kind: ChangeKind::DuesUrl,
        next: GuildConfigView { dues_signup_url: non_empty(raw), ..cfg },
        audit: AuditEntryView::Link { old_url: cfg.dues_signup_url, new_url: non_empty(raw) },
    }
}

/// Set the dues sign-up URL. A value that is no web link is refused and the current one
/// kept: a link button without a usable scheme would fail every reminder send.
pub fn set_dues_url(cfg: &GuildConfig, event: &LinkEvent) -> (r: LinkAction)
    ensures
        (match event {
            LinkEvent::Pressed => r matches LinkAction::Open(m) && m@ == dues_url_modal_view(
                cfg@.dues_signup_url,
            ),
            LinkEvent::Abandoned => r is Stop,
            LinkEvent::Submitted(raw) => if trimmed(raw@).len() > 0 && !is_web_link(raw@) {
                r matches LinkAction::Refuse(note) && note@ == NOT_A_LINK@
            } else {
                r matches LinkAction::Propose(change) && change@ == link_change(cfg@, raw@)
            },
        }),
{
    match event {
        LinkEvent::Pressed => LinkAction::Open(
            dues_url_modal(crate::ui::as_opt_str(&cfg.dues_signup_url)),
        ),
        LinkEvent::Abandoned => LinkAction::Stop,
        LinkEvent::Submitted(raw) => {
            let t = trim(raw.as_str());
            if !t.is_empty() && !is_http_signup_url(raw.as_str()) {
                return LinkAction::Refuse(NOT_A_LINK.to_owned());
            }
            let new_url = if t.is_empty() {
                None
            } else {
                Some(t.to_owned())
            };
            let old_url = clone_opt(&cfg.dues_signup_url);
            let mut next = cfg.copy();
            next.dues_signup_url = clone_opt(&new_url);
            LinkAction::Propose(
                Change { kind: ChangeKind::DuesUrl, next, audit: AuditEntry::Link { old_url, new_url } },
            )
        },
    }
}

/// However the form is filled in, a stored sign-up URL stays a usable web link.
pub proof fn law_stored_link_is_usable(cfg: GuildConfigView, raw: Seq<char>)
    requires
        trimmed(raw).len() == 0 || is_web_link(raw),
    ensures
        link_change(cfg, raw).next.dues_signup_url matches Some(url) ==> is_web_link(url),
{
    crate::text::lemma_trimmed_idempotent(raw);
}

/// An edit walked through: the form holds the present body, what is typed, without the blanks
/// around it, is what is saved and previewed, and the page the editor lives on is redrawn.
pub proof fn law_an_edit_saves_what_was_typed(
    kind: MessageKind,
    notice_title: Seq<char>,
    accent: u32,
    current: Seq<char>,
    typed: Seq<char>,
    ok: bool,
)
    ensures
        ({
            let opened = edit_next(
                kind,
                notice_title,
                accent,
                EditPhaseView::Start,
                FormEventView::Pressed(current),
            );
            let submitted = edit_next(
                kind,
                notice_title,
                accent,
                opened.0,
                FormEventView::Submitted(typed),
            );
            let saved = edit_next(
                kind,
                notice_title,
                accent,
                submitted.0,
                FormEventView::Saved(ok),
            );
            let home = if kind == MessageKind::Unverified {
                Page::Verification
            } else {
                Page::Dues
            };
            &&& (opened.1 matches EditActionView::Open(form) && form.id == MSG_MODAL_ID@
                && form.inputs[0].label == "Message body"@ && form.inputs[0].required
                && form.inputs[0].paragraph && form.inputs[0].min_length == Some(1u16)
                && form.inputs[0].max_length == Some(2000u16) && form.title == "Edit "@ + kind_words(
                kind,
            ) + " message"@ && form.inputs.len() == 1 && form.inputs[0].value == Some(current)
                && form.inputs[0].id == MSG_BODY_FIELD_ID@)
            &&& edit_next(
                kind,
                notice_title,
                accent,
                opened.0,
                FormEventView::Abandoned,
            ) == (EditPhaseView::Done, EditActionView::Stop)
            &&& trimmed(typed).len() == 0 ==> submitted == (
                EditPhaseView::Done,
                EditActionView::Finish { page: home, note: EMPTY_BODY@, preview: None },
            )
            &&& trimmed(typed).len() > 0 ==> submitted.1 == EditActionView::Save(trimmed(typed))
                && saved.0 == EditPhaseView::Done && (saved.1 matches EditActionView::Finish {
                page,
                note,
                preview,
            } && page == home && note == (if ok {
                BODY_SAVED@
            } else {
                SAVE_FAILED@
            }) && (preview matches Some(card) && card.description == Some(trimmed(typed))
                && card.colour == Some(accent) && card.title == Some(
                if kind == MessageKind::Unverified {
                    "Verify your membership"@
                } else if kind == MessageKind::DuesBanner {
                    "Dues Expiring!"@
                } else {
                    notice_title
                },
            )))
        }),
{
}

/// Each editable message goes by its own name.
pub proof fn law_messages_go_by_their_names(a: MessageKind, b: MessageKind)
    ensures
        kind_words(MessageKind::Monthly) == "monthly reminder"@,
        kind_words(MessageKind::Yearly) == "yearly reminder"@,
        kind_words(MessageKind::OneTime) == "one-time reminder"@,
        kind_words(MessageKind::IncomeBased) == "income-based reminder"@,
        kind_words(MessageKind::Unverified) == "verification prompt"@,
        kind_words(MessageKind::DuesBanner) == "dues channel"@,
        a != b ==> kind_words(a) != kind_words(b),
        page_of_editor(a) == Page::Verification <==> a == MessageKind::Unverified,
        page_of_editor(a) == Page::Dues <==> a != MessageKind::Unverified,
{
    reveal_strlit("monthly reminder");
    reveal_strlit("yearly reminder");
    reveal_strlit("one-time reminder");
    reveal_strlit("income-based reminder");
    reveal_strlit("verification prompt");
    reveal_strlit("dues channel");
    assert(kind_words(MessageKind::Monthly)[0] == 'm');
    assert(kind_words(MessageKind::Yearly)[0] == 'y');
    assert(kind_words(MessageKind::OneTime)[0] == 'o');
    assert(kind_words(MessageKind::IncomeBased)[0] == 'i');
    assert(kind_words(MessageKind::Unverified)[0] == 'v');
    assert(kind_words(MessageKind::DuesBanner)[0] == 'd');
}

/// The sign-up link: the form holds the present one, a web link becomes the new one without
/// the blanks around it, an empty text clears it, and anything else is refused with nothing
/// changed. Nothing but the link changes.
pub proof fn law_the_link_is_set_as_typed(cfg: &GuildConfig, event: &LinkEvent, r: LinkAction)
    requires
        call_ensures(set_dues_url, (cfg, event), r),
    ensures
        *event is Pressed ==> (r matches LinkAction::Open(form) && form@.id == DUES_URL_MODAL_ID@
            && form@.title == "Set dues sign-up URL"@ && form@.inputs.len() == 1
            && form@.inputs[0].id == DUES_URL_FIELD_ID@ && form@.inputs[0].label
            == "Dues sign-up URL"@ && !form@.inputs[0].required && !form@.inputs[0].paragraph
            && form@.inputs[0].max_length == Some(2000u16)
            && form@.inputs[0].value == cfg@.dues_signup_url),
        *event is Abandoned ==> r is Stop,
        (*event matches LinkEvent::Submitted(raw) ==> (r is Refuse <==> trimmed(raw@).len() > 0
            && !is_web_link(raw@)) && (r matches LinkAction::Refuse(note) ==> note@ == NOT_A_LINK@)
            && (!(r is Refuse) ==> (r matches LinkAction::Propose(change) && change@.next
            == (GuildConfigView {
            dues_signup_url: if trimmed(raw@).len() == 0 {
                None
            } else {
                Some(trimmed(raw@))
            },
            ..cfg@
        }) && change@.audit == (AuditEntryView::Link {
            old_url: cfg@.dues_signup_url,
            new_url: change@.next.dues_signup_url,
        }) && change@.kind is DuesUrl))),
{
}

/// The stored body is used where there is one and it could be read, else the built-in one.
pub proof fn law_a_stored_body_is_used(stored: Result<Option<String>, ()>, default: &str, r: String)
    requires
        call_ensures(resolve_body, (stored, default), r),
    ensures
        (stored matches Ok(Some(body)) ==> r@ == body@),
        !(stored matches Ok(Some(_))) ==> r@ == default@,
{
}

/// An edit that ended is over, and what does not belong to where it stands changes nothing.
pub proof fn law_an_ended_edit_is_over(
    kind: MessageKind,
    notice_title: Seq<char>,
    accent: u32,
    phase: EditPhaseView,
    event: FormEventView,
)
    ensures
        ({
            let (next, action) = edit_next(kind, notice_title, accent, phase, event);
            &&& action is Finish || action is Stop ==> next == EditPhaseView::Done
            &&& action is Ignore ==> next == phase
            &&& phase == EditPhaseView::Done ==> action is Ignore
        }),
{
}

} // verus!
