//! Self-service verification: the standing prompt, the form it opens, the moderator log
//! and the request posted when a verification needs a human.

use vstd::prelude::*;

use crate::ids::DiscordUserId;
use crate::role::Role;
use crate::text::number;
use crate::ui::{press, row1, row3, Embed, Input, Modal, Row, Style};

#[allow(unused_imports)]
use crate::text::decimal;
#[allow(unused_imports)]
use crate::ui::{opt_str_view, press_view, EmbedView, FieldView, InputView, ModalView, RowView};

verus! {

/// The standing prompt button. A constant id, so the button keeps working across restarts.
pub const PROMPT_BUTTON_ID: &'static str = "selfverify_open";

/// The verification form.
pub const SUBMIT_MODAL_ID: &'static str = "selfverify_submit";

pub const EMAIL_FIELD_ID: &'static str = "selfverify_email";

pub const FIRST_FIELD_ID: &'static str = "selfverify_first";

pub const LAST_FIELD_ID: &'static str = "selfverify_last";

/// The field that carries the submitted email on a review request, read back when a
/// moderator re-verifies.
pub const EMAIL_FIELD_LABEL: &'static str = "Email";

/// The field that carries the submitted name on a review request.
pub const SUBMITTED_NAME_FIELD_LABEL: &'static str = "Submitted name";

/// The review buttons. Each carries the member's id as a suffix, so a handler works across
/// restarts with nothing stored.
pub const REVIEW_REVERIFY_ID: &'static str = "selfverify_review_reverify";

pub const REVIEW_OVERRIDE_ID: &'static str = "selfverify_review_override";

pub const REVIEW_REJECT_ID: &'static str = "selfverify_review_reject";

/// The override form; it also carries the request's message id.
pub const REVIEW_MODAL_ID: &'static str = "selfverify_review_modal";

/// The prompt's card.
pub open spec fn prompt_view(body: Seq<char>, accent: u32) -> EmbedView {
    EmbedView::empty().title("Verify your membership"@).description(body).colour(accent)
}

/// The prompt's controls.
pub open spec fn prompt_row() -> RowView {
    RowView::Buttons(seq![press_view(PROMPT_BUTTON_ID@, "Verify me"@, Style::Primary)])
}

fn verify_prompt_parts(body: &str, accent: u32) -> (r: (Embed, Row))
    ensures
        r.0@ == prompt_view(body@, accent),
        r.1@ == prompt_row(),
{
    let embed = Embed::new().title("Verify your membership".to_owned()).description(
        body.to_owned(),
    ).colour(accent);
    (embed, row1(press(PROMPT_BUTTON_ID, "Verify me", Style::Primary)))
}

/// The message posted into the unverified channel.
pub fn verify_prompt(body: &str, accent: u32) -> (r: (Embed, Row))
    ensures
        r.0@ == prompt_view(body@, accent),
        r.1@ == prompt_row(),
{
    verify_prompt_parts(body, accent)
}

/// The in-place edit of a posted prompt: the same card and button, so a re-publish updates
/// the standing message rather than posting a duplicate.
pub fn verify_prompt_edit(body: &str, accent: u32) -> (r: (Embed, Row))
    ensures
        r.0@ == prompt_view(body@, accent),
        r.1@ == prompt_row(),
{
    verify_prompt_parts(body, accent)
}

/// The verification form.
pub open spec fn form_view() -> ModalView {
    ModalView {
        id: SUBMIT_MODAL_ID@,
        title: "Verify your membership"@,
        inputs: seq![
            InputView {
                id: EMAIL_FIELD_ID@,
                label: "Membership email"@,
                paragraph: false,
                placeholder: Some("name@example.com"@),
                value: None,
                required: true,
                min_length: Some(1),
                max_length: Some(254),
            },
            InputView {
                id: FIRST_FIELD_ID@,
                label: "First name"@,
                paragraph: false,
                placeholder: None,
                value: None,
                required: true,
                min_length: Some(1),
                max_length: Some(100),
            },
            InputView {
                id: LAST_FIELD_ID@,
                label: "Last initial"@,
                paragraph: false,
                placeholder: None,
                value: None,
                required: true,
                min_length: Some(1),
                max_length: Some(4),
            },
        ],
    }
}

fn short_input(id: &str, label: &str, placeholder: Option<String>, max: u16) -> (r: Input)
    ensures
        r@ == (InputView {
            id: id@,
            label: label@,
            paragraph: false,
            placeholder: crate::ui::opt_view(placeholder),
            value: None,
            required: true,
            min_length: Some(1),
            max_length: Some(max),
        }),
{
    Input {
        id: id.to_owned(),
        label: label.to_owned(),
        paragraph: false,
        placeholder,
        value: None,
        required: true,
        min_length: Some(1),
        max_length: Some(max),
    }
}

/// The verification form: email, first name, last initial. The name fields are a
/// moderator-facing double-check, not a gate.
pub fn self_verify_modal() -> (r: Modal)
    ensures
        r@ == form_view(),
{
    let r = Modal {
        id: SUBMIT_MODAL_ID.to_owned(),
        title: "Verify your membership".to_owned(),
        inputs: vec![
            short_input(
                EMAIL_FIELD_ID,
                "Membership email",
                Some("name@example.com".to_owned()),
                254,
            ),
            short_input(FIRST_FIELD_ID, "First name", None, 100),
            short_input(LAST_FIELD_ID, "Last initial", None, 4),
        ],
    };
    assert(r@.inputs =~= form_view().inputs);
    r
}

/// The facts of a successful self-verification.
#[derive(Debug, Clone, Copy, PartialEq, Eq)]
pub struct VerifyLog<'a> {
    pub member: DiscordUserId,
    pub handle: &'a str,
    pub submitted_name: &'a str,
    pub record_name: Option<&'a str>,
    pub role: Role,
    pub email: &'a str,
    /// The submitted name did not line up with the record.
    pub name_mismatch: bool,
}

pub const NO_RECORD_NAME: &'static str = "(none on file)";

pub const MISMATCH_FIELD: &'static str = "\u{26a0} Name mismatch";

pub const MISMATCH_WARNING: &'static str = "The submitted name does not match the record name - double-check this is the right person.";

/// The log entry of a successful self-verification, with a warning where the names do not
/// line up.
pub open spec fn log_view(
    member: DiscordUserId,
    handle: Seq<char>,
    submitted_name: Seq<char>,
    record_name: Option<Seq<char>>,
    role: Role,
    email: Seq<char>,
    name_mismatch: bool,
    accent: u32,
) -> EmbedView {
    let base = EmbedView::empty().title("Self-service verification"@).description(
        "<@"@ + decimal(member.0 as nat) + "> ("@ + handle + ") verified as "@ + role.words()
            + "."@,
    ).field(SUBMITTED_NAME_FIELD_LABEL@, submitted_name, true).field(
        "Record name"@,
        match record_name {
            Some(n) => n,
            None => NO_RECORD_NAME@,
        },
        true,
    ).field("Granted role"@, role.words(), true).field(EMAIL_FIELD_LABEL@, email, false).colour(
        accent,
    );
    if name_mismatch {
        base.field(MISMATCH_FIELD@, MISMATCH_WARNING@, false)
    } else {
        base
    }
}

/// Build the log entry of a successful self-verification.
pub fn log_embed(log: &VerifyLog<'_>, accent: u32) -> (r: Embed)
    ensures
        r@ == log_view(
            log.member,
            log.handle@,
            log.submitted_name@,
            opt_str_view(log.record_name),
            log.role,
            log.email@,
            log.name_mismatch,
            accent,
        ),
{
    let record = match log.record_name {
        Some(n) => n.to_owned(),
        None => NO_RECORD_NAME.to_owned(),
    };
    let base = Embed::new().title("Self-service verification".to_owned()).description(
        "<@".to_owned().concat(number(log.member.0).as_str()).concat("> (").concat(
            log.handle,
        ).concat(") verified as ").concat(log.role.as_str()).concat("."),
    ).field(SUBMITTED_NAME_FIELD_LABEL, log.submitted_name.to_owned(), true).field(
        "Record name",
        record,
        true,
    ).field("Granted role", log.role.as_str().to_owned(), true).field(
        EMAIL_FIELD_LABEL,
        log.email.to_owned(),
        false,
    ).colour(accent);
    if log.name_mismatch {
        base.field(MISMATCH_FIELD, MISMATCH_WARNING.to_owned(), false)
    } else {
        base
    }
}

/// Why a self-verification could not be granted automatically.
#[derive(Debug, Clone, Copy, PartialEq, Eq, Structural)]
pub enum ReviewReason {
    /// No record carried the submitted email.
    NotFound,
    /// The email is already linked to a different account.
    Conflict,
    /// A record matched but carries no usable standing.
    Malformed,
}

pub const NOT_FOUND_SUMMARY: &'static str = "No membership record matched the email they entered. If you add them to Solidarity Tech you can press Re-verify, or hand-approve with Manual override.";

pub const CONFLICT_SUMMARY: &'static str = "That email is already linked to a different account - confirm this is really them before approving.";

pub const MALFORMED_SUMMARY: &'static str = "A record matched but carries no usable standing. Fix it in Solidarity Tech and press Re-verify, or hand-approve with Manual override.";

impl ReviewReason {
    /// The words `summary` returns.
    pub open spec fn words(self) -> Seq<char> {
        match self {
            ReviewReason::NotFound => NOT_FOUND_SUMMARY@,
            ReviewReason::Conflict => CONFLICT_SUMMARY@,
            ReviewReason::Malformed => MALFORMED_SUMMARY@,
        }
    }

    /// The moderator-facing explanation.
    pub fn summary(self) -> (r: &'static str)
        ensures
            r@ == self.words(),
    {
        match self {
            ReviewReason::NotFound => NOT_FOUND_SUMMARY,
            ReviewReason::Conflict => CONFLICT_SUMMARY,
            ReviewReason::Malformed => MALFORMED_SUMMARY,
        }
    }
}

/// A review button's id: its kind and the member it is about.
pub open spec fn review_id(kind: Seq<char>, member: DiscordUserId) -> Seq<char> {
    kind + ":"@ + decimal(member.0 as nat)
}

fn review_id_text(kind: &str, member: DiscordUserId) -> (r: String)
    ensures
        r@ == review_id(kind@, member),
{
    kind.to_owned().concat(":").concat(number(member.0).as_str())
}

/// The card of a review request.
pub open spec fn review_view(
    member: DiscordUserId,
    handle: Seq<char>,
    submitted_name: Seq<char>,
    email: Seq<char>,
    reason: ReviewReason,
    accent: u32,
) -> EmbedView {
    EmbedView::empty().title("Self-service verification needs a moderator"@).description(
        "<@"@ + decimal(member.0 as nat) + "> ("@ + handle
            + ") tried to verify themselves but could not be matched automatically."@,
    ).field(SUBMITTED_NAME_FIELD_LABEL@, submitted_name, true).field(
        EMAIL_FIELD_LABEL@,
        email,
        true,
    ).field("Why"@, reason.words(), false).colour(accent)
}

/// The controls of a review request.
pub open spec fn review_row(member: DiscordUserId) -> RowView {
    RowView::Buttons(
        seq![
            press_view(review_id(REVIEW_REVERIFY_ID@, member), "Re-verify now"@, Style::Primary),
            press_view(
                review_id(REVIEW_OVERRIDE_ID@, member),
                "Manual override"@,
                Style::Secondary,
            ),
            press_view(review_id(REVIEW_REJECT_ID@, member), "Reject"@, Style::Danger),
        ],
    )
}

/// The request posted when a self-verification could not be granted automatically: who
/// tried, what they submitted, why it failed, and the buttons to re-check, hand-approve or
/// dismiss. The email rides in a labelled field so a re-check can read it back.
pub fn review_request(
    member: DiscordUserId,
    handle: &str,
    submitted_name: &str,
    email: &str,
    reason: ReviewReason,
    accent: u32,
) -> (r: (Embed, Row))
    ensures
        r.0@ == review_view(member, handle@, submitted_name@, email@, reason, accent),
        r.1@ == review_row(member),
{
    let embed = Embed::new().title(
        "Self-service verification needs a moderator".to_owned(),
    ).description(
        "<@".to_owned().concat(number(member.0).as_str()).concat("> (").concat(handle).concat(
            ") tried to verify themselves but could not be matched automatically.",
        ),
    ).field(SUBMITTED_NAME_FIELD_LABEL, submitted_name.to_owned(), true).field(
        EMAIL_FIELD_LABEL,
        email.to_owned(),
        true,
    ).field("Why", reason.summary().to_owned(), false).colour(accent);
    let row = row3(
        press(
            review_id_text(REVIEW_REVERIFY_ID, member).as_str(),
            "Re-verify now",
            Style::Primary,
        ),
        press(
            review_id_text(REVIEW_OVERRIDE_ID, member).as_str(),
            "Manual override",
            Style::Secondary,
        ),
        press(review_id_text(REVIEW_REJECT_ID, member).as_str(), "Reject", Style::Danger),
    );
    (embed, row)
}

/// The log entry of a grant a moderator made from a review request.
pub open spec fn manual_log_view(
    member: DiscordUserId,
    handle: Seq<char>,
    approver: DiscordUserId,
    how: Seq<char>,
    role: Role,
    accent: u32,
) -> EmbedView {
    EmbedView::empty().title("Self-service verification - approved by a moderator"@).description(
        "<@"@ + decimal(member.0 as nat) + "> ("@ + handle + ") was verified by <@"@ + decimal(
            approver.0 as nat,
        ) + "> ("@ + how + ")."@,
    ).field("Granted role"@, role.words(), true).colour(accent)
}

/// Build the log entry of a grant a moderator made from a review request.
pub fn manual_log_embed(
    member: DiscordUserId,
    handle: &str,
    approver: DiscordUserId,
    how: &str,
    role: Role,
    accent: u32,
) -> (r: Embed)
    ensures
        r@ == manual_log_view(member, handle@, approver, how@, role, accent),
{
    Embed::new().title(
        "Self-service verification - approved by a moderator".to_owned(),
    ).description(
        "<@".to_owned().concat(number(member.0).as_str()).concat("> (").concat(handle).concat(
            ") was verified by <@",
        ).concat(number(approver.0).as_str()).concat("> (").concat(how).concat(")."),
    ).field("Granted role", role.as_str().to_owned(), true).colour(accent)
}

/// Each reason has its own explanation, and a request carries the one for its reason.
pub proof fn law_a_request_explains_itself(
    member: DiscordUserId,
    handle: Seq<char>,
    submitted_name: Seq<char>,
    email: Seq<char>,
    reason: ReviewReason,
    other: ReviewReason,
    accent: u32,
)
    ensures
        ({
            let card = review_view(member, handle, submitted_name, email, reason, accent);
            &&& card.title == Some("Self-service verification needs a moderator"@)
            &&& card.fields.len() == 3
            &&& card.fields[0].name == SUBMITTED_NAME_FIELD_LABEL@ && card.fields[0].value
                == submitted_name
            &&& card.fields[1].name == EMAIL_FIELD_LABEL@ && card.fields[1].value == email
            &&& card.fields[2].name == "Why"@ && card.fields[2].value == (match reason {
                ReviewReason::NotFound => NOT_FOUND_SUMMARY@,
                ReviewReason::Conflict => CONFLICT_SUMMARY@,
                ReviewReason::Malformed => MALFORMED_SUMMARY@,
            })
            &&& card.description == Some(
                "<@"@ + decimal(member.0 as nat) + "> ("@ + handle
                    + ") tried to verify themselves but could not be matched automatically."@,
            )
            &&& card.colour == Some(accent)
        }),
        reason != other ==> reason.words() != other.words(),
{
    reveal_strlit(
        "No membership record matched the email they entered. If you add them to Solidarity Tech you can press Re-verify, or hand-approve with Manual override.",
    );
    reveal_strlit(
        "That email is already linked to a different account - confirm this is really them before approving.",
    );
    reveal_strlit(
        "A record matched but carries no usable standing. Fix it in Solidarity Tech and press Re-verify, or hand-approve with Manual override.",
    );
    assert(NOT_FOUND_SUMMARY@[0] == 'N' && CONFLICT_SUMMARY@[0] == 'T' && MALFORMED_SUMMARY@[0]
        == 'A');
}

/// A grant's log entry tells who was verified as what, under which names and email, and warns
/// exactly where the names do not line up.
pub proof fn law_a_log_entry_tells_the_grant(
    member: DiscordUserId,
    handle: Seq<char>,
    submitted_name: Seq<char>,
    record_name: Option<Seq<char>>,
    role: Role,
    email: Seq<char>,
    name_mismatch: bool,
    accent: u32,
    approver: DiscordUserId,
    how: Seq<char>,
)
    ensures
        ({
            let card = log_view(
                member,
                handle,
                submitted_name,
                record_name,
                role,
                email,
                name_mismatch,
                accent,
            );
            let name = match role {
                Role::Member => "Member"@,
                Role::DuesExpired => "Dues Expired"@,
                Role::Unverified => "Unverified"@,
            };
            let by_hand = manual_log_view(member, handle, approver, how, role, accent);
            &&& card.description == Some(
                "<@"@ + decimal(member.0 as nat) + "> ("@ + handle + ") verified as "@ + name
                    + "."@,
            )
            &&& card.title == Some("Self-service verification"@)
            &&& card.colour == Some(accent)
            &&& card.fields[0].name == SUBMITTED_NAME_FIELD_LABEL@
            &&& card.fields[1].name == "Record name"@
            &&& card.fields[2].name == "Granted role"@
            &&& card.fields[0].value == submitted_name
            &&& card.fields[1].value == (match record_name {
                Some(n) => n,
                None => NO_RECORD_NAME@,
            })
            &&& card.fields[2].value == name
            &&& card.fields[3].name == EMAIL_FIELD_LABEL@ && card.fields[3].value == email
            &&& card.fields.len() == if name_mismatch {
                5int
            } else {
                4int
            }
            &&& name_mismatch ==> card.fields[4].name == MISMATCH_FIELD@ && card.fields[4].value
                == MISMATCH_WARNING@
            &&& by_hand.title == Some("Self-service verification - approved by a moderator"@)
            &&& by_hand.colour == Some(accent)
            &&& by_hand.fields.len() == 1 && by_hand.fields[0].name == "Granted role"@
                && by_hand.fields[0].value == name
            &&& by_hand.description == Some(
                "<@"@ + decimal(member.0 as nat) + "> ("@ + handle + ") was verified by <@"@
                    + decimal(approver.0 as nat) + "> ("@ + how + ")."@,
            )
        }),
{
}

/// The three buttons of a request re-check, approve and reject, in this order, and each is
/// about the member who asked.
pub proof fn law_a_request_offers_three_ways(member: DiscordUserId)
    ensures
        (review_row(member) matches RowView::Buttons(bs) && bs.len() == 3 && bs[0] == press_view(
            REVIEW_REVERIFY_ID@ + ":"@ + decimal(member.0 as nat),
            "Re-verify now"@,
            Style::Primary,
        ) && bs[1] == press_view(
            REVIEW_OVERRIDE_ID@ + ":"@ + decimal(member.0 as nat),
            "Manual override"@,
            Style::Secondary,
        ) && bs[2] == press_view(
            REVIEW_REJECT_ID@ + ":"@ + decimal(member.0 as nat),
            "Reject"@,
            Style::Danger,
        )),
{
}

/// The prompt shows its body over the one button that opens the form.
pub proof fn law_the_prompt_opens_the_form(body: Seq<char>, accent: u32)
    ensures
        prompt_view(body, accent).title == Some("Verify your membership"@),
        prompt_view(body, accent).description == Some(body),
        prompt_view(body, accent).colour == Some(accent),
        (prompt_row() matches RowView::Buttons(bs) && bs.len() == 1 && bs[0] == press_view(
            PROMPT_BUTTON_ID@,
            "Verify me"@,
            Style::Primary,
        )),
{
}

/// The form asks for the email, the first name and the last initial, each in its own box.
pub proof fn law_the_form_asks_for_three_things()
    ensures
        ({
            let form = form_view();
            &&& form.id == SUBMIT_MODAL_ID@
            &&& form.inputs.len() == 3
            &&& form.inputs[0].id == EMAIL_FIELD_ID@ && form.inputs[0].label == "Membership email"@
                && form.inputs[0].required
            &&& form.inputs[1].id == FIRST_FIELD_ID@ && form.inputs[1].label == "First name"@
                && form.inputs[1].required
            &&& form.inputs[2].id == LAST_FIELD_ID@ && form.inputs[2].label == "Last initial"@
                && form.inputs[2].required
            &&& form.title == "Verify your membership"@
            &&& forall|i: int|
                #![trigger form.inputs[i]]
                0 <= i < 3 ==> !form.inputs[i].paragraph && form.inputs[i].value is None
                    && form.inputs[i].min_length == Some(1u16)
            &&& form.inputs[0].max_length == Some(254u16) && form.inputs[1].max_length == Some(
                100u16,
            ) && form.inputs[2].max_length == Some(4u16)
        }),
{
}

} // verus!
