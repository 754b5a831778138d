//! Self-service verification: the standing button and form that let a member verify
//! themselves, the name double-check shown to moderators, and the moderator review of a
//! verification that could not be granted automatically.

use vstd::prelude::*;

use crate::accents::{strip_accents, strip_char};
use crate::clock::Instant;
use crate::ids::{DiscordChannelId, DiscordRoleId, DiscordUserId, Email};
use crate::lookup::RateLimiter;
use crate::render::modal::{override_modal, parse_email, parse_reason};
use crate::render::self_verify::{
    log_embed, manual_log_embed, review_request, ReviewReason, VerifyLog, EMAIL_FIELD_LABEL,
    PROMPT_BUTTON_ID, REVIEW_MODAL_ID, REVIEW_OVERRIDE_ID, REVIEW_REJECT_ID, REVIEW_REVERIFY_ID,
    SUBMIT_MODAL_ID,
};
use crate::role::Role;
use crate::store::GuildConfig;
use crate::text::{
    char_to_lower, chars_of, number, parse_unsigned, same, split_once, split_words, to_lower, trim,
};
use crate::ui::{as_opt_str, Embed, Field, Modal, Row};

#[allow(unused_imports)]
use crate::accents::{lemma_plain_char_is_plain, lemma_plain_is_plain, plain, plain_char};
#[allow(unused_imports)]
use crate::lookup::spend;
#[allow(unused_imports)]
use crate::render::modal::{non_empty, override_modal_view, plausible_email};
#[allow(unused_imports)]
use crate::render::self_verify::{
    log_view, manual_log_view, review_id, review_row, review_view, SUBMITTED_NAME_FIELD_LABEL,
};
#[allow(unused_imports)]
use crate::store::GuildConfigView;
#[allow(unused_imports)]
use crate::text::{
    char_lowercase, decimal, halves, is_blank, law_number_round_trips, lemma_decimal_is_digits,
    lemma_halves_of_joined, lowercase, trimmed, unsigned_value, words, IntError,
};
#[allow(unused_imports)]
use crate::ui::{opt_str_view, opt_view, views, EmbedView, FieldView, ModalView, RowView};

#[allow(unused_imports)]
use crate::text::law_trimming_takes_the_blank_ends;

verus! {

/// Whether the name a member typed lines up with their record.
#[derive(Debug, Clone, Copy, PartialEq, Eq, Structural)]
pub enum NameCheck {
    /// The submitted name lines up with the record.
    Match,
    /// It does not; the log post is flagged, but the grant still stands.
    Mismatch,
    /// The record has no name to compare against.
    Unchecked,
}

/// The verdict on a record name of `tokens` words, given whether the first name and the
/// last initial line up. A single word could be either name, so one of the two is enough;
/// with two or more, both must line up.
pub open spec fn verdict(tokens: int, first_ok: bool, last_ok: bool) -> NameCheck {
    if tokens == 0 {
        NameCheck::Unchecked
    } else if (tokens == 1 && (first_ok || last_ok)) || (first_ok && last_ok) {
        NameCheck::Match
    } else {
        NameCheck::Mismatch
    }
}

/// Whether two texts agree without their accents, once lower-cased.
pub open spec fn folds_equal(a: Seq<char>, b: Seq<char>) -> bool {
    lowercase(plain(a)) == lowercase(plain(b))
}

/// Whether a word begins with the submitted initial, accents and letter case aside. Empty or
/// blank inputs never do.
pub open spec fn initial_agrees(token: Seq<char>, initial: Seq<char>) -> bool {
    let t = trimmed(initial);
    token.len() > 0 && t.len() > 0 && char_lowercase(plain_char(token[0])) == char_lowercase(
        plain_char(t[0]),
    )
}

/// The first word of a text; empty where there is none.
pub open spec fn first_word(s: Seq<char>) -> Seq<char> {
    if words(s).len() == 0 {
        Seq::empty()
    } else {
        words(s)[0]
    }
}

/// The double-check of a submitted first name and last initial against a record's name.
pub open spec fn name_verdict_of(
    record_name: Option<Seq<char>>,
    first: Seq<char>,
    last_initial: Seq<char>,
) -> NameCheck {
    match record_name {
        None => NameCheck::Unchecked,
        Some(name) => {
            let ws = words(name);
            verdict(
                ws.len() as int,
                folds_equal(ws[0], first_word(first)),
                initial_agrees(ws.last(), last_initial),
            )
        },
    }
}

/// The verdict, once both comparisons are known.
pub fn name_verdict(tokens: usize, first_ok: bool, last_ok: bool) -> (r: NameCheck)
    ensures
        r == verdict(tokens as int, first_ok, last_ok),
{
    if tokens == 0 {
        return NameCheck::Unchecked;
    }
    let matched = if tokens == 1 {
        first_ok || last_ok
    } else {
        first_ok && last_ok
    };
    if matched {
        NameCheck::Match
    } else {
        NameCheck::Mismatch
    }
}

/// Case- and accent-insensitive equality that folds non-ASCII letters too, so an accented
/// name is not spuriously flagged.
pub fn eq_fold(a: &str, b: &str) -> (r: bool)
    ensures
        r == folds_equal(a@, b@),
{
    to_lower(strip_accents(a).as_str()) == to_lower(strip_accents(b).as_str())
}

/// Whether `token`'s first character equals the submitted initial, case- and
/// accent-insensitively.
pub fn initial_matches(token: &str, initial: &str) -> (r: bool)
    ensures
        r == initial_agrees(token@, initial@),
{
    let t = chars_of(token);
    let i = chars_of(trim(initial));
    if t.len() == 0 || i.len() == 0 {
        return false;
    }
    char_to_lower(strip_char(t[0])) == char_to_lower(strip_char(i[0]))
}

/// The first whitespace-separated word of `s`, or the empty string when `s` is blank.
pub fn first_token(s: &str) -> (r: String)
    ensures
        r@ == first_word(s@),
{
    let ws = split_words(s);
    if ws.len() == 0 {
        return String::new();
    }
    assert(views(ws@)[0] == ws@[0]@);
    ws[0].clone()
}

/// Compare a submitted first name and last initial against the record's full name.
///
/// Deliberately blunt, with no fuzzy or nickname matching, but lenient enough not to cry
/// wolf: the comparison is case- and accent-insensitive, and only a record with distinct
/// first and last names must match on both.
pub fn name_check(record_name: Option<&str>, first: &str, last_initial: &str) -> (r: NameCheck)
    ensures
        r == name_verdict_of(opt_str_view(record_name), first@, last_initial@),
{
    let name = match record_name {
        None => {
            return NameCheck::Unchecked;
        },
        Some(n) => n,
    };
    let tokens = split_words(name);
    let n: usize = tokens.len();
    if n == 0 {
        return NameCheck::Unchecked;
    }
    proof {
        assert(views(tokens@)[0] == tokens@[0]@);
        assert(views(tokens@).last() == tokens@[n - 1]@);
    }
    let first_ok = eq_fold(tokens[0].as_str(), first_token(first).as_str());
    let last_ok = initial_matches(tokens[n - 1].as_str(), last_initial);
    name_verdict(n, first_ok, last_ok)
}

/// A name lines up with the same name in plain letters, and so do any two that differ in
/// accents and ASCII letter case alone.
pub proof fn law_accents_do_not_matter(a: Seq<char>, b: Seq<char>)
    ensures
        folds_equal(a, plain(a)),
        plain(a) == plain(b) ==> folds_equal(a, b),
        a.len() > 0 && !is_blank(a[0]) ==> initial_agrees(a, seq![plain_char(a[0])]),
{
    lemma_plain_is_plain(a);
    if a.len() > 0 {
        lemma_plain_char_is_plain(a[0]);
    }
}

/// A record without a usable name is never a mismatch.
pub proof fn law_no_record_name_is_unchecked(
    record_name: Option<Seq<char>>,
    first: Seq<char>,
    last_initial: Seq<char>,
)
    ensures
        name_verdict_of(record_name, first, last_initial) == NameCheck::Unchecked <==> (
        record_name matches Some(name) ==> words(name).len() == 0),
{
}

/// Shown for every outcome that is not a clean grant, so a probe cannot tell members from
/// non-members.
pub const UNIFORM_FAILURE: &'static str = "We couldn't verify you automatically. A moderator will review your request and follow up shortly.";

/// The only distinct failure: verification could not run.
pub const BACKEND_ERROR: &'static str = "Something went wrong on my end - please try again in a moment.";

pub const RATE_LIMITED: &'static str = "You're going a little fast - please wait a moment and try again.";

pub const SUCCESS: &'static str = "You're verified! Welcome.";

pub const MODERATORS_ACT: &'static str = "Only moderators can act on a verification request.";

pub const EMAIL_UNREADABLE: &'static str = "Couldn't read the email off this request - approve by hand instead.";

pub const MEMBER_UNLOADABLE: &'static str = "Couldn't load that member - try again.";

pub const STILL_NO_MATCH: &'static str = "Still no match for that email - the record may not be in Solidarity Tech yet, or it needs a manual override.";

pub const NO_OVERRIDE_ROLE: &'static str = "No Manual Override role is configured - set one in /setup first.";

pub const OVERRIDE_GRANTED: &'static str = "Approved - they now hold the Member role and the Manual Override marker.";

pub const NAME_NOT_GIVEN: &'static str = "(not given)";

/// The name as shown to moderators: first name and initial, or a placeholder.
pub open spec fn shown_name(first: Seq<char>, last_initial: Seq<char>) -> Seq<char> {
    let joined = trimmed(trimmed(first) + " "@ + trimmed(last_initial));
    if joined.len() == 0 {
        NAME_NOT_GIVEN@
    } else {
        joined
    }
}

/// The name the member typed, formatted for the moderator log. Falls back to a placeholder
/// when blank: an empty embed field is rejected.
pub fn format_submitted_name(first: &str, last_initial: &str) -> (r: String)
    ensures
        r@ == shown_name(first@, last_initial@),
{
    let joined = trim(first).to_owned().concat(" ").concat(trim(last_initial));
    let name = trim(joined.as_str());
    if name.is_empty() {
        NAME_NOT_GIVEN.to_owned()
    } else {
        name.to_owned()
    }
}

/// Where a button press goes.
#[derive(Debug, Clone, PartialEq, Eq)]
pub enum ComponentRoute {
    /// Open the verification form.
    OpenForm,
    /// Re-check the request about the member this suffix names.
    Reverify(String),
    /// Hand-approve the member this suffix names.
    Override(String),
    /// Dismiss the request.
    Reject,
    /// Not ours.
    Ignore,
}

/// A [`ComponentRoute`] over characters.
pub enum ComponentRouteView {
    OpenForm,
    Reverify(Seq<char>),
    Override(Seq<char>),
    Reject,
    Ignore,
}

impl View for ComponentRoute {
    type V = ComponentRouteView;

    open spec fn view(&self) -> ComponentRouteView {
        match self {
            ComponentRoute::OpenForm => ComponentRouteView::OpenForm,
            ComponentRoute::Reverify(s) => ComponentRouteView::Reverify(s@),
            ComponentRoute::Override(s) => ComponentRouteView::Override(s@),
            ComponentRoute::Reject => ComponentRouteView::Reject,
            ComponentRoute::Ignore => ComponentRouteView::Ignore,
        }
    }
}

/// Where a press goes: only those from the served guild go anywhere.
pub open spec fn component_route(in_home_guild: bool, id: Seq<char>) -> ComponentRouteView {
    if !in_home_guild {
        ComponentRouteView::Ignore
    } else if id == PROMPT_BUTTON_ID@ {
        ComponentRouteView::OpenForm
    } else {
        match halves(id, ':') {
            None => ComponentRouteView::Ignore,
            Some((kind, arg)) => if kind == REVIEW_REVERIFY_ID@ {
                ComponentRouteView::Reverify(arg)
            } else if kind == REVIEW_OVERRIDE_ID@ {
                ComponentRouteView::Override(arg)
            } else if kind == REVIEW_REJECT_ID@ {
                ComponentRouteView::Reject
            } else {
                ComponentRouteView::Ignore
            },
        }
    }
}

/// Whether an interaction came from the one guild the bot serves. One without a guild is
/// never ours.
pub fn in_home_guild(guild: Option<u64>, home: u64) -> (r: bool)
    ensures
        r == (guild == Some(home)),
{
    match guild {
        Some(g) => g == home,
        None => false,
    }
}

/// Route a button press: the standing prompt opens the form, the review buttons drive the
/// moderator review.
pub fn on_component(guild: Option<u64>, home: u64, id: &str) -> (r: ComponentRoute)
    ensures
        r@ == component_route(guild == Some(home), id@),
{
    if !in_home_guild(guild, home) {
        return ComponentRoute::Ignore;
    }
    if same(id, PROMPT_BUTTON_ID) {
        return ComponentRoute::OpenForm;
    }
    match split_once(id, ':') {
        None => ComponentRoute::Ignore,
        Some((kind, arg)) => {
            if same(kind, REVIEW_REVERIFY_ID) {
                ComponentRoute::Reverify(arg.to_owned())
            } else if same(kind, REVIEW_OVERRIDE_ID) {
                ComponentRoute::Override(arg.to_owned())
            } else if same(kind, REVIEW_REJECT_ID) {
                ComponentRoute::Reject
            } else {
                ComponentRoute::Ignore
            }
        },
    }
}

/// Where a form submission goes.
#[derive(Debug, Clone, PartialEq, Eq)]
pub enum ModalRoute {
    /// The verification form.
    Submit,
    /// The override form, with what follows its kind.
    OverrideSubmit(String),
    /// Not ours.
    Ignore,
}

/// A [`ModalRoute`] over characters.
pub enum ModalRouteView {
    Submit,
    OverrideSubmit(Seq<char>),
    Ignore,
}

impl View for ModalRoute {
    type V = ModalRouteView;

    open spec fn view(&self) -> ModalRouteView {
        match self {
            ModalRoute::Submit => ModalRouteView::Submit,
            ModalRoute::OverrideSubmit(s) => ModalRouteView::OverrideSubmit(s@),
            ModalRoute::Ignore => ModalRouteView::Ignore,
        }
    }
}

/// Where a submission goes: only those from the served guild go anywhere.
pub open spec fn modal_route(in_home_guild: bool, id: Seq<char>) -> ModalRouteView {
    if !in_home_guild {
        ModalRouteView::Ignore
    } else if id == SUBMIT_MODAL_ID@ {
        ModalRouteView::Submit
    } else {
        match halves(id, ':') {
            Some((kind, rest)) if kind == REVIEW_MODAL_ID@ => ModalRouteView::OverrideSubmit(rest),
            _ => ModalRouteView::Ignore,
        }
    }
}

/// Route a form submission: the verification form, or the override form of a review
/// request.
pub fn on_modal(guild: Option<u64>, home: u64, id: &str) -> (r: ModalRoute)
    ensures
        r@ == modal_route(guild == Some(home), id@),
{
    if !in_home_guild(guild, home) {
        return ModalRoute::Ignore;
    }
    if same(id, SUBMIT_MODAL_ID) {
        return ModalRoute::Submit;
    }
    match split_once(id, ':') {
        None => ModalRoute::Ignore,
        Some((kind, rest)) => {
            if same(kind, REVIEW_MODAL_ID) {
                ModalRoute::OverrideSubmit(rest.to_owned())
            } else {
                ModalRoute::Ignore
            }
        },
    }
}

/// The raw id a suffix denotes.
pub open spec fn suffix_number(arg: Seq<char>) -> Option<u64> {
    match unsigned_value(arg, 10, u64::MAX as nat) {
        Ok(v) => Some(v as u64),
        Err(_) => None,
    }
}

fn parse_number(arg: &str) -> (r: Option<u64>)
    ensures
        r == suffix_number(arg@),
{
    match parse_unsigned(arg, 10, u64::MAX) {
        Ok(v) => Some(v),
        Err(_) => None,
    }
}

/// Parse the suffix of a review id into the member it is about.
pub fn parse_target(arg: &str) -> (r: Option<DiscordUserId>)
    ensures
        r == (match suffix_number(arg@) {
            Some(v) => Some(DiscordUserId(v)),
            None => None,
        }),
{
    match parse_number(arg) {
        Some(v) => Some(DiscordUserId(v)),
        None => None,
    }
}

proof fn lemma_kinds()
    ensures
        forall|j: int| 0 <= j < REVIEW_REVERIFY_ID@.len() ==> #[trigger] REVIEW_REVERIFY_ID@[j] != ':',
        forall|j: int| 0 <= j < REVIEW_OVERRIDE_ID@.len() ==> #[trigger] REVIEW_OVERRIDE_ID@[j] != ':',
        forall|j: int| 0 <= j < REVIEW_REJECT_ID@.len() ==> #[trigger] REVIEW_REJECT_ID@[j] != ':',
        forall|j: int| 0 <= j < REVIEW_MODAL_ID@.len() ==> #[trigger] REVIEW_MODAL_ID@[j] != ':',
        PROMPT_BUTTON_ID@.len() < 20,
        SUBMIT_MODAL_ID@.len() < 20,
        REVIEW_REVERIFY_ID@.len() == 26,
        REVIEW_OVERRIDE_ID@.len() == 26,
        REVIEW_REVERIFY_ID@[18] != REVIEW_OVERRIDE_ID@[18],
        REVIEW_REJECT_ID@.len() == 24,
        REVIEW_MODAL_ID@.len() == 23,
        ":"@ == seq![':'],
{
    reveal_strlit("selfverify_review_reverify");
    reveal_strlit("selfverify_review_override");
    reveal_strlit("selfverify_review_reject");
    reveal_strlit("selfverify_review_modal");
    reveal_strlit("selfverify_open");
    reveal_strlit("selfverify_submit");
    reveal_strlit(":");
    assert(":"@ =~= seq![':']);
}

/// Every button of a review request, pressed in the served guild, reaches the handler it
/// stands for with the member the request is about.
pub proof fn law_review_buttons_reach_their_member(member: DiscordUserId)
    ensures
        component_route(true, review_id(REVIEW_REVERIFY_ID@, member))
            == ComponentRouteView::Reverify(decimal(member.0 as nat)),
        component_route(true, review_id(REVIEW_OVERRIDE_ID@, member))
            == ComponentRouteView::Override(decimal(member.0 as nat)),
        component_route(true, review_id(REVIEW_REJECT_ID@, member)) == ComponentRouteView::Reject,
        suffix_number(decimal(member.0 as nat)) == Some(member.0),
{
    lemma_kinds();
    let d = decimal(member.0 as nat);
    lemma_halves_of_joined(REVIEW_REVERIFY_ID@, ':', d);
    lemma_halves_of_joined(REVIEW_OVERRIDE_ID@, ':', d);
    lemma_halves_of_joined(REVIEW_REJECT_ID@, ':', d);
    law_number_round_trips(member.0 as nat, u64::MAX as nat);
}

/// The id of the override form: the member and the request's message.
pub open spec fn override_form_id(target: DiscordUserId, message_id: u64) -> Seq<char> {
    REVIEW_MODAL_ID@ + ":"@ + decimal(target.0 as nat) + ":"@ + decimal(message_id as nat)
}

/// The member and message an override submission names.
pub open spec fn override_target(rest: Seq<char>) -> Option<(DiscordUserId, u64)> {
    match halves(rest, ':') {
        None => None,
        Some((t, m)) => match (suffix_number(t), suffix_number(m)) {
            (Some(target), Some(message)) => Some((DiscordUserId(target), message)),
            _ => None,
        },
    }
}

/// A submitted override form names the very member and request it was opened for.
pub proof fn law_override_form_round_trips(target: DiscordUserId, message_id: u64)
    ensures
        modal_route(true, override_form_id(target, message_id)) == ModalRouteView::OverrideSubmit(
            decimal(target.0 as nat) + ":"@ + decimal(message_id as nat),
        ),
        override_target(decimal(target.0 as nat) + ":"@ + decimal(message_id as nat)) == Some(
            (target, message_id),
        ),
{
    lemma_kinds();
    let t = decimal(target.0 as nat);
    let m = decimal(message_id as nat);
    let rest = t + seq![':'] + m;
    assert(override_form_id(target, message_id) =~= REVIEW_MODAL_ID@ + seq![':'] + rest);
    lemma_halves_of_joined(REVIEW_MODAL_ID@, ':', rest);
    lemma_decimal_is_digits(target.0 as nat);
    lemma_halves_of_joined(t, ':', m);
    law_number_round_trips(target.0 as nat, u64::MAX as nat);
    law_number_round_trips(message_id as nat, u64::MAX as nat);
}

/// The value of the first field with this label.
pub open spec fn labelled(fields: Seq<FieldView>, label: Seq<char>) -> Option<Seq<char>>
    decreases fields.len(),
{
    if fields.len() == 0 {
        None
    } else if fields[0].name == label {
        Some(fields[0].value)
    } else {
        labelled(fields.drop_first(), label)
    }
}

/// Read a labelled field's value back off a posted card.
pub fn field_from_post<'a>(fields: &'a Vec<Field>, label: &str) -> (r: Option<&'a str>)
    ensures
        opt_str_view(r) == labelled(fields@.map_values(|f: Field| f@), label@),
{
    let ghost fv = fields@.map_values(|f: Field| f@);
    let mut i: usize = 0;
    assert(fv.skip(0) =~= fv);
    while i < fields.len()
        invariant
            i <= fields.len(),
            fv == fields@.map_values(|f: Field| f@),
            labelled(fv, label@) == labelled(fv.skip(i as int), label@),
        decreases fields.len() - i,
    {
        assert(fv.skip(i as int).drop_first() =~= fv.skip(i + 1));
        assert(fv.skip(i as int)[0] == fields@[i as int]@);
        if same(fields[i].name.as_str(), label) {
            return Some(fields[i].value.as_str());
        }
        i += 1;
    }
    None
}

/// The email a member submitted can be read back off the request posted about them.
pub proof fn law_review_request_carries_the_email(
    member: DiscordUserId,
    handle: Seq<char>,
    submitted_name: Seq<char>,
    email: Seq<char>,
    reason: ReviewReason,
    accent: u32,
)
    ensures
        labelled(
            review_view(member, handle, submitted_name, email, reason, accent).fields,
            EMAIL_FIELD_LABEL@,
        ) == Some(email),
{
    reveal_strlit("Submitted name");
    reveal_strlit("Email");
    let fields = review_view(member, handle, submitted_name, email, reason, accent).fields;
    assert(SUBMITTED_NAME_FIELD_LABEL@.len() != EMAIL_FIELD_LABEL@.len());
    assert(fields.drop_first()[0].name == EMAIL_FIELD_LABEL@);
    reveal_with_fuel(labelled, 3);
}

/// What verifying by email came to.
#[derive(Debug, Clone, PartialEq, Eq)]
pub enum EmailGrant {
    /// Granted this role; the record's name, where it has one.
    Verified { role: Role, record_name: Option<String> },
    /// A record matched but carries no usable standing.
    Malformed,
    /// The email is linked to a different account.
    Conflict,
    /// No record carries the email.
    NotFound,
}

/// Who submitted the form, and what they typed.
#[derive(Debug, Clone, PartialEq, Eq)]
pub struct Submission {
    pub member: DiscordUserId,
    pub handle: String,
    pub email: String,
    pub first: String,
    pub last_initial: String,
}

/// What the first look at a submission comes to.
#[derive(Debug, Clone, PartialEq, Eq)]
pub enum SubmitAction {
    /// Tell the member this, and stop.
    Reply(&'static str),
    /// Verify the member by this email, on their own behalf.
    Verify(Email),
}

/// What a finished verification asks for: the member's answer, and at most one post.
#[derive(Debug, Clone, PartialEq, Eq)]
pub struct SubmitEnd {
    pub reply: &'static str,
    /// A log entry, and the channel for it.
    pub log: Option<(DiscordChannelId, Embed)>,
    /// A review request, and the channel for it.
    pub review: Option<(DiscordChannelId, Embed, Row)>,
}

/// Look at a submitted form. A member over the rate limit waits; before the managed roles
/// are set nothing can be granted; an email that cannot be one gets the same answer as any
/// other failure.
pub fn on_submit(submission: &Submission, allowed: bool, roles_configured: bool) -> (r: SubmitAction)
    ensures
        (if !allowed {
            r matches SubmitAction::Reply(s) && s@ == RATE_LIMITED@
        } else if !roles_configured {
            r matches SubmitAction::Reply(s) && s@ == BACKEND_ERROR@
        } else if !plausible_email(trimmed(submission.email@)) {
            r matches SubmitAction::Reply(s) && s@ == UNIFORM_FAILURE@
        } else {
            r matches SubmitAction::Verify(e) && e@ == trimmed(submission.email@)
        }),
{
    if !allowed {
        return SubmitAction::Reply(RATE_LIMITED);
    }
    if !roles_configured {
        return SubmitAction::Reply(BACKEND_ERROR);
    }
    match parse_email(submission.email.as_str()) {
        None => SubmitAction::Reply(UNIFORM_FAILURE),
        Some(email) => SubmitAction::Verify(email),
    }
}

/// Take a submitted form: it spends the submitting member's own allowance, once, whatever
/// comes of it, and is then looked at.
pub fn take_submission(
    submission: &Submission,
    limiter: &mut RateLimiter,
    now: Instant,
    roles_configured: bool,
) -> (r: SubmitAction)
    ensures
        ({
            let (allowed, window) = spend(
                old(limiter).limit(),
                old(limiter).window(submission.member.0),
                now,
            );
            &&& final(limiter).limit() == old(limiter).limit()
            &&& final(limiter).windows() == old(limiter).windows().insert(
                submission.member.0,
                window,
            )
            &&& if !allowed {
                r matches SubmitAction::Reply(s) && s@ == RATE_LIMITED@
            } else if !roles_configured {
                r matches SubmitAction::Reply(s) && s@ == BACKEND_ERROR@
            } else if !plausible_email(trimmed(submission.email@)) {
                r matches SubmitAction::Reply(s) && s@ == UNIFORM_FAILURE@
            } else {
                r matches SubmitAction::Verify(e) && e@ == trimmed(submission.email@)
            }
        }),
{
    let allowed = limiter.check(submission.member, now);
    on_submit(submission, allowed, roles_configured)
}

/// Why a grant that was not made needs a moderator; none where it was made.
pub open spec fn review_reason(grant: EmailGrant) -> Option<ReviewReason> {
    match grant {
        EmailGrant::Verified { .. } => None,
        EmailGrant::Malformed => Some(ReviewReason::Malformed),
        EmailGrant::Conflict => Some(ReviewReason::Conflict),
        EmailGrant::NotFound => Some(ReviewReason::NotFound),
    }
}

/// The member's answer. Every failure to match reads the same.
pub open spec fn submit_reply(outcome: Option<EmailGrant>) -> Seq<char> {
    match outcome {
        None => BACKEND_ERROR@,
        Some(EmailGrant::Verified { .. }) => SUCCESS@,
        Some(_) => UNIFORM_FAILURE@,
    }
}

/// The log entry of a grant.
pub open spec fn grant_log(
    submission: Submission,
    email: Seq<char>,
    outcome: Option<EmailGrant>,
    accent: u32,
) -> Option<EmbedView> {
    match outcome {
        Some(EmailGrant::Verified { role, record_name }) => Some(
            log_view(
                submission.member,
                submission.handle@,
                shown_name(submission.first@, submission.last_initial@),
                opt_view(record_name),
                role,
                email,
                name_verdict_of(
                    opt_view(record_name),
                    submission.first@,
                    submission.last_initial@,
                ) == NameCheck::Mismatch,
                accent,
            ),
        ),
        _ => None,
    }
}

/// Finish a verification: a grant is logged, a miss asks a moderator, and the member's
/// answer to every miss is the same. `outcome` is absent on a backend error. A post whose
/// channel is not configured is left out; what it reports has already taken effect.
pub fn finish_submit(
    submission: &Submission,
    email: &Email,
    outcome: &Option<EmailGrant>,
    cfg: &GuildConfig,
    accent: u32,
) -> (r: SubmitEnd)
    ensures
        r.reply@ == submit_reply(*outcome),
        r.log is Some <==> cfg@.verification_log_channel is Some && grant_log(
            *submission,
            email@,
            *outcome,
            accent,
        ) is Some,
        r.log matches Some((channel, embed)) ==> cfg@.verification_log_channel == Some(channel)
            && grant_log(*submission, email@, *outcome, accent) == Some(embed@),
        r.review is Some <==> cfg@.mod_approval_channel is Some && (*outcome matches Some(g)
            && review_reason(g) is Some),
        r.review matches Some((channel, embed, row)) ==> {
            &&& cfg@.mod_approval_channel == Some(channel)
            &&& embed@ == review_view(
                submission.member,
                submission.handle@,
                shown_name(submission.first@, submission.last_initial@),
                email@,
                review_reason(outcome->0)->0,
                accent,
            )
            &&& row@ == review_row(submission.member)
        },
{
    let submitted_name = format_submitted_name(
        submission.first.as_str(),
        submission.last_initial.as_str(),
    );
    let reason = match outcome {
        None => {
            return SubmitEnd { reply: BACKEND_ERROR, log: None, review: None };
        },
        Some(EmailGrant::Verified { role, record_name }) => {
            let verdict = name_check(
                as_opt_str(record_name),
                submission.first.as_str(),
                submission.last_initial.as_str(),
            );
            let entry = VerifyLog {
                member: submission.member,
                handle: submission.handle.as_str(),
                submitted_name: submitted_name.as_str(),
                record_name: as_opt_str(record_name),
                role: *role,
                email: email.as_str(),
                name_mismatch: matches!(verdict, NameCheck::Mismatch),
            };
            let log = match cfg.verification_log_channel {
                Some(channel) => Some((channel, log_embed(&entry, accent))),
                None => None,
            };
            return SubmitEnd { reply: SUCCESS, log, review: None };
        },
        Some(EmailGrant::Malformed) => ReviewReason::Malformed,
        Some(EmailGrant::Conflict) => ReviewReason::Conflict,
        Some(EmailGrant::NotFound) => ReviewReason::NotFound,
    };
    let review = match cfg.mod_approval_channel {
        Some(channel) => {
            let (embed, row) = review_request(
                submission.member,
                submission.handle.as_str(),
                submitted_name.as_str(),
                email.as_str(),
                reason,
                accent,
            );
            Some((channel, embed, row))
        },
        None => None,
    };
    SubmitEnd { reply: UNIFORM_FAILURE, log: None, review }
}

/// No probe can tell one miss from another: whatever the record holds, a member who is not
/// granted and whose verification did run is answered alike.
pub proof fn law_misses_are_answered_alike(a: EmailGrant, b: EmailGrant)
    requires
        !(a is Verified),
        !(b is Verified),
    ensures
        submit_reply(Some(a)) == submit_reply(Some(b)),
        submit_reply(Some(a)) == UNIFORM_FAILURE@,
{
}

/// Whether the presser holds the configured moderator role.
pub open spec fn holds_role(role: Option<DiscordRoleId>, held: Option<Seq<DiscordRoleId>>) -> bool {
    match (role, held) {
        (Some(role), Some(held)) => held.contains(role),
        _ => false,
    }
}

/// The roles of an optional member.
pub open spec fn roles_view(held: Option<&Vec<DiscordRoleId>>) -> Option<Seq<DiscordRoleId>> {
    match held {
        Some(v) => Some(v@),
        None => None,
    }
}

/// Whether the member who pressed a review button holds the configured moderator role. The
/// buttons live in a moderators' channel, but this is the real gate; with no role
/// configured, nobody passes.
pub fn clicker_is_moderator(role: Option<DiscordRoleId>, held: Option<&Vec<DiscordRoleId>>) -> (r:
    bool)
    ensures
        r == holds_role(role, roles_view(held)),
{
    match (role, held) {
        (Some(role), Some(held)) => has_role(held, role),
        _ => false,
    }
}

/// Whether a role is among those held.
pub(crate) fn has_role(held: &Vec<DiscordRoleId>, role: DiscordRoleId) -> (r: bool)
    ensures
        r == held@.contains(role),
{
    let mut i: usize = 0;
    while i < held.len()
        invariant
            i <= held.len(),
            forall|j: int| 0 <= j < i ==> #[trigger] held@[j] != role,
        decreases held.len() - i,
    {
        if held[i].0 == role.0 {
            assert(held@[i as int] == role);
            return true;
        }
        i += 1;
    }
    false
}

/// The line a resolved request is headed with.
pub open spec fn banner_words(status: Seq<char>, resolver: DiscordUserId) -> Seq<char> {
    status + " by <@"@ + decimal(resolver.0 as nat) + ">."@
}

/// What a review action works with: who acts, where requests and grants are posted, if
/// anywhere, and the accent of new posts.
#[derive(Debug, Clone, Copy, PartialEq, Eq, Structural)]
pub struct ReviewDesk {
    pub moderator: DiscordUserId,
    pub approval_channel: Option<DiscordChannelId>,
    pub log_channel: Option<DiscordChannelId>,
    pub accent: u32,
}

/// The edit that resolves a request: its card stays, its controls go, and `banner` heads it.
#[derive(Debug, Clone, PartialEq, Eq)]
pub struct Resolution {
    pub channel: DiscordChannelId,
    pub message_id: u64,
    pub banner: String,
}

/// A [`Resolution`] over characters.
pub struct ResolutionView {
    pub channel: DiscordChannelId,
    pub message_id: u64,
    pub banner: Seq<char>,
}

impl View for Resolution {
    type V = ResolutionView;

    open spec fn view(&self) -> ResolutionView {
        ResolutionView {
            channel: self.channel,
            message_id: self.message_id,
            banner: self.banner@,
        }
    }
}

/// The view of an optional resolution.
pub open spec fn opt_resolution(r: Option<Resolution>) -> Option<ResolutionView> {
    match r {
        Some(r) => Some(r@),
        None => None,
    }
}

/// The view of an optional log post.
pub open spec fn opt_post(r: Option<(DiscordChannelId, Embed)>) -> Option<
    (DiscordChannelId, EmbedView),
> {
    match r {
        Some((channel, embed)) => Some((channel, embed@)),
        None => None,
    }
}

/// The resolution of a request; none while no approval channel is configured.
pub open spec fn resolved(desk: ReviewDesk, message_id: u64, status: Seq<char>) -> Option<
    ResolutionView,
> {
    match desk.approval_channel {
        Some(channel) => Some(
            ResolutionView { channel, message_id, banner: banner_words(status, desk.moderator) },
        ),
        None => None,
    }
}

/// Resolve a review request in place, so it cannot be acted on twice. The post lives in the
/// configured approval channel.
pub fn resolve_post(desk: &ReviewDesk, message_id: u64, status: &str) -> (r: Option<Resolution>)
    ensures
        opt_resolution(r) == resolved(*desk, message_id, status@),
{
    match desk.approval_channel {
        Some(channel) => {
            let banner = status.to_owned().concat(" by <@").concat(
                number(desk.moderator.0).as_str(),
            ).concat(">.");
            Some(Resolution { channel, message_id, banner })
        },
        None => None,
    }
}

/// The log post of a moderator's grant; none while no log channel is configured.
pub open spec fn manual_log(
    desk: ReviewDesk,
    member: DiscordUserId,
    handle: Seq<char>,
    how: Seq<char>,
    role: Role,
) -> Option<(DiscordChannelId, EmbedView)> {
    match desk.log_channel {
        Some(channel) => Some(
            (channel, manual_log_view(member, handle, desk.moderator, how, role, desk.accent)),
        ),
        None => None,
    }
}

/// Log a moderator's grant where automatic verifications are logged.
pub fn post_manual_log(
    desk: &ReviewDesk,
    member: DiscordUserId,
    handle: &str,
    how: &str,
    role: Role,
) -> (r: Option<(DiscordChannelId, Embed)>)
    ensures
        opt_post(r) == manual_log(*desk, member, handle@, how@, role),
{
    match desk.log_channel {
        Some(channel) => Some(
            (channel, manual_log_embed(member, handle, desk.moderator, how, role, desk.accent)),
        ),
        None => None,
    }
}

/// Where a re-check stands.
#[derive(Debug, Clone, PartialEq, Eq)]
pub enum ReverifyPhase {
    /// Not begun.
    Start,
    /// Acknowledged; the member is being loaded.
    Loading { target: DiscordUserId, message_id: u64, email: Email },
    /// The email is being matched again.
    Verifying { target: DiscordUserId, message_id: u64, handle: String },
    /// Over.
    Done,
}

/// A [`ReverifyPhase`] over characters.
pub enum ReverifyPhaseView {
    Start,
    Loading { target: DiscordUserId, message_id: u64, email: Seq<char> },
    Verifying { target: DiscordUserId, message_id: u64, handle: Seq<char> },
    Done,
}

impl View for ReverifyPhase {
    type V = ReverifyPhaseView;

    open spec fn view(&self) -> ReverifyPhaseView {
        match self {
            ReverifyPhase::Start => ReverifyPhaseView::Start,
            ReverifyPhase::Loading { target, message_id, email } => ReverifyPhaseView::Loading {
                target: *target,
                message_id: *message_id,
                email: email@,
            },
            ReverifyPhase::Verifying {
                target,
                message_id,
                handle,
            } => ReverifyPhaseView::Verifying {
                target: *target,
                message_id: *message_id,
                handle: handle@,
            },
            ReverifyPhase::Done => ReverifyPhaseView::Done,
        }
    }
}

/// What just happened to a re-check.
#[derive(Debug, Clone, PartialEq, Eq)]
pub enum ReverifyEvent {
    /// Its button was pressed: by a moderator or not, with the managed roles set or not,
    /// with this suffix, on this post with this email, if it can be read.
    Pressed {
        is_moderator: bool,
        roles_configured: bool,
        arg: String,
        message_id: u64,
        email: Option<String>,
    },
    /// The member's handle, if it could be loaded.
    Loaded(Option<String>),
    /// The match ended; absent on a backend error.
    Matched(Option<EmailGrant>),
}

/// A [`ReverifyEvent`] over characters.
pub enum ReverifyEventView {
    Pressed {
        is_moderator: bool,
        roles_configured: bool,
        arg: Seq<char>,
        message_id: u64,
        email: Option<Seq<char>>,
    },
    Loaded(Option<Seq<char>>),
    Matched(Option<EmailGrant>),
}

impl View for ReverifyEvent {
    type V = ReverifyEventView;

    open spec fn view(&self) -> ReverifyEventView {
        match self {
            ReverifyEvent::Pressed {
                is_moderator,
                roles_configured,
                arg,
                message_id,
                email,
            } => ReverifyEventView::Pressed {
                is_moderator: *is_moderator,
                roles_configured: *roles_configured,
                arg: arg@,
                message_id: *message_id,
                email: opt_view(*email),
            },
            ReverifyEvent::Loaded(handle) => ReverifyEventView::Loaded(opt_view(*handle)),
            ReverifyEvent::Matched(o) => ReverifyEventView::Matched(*o),
        }
    }
}

/// What a review action does next.
#[derive(Debug, Clone, PartialEq, Eq)]
pub enum ReviewAction {
    /// Answer privately and stop; the request is untouched.
    Deny(String),
    /// Acknowledge the press and load the member.
    Load(DiscordUserId),
    /// Match this email again, in the moderator's name.
    Match(DiscordUserId, Email),
    /// Approve by hand, for this reason, in the moderator's name.
    Approve(DiscordUserId, Option<String>),
    /// Resolve the request, log the grant, and answer privately.
    Grant {
        resolution: Option<Resolution>,
        log: Option<(DiscordChannelId, Embed)>,
        reply: String,
    },
    /// Stop without a word.
    Stop,
}

/// A [`ReviewAction`] over characters.
pub enum ReviewActionView {
    Deny(Seq<char>),
    Load(DiscordUserId),
    Match(DiscordUserId, Seq<char>),
    Approve(DiscordUserId, Option<Seq<char>>),
    Grant {
        resolution: Option<ResolutionView>,
        log: Option<(DiscordChannelId, EmbedView)>,
        reply: Seq<char>,
    },
    Stop,
}

impl View for ReviewAction {
    type V = ReviewActionView;

    open spec fn view(&self) -> ReviewActionView {
        match self {
            ReviewAction::Deny(s) => ReviewActionView::Deny(s@),
            ReviewAction::Load(t) => ReviewActionView::Load(*t),
            ReviewAction::Match(t, e) => ReviewActionView::Match(*t, e@),
            ReviewAction::Approve(t, r) => ReviewActionView::Approve(*t, opt_view(*r)),
            ReviewAction::Grant { resolution, log, reply } => ReviewActionView::Grant {
                resolution: opt_resolution(*resolution),
                log: opt_post(*log),
                reply: reply@,
            },
            ReviewAction::Stop => ReviewActionView::Stop,
        }
    }
}

/// A re-check, one event at a time. A clean grant resolves the request; anything else
/// leaves it open and tells only the moderator.
pub open spec fn reverify_next(
    desk: ReviewDesk,
    phase: ReverifyPhaseView,
    event: ReverifyEventView,
) -> (ReverifyPhaseView, ReviewActionView) {
    match (phase, event) {
        (
            ReverifyPhaseView::Start,
            ReverifyEventView::Pressed { is_moderator, roles_configured, arg, message_id, email },
        ) => {
            if !is_moderator {
                (ReverifyPhaseView::Done, ReviewActionView::Deny(MODERATORS_ACT@))
            } else {
                match suffix_number(arg) {
                    None => (ReverifyPhaseView::Done, ReviewActionView::Stop),
                    Some(id) => match email {
                        Some(raw) if plausible_email(trimmed(raw)) => if !roles_configured {
                            (ReverifyPhaseView::Done, ReviewActionView::Deny(BACKEND_ERROR@))
                        } else {
                            (
                                ReverifyPhaseView::Loading {
                                    target: DiscordUserId(id),
                                    message_id,
                                    email: trimmed(raw),
                                },
                                ReviewActionView::Load(DiscordUserId(id)),
                            )
                        },
                        _ => (ReverifyPhaseView::Done, ReviewActionView::Deny(EMAIL_UNREADABLE@)),
                    },
                }
            }
        },
        (
            ReverifyPhaseView::Loading { target, message_id, email },
            ReverifyEventView::Loaded(handle),
        ) => match handle {
            None => (ReverifyPhaseView::Done, ReviewActionView::Deny(MEMBER_UNLOADABLE@)),
            Some(handle) => (
                ReverifyPhaseView::Verifying { target, message_id, handle },
                ReviewActionView::Match(target, email),
            ),
        },
        (
            ReverifyPhaseView::Verifying { target, message_id, handle },
            ReverifyEventView::Matched(outcome),
        ) => (
            ReverifyPhaseView::Done,
            match outcome {
                Some(EmailGrant::Verified { role, record_name: _ }) => ReviewActionView::Grant {
                    resolution: resolved(desk, message_id, "Approved by re-verify"@),
                    log: manual_log(desk, target, handle, "re-verify"@, role),
                    reply: "Verified - granted "@ + role.words() + "."@,
                },
                Some(_) => ReviewActionView::Deny(STILL_NO_MATCH@),
                None => ReviewActionView::Deny(BACKEND_ERROR@),
            },
        ),
        _ => (phase, ReviewActionView::Stop),
    }
}

/// Re-run verification for a pending request: a moderator may have just added the member's
/// record. The moderator is the audit actor.
pub fn review_reverify(desk: &ReviewDesk, phase: ReverifyPhase, event: &ReverifyEvent) -> (r: (
    ReverifyPhase,
    ReviewAction,
))
    ensures
        (r.0@, r.1@) == reverify_next(*desk, phase@, event@),
{
    match (phase, event) {
        (
            ReverifyPhase::Start,
            ReverifyEvent::Pressed { is_moderator, roles_configured, arg, message_id, email },
        ) => {
            if !*is_moderator {
                return (ReverifyPhase::Done, ReviewAction::Deny(MODERATORS_ACT.to_owned()));
            }
            let target = match parse_target(arg.as_str()) {
                None => {
                    return (ReverifyPhase::Done, ReviewAction::Stop);
                },
                Some(t) => t,
            };
            let parsed = match email {
                Some(raw) => parse_email(raw.as_str()),
                None => None,
            };
            match parsed {
                None => (ReverifyPhase::Done, ReviewAction::Deny(EMAIL_UNREADABLE.to_owned())),
                Some(email) => {
                    if !*roles_configured {
                        return (
                            ReverifyPhase::Done,
                            ReviewAction::Deny(BACKEND_ERROR.to_owned()),
                        );
                    }
                    (
                        ReverifyPhase::Loading { target, message_id: *message_id, email },
                        ReviewAction::Load(target),
                    )
                },
            }
        },
        (ReverifyPhase::Loading { target, message_id, email }, ReverifyEvent::Loaded(handle)) => {
            match handle {
                None => (ReverifyPhase::Done, ReviewAction::Deny(MEMBER_UNLOADABLE.to_owned())),
                Some(handle) => (
                    ReverifyPhase::Verifying { target, message_id, handle: handle.clone() },
                    ReviewAction::Match(target, email),
                ),
            }
        },
        (
            ReverifyPhase::Verifying { target, message_id, handle },
            ReverifyEvent::Matched(outcome),
        ) => {
            let action = match outcome {
                Some(EmailGrant::Verified { role, record_name: _ }) => ReviewAction::Grant {
                    resolution: resolve_post(desk, message_id, "Approved by re-verify"),
                    log: post_manual_log(desk, target, handle.as_str(), "re-verify", *role),
                    reply: "Verified - granted ".to_owned().concat(role.as_str()).concat("."),
                },
                Some(_) => ReviewAction::Deny(STILL_NO_MATCH.to_owned()),
                None => ReviewAction::Deny(BACKEND_ERROR.to_owned()),
            };
            (ReverifyPhase::Done, action)
        },
        (phase, _) => (phase, ReviewAction::Stop),
    }
}

/// What the "Manual override" button comes to.
#[derive(Debug, Clone, PartialEq, Eq)]
pub enum OverrideAction {
    /// Answer privately and stop.
    Deny(&'static str),
    /// Load this member's handle, then open the form.
    Load(DiscordUserId),
    /// Stop without a word.
    Stop,
}

/// The guard on the "Manual override" button: moderators only, and only where the marker it
/// grants is configured.
pub fn review_open_override(is_moderator: bool, arg: &str, override_role_set: bool) -> (r:
    OverrideAction)
    ensures
        (if !is_moderator {
            r matches OverrideAction::Deny(s) && s@ == MODERATORS_ACT@
        } else {
            match suffix_number(arg@) {
                None => r is Stop,
                Some(id) => if !override_role_set {
                    r matches OverrideAction::Deny(s) && s@ == NO_OVERRIDE_ROLE@
                } else {
                    r == OverrideAction::Load(DiscordUserId(id))
                },
            }
        }),
{
    if !is_moderator {
        return OverrideAction::Deny(MODERATORS_ACT);
    }
    match parse_target(arg) {
        None => OverrideAction::Stop,
        Some(target) => {
            if !override_role_set {
                return OverrideAction::Deny(NO_OVERRIDE_ROLE);
            }
            OverrideAction::Load(target)
        },
    }
}

/// The override form for a member, titled by their handle where it could be loaded.
pub fn override_form(target: DiscordUserId, handle: Option<&str>, message_id: u64) -> (r: Modal)
    ensures
        r@ == override_modal_view(
            override_form_id(target, message_id),
            match handle {
                Some(h) => h@,
                None => "the member"@,
            },
        ),
{
    let id = REVIEW_MODAL_ID.to_owned().concat(":").concat(number(target.0).as_str()).concat(
        ":",
    ).concat(number(message_id).as_str());
    let display = match handle {
        Some(h) => h,
        None => "the member",
    };
    override_modal(id.as_str(), display)
}

/// Dismiss a review request: moderators only; the post stays, resolved.
pub fn review_reject(desk: &ReviewDesk, is_moderator: bool, message_id: u64) -> (r: Result<
    Option<Resolution>,
    &'static str,
>)
    ensures
        r is Ok <==> is_moderator,
        r matches Ok(resolution) ==> opt_resolution(resolution) == resolved(
            *desk,
            message_id,
            "Rejected"@,
        ),
        r matches Err(s) ==> s@ == MODERATORS_ACT@,
{
    if !is_moderator {
        return Err(MODERATORS_ACT);
    }
    Ok(resolve_post(desk, message_id, "Rejected"))
}

/// Where a hand approval from a review request stands.
#[derive(Debug, Clone, PartialEq, Eq)]
pub enum ApprovePhase {
    /// Not begun.
    Start,
    /// The member is being loaded.
    Loading { target: DiscordUserId, message_id: u64 },
    /// The approval is being written.
    Approving { target: DiscordUserId, message_id: u64, handle: String },
    /// Over.
    Done,
}

/// An [`ApprovePhase`] over characters.
pub enum ApprovePhaseView {
    Start,
    Loading { target: DiscordUserId, message_id: u64 },
    Approving { target: DiscordUserId, message_id: u64, handle: Seq<char> },
    Done,
}

impl View for ApprovePhase {
    type V = ApprovePhaseView;

    open spec fn view(&self) -> ApprovePhaseView {
        match self {
            ApprovePhase::Start => ApprovePhaseView::Start,
            ApprovePhase::Loading { target, message_id } => ApprovePhaseView::Loading {
                target: *target,
                message_id: *message_id,
            },
            ApprovePhase::Approving { target, message_id, handle } => ApprovePhaseView::Approving {
                target: *target,
                message_id: *message_id,
                handle: handle@,
            },
            ApprovePhase::Done => ApprovePhaseView::Done,
        }
    }
}

/// What just happened to a hand approval.
#[derive(Debug, Clone, PartialEq, Eq)]
pub enum ApproveEvent {
    /// Its form was submitted: by a moderator or not, with this id suffix, and with the
    /// managed roles set or not.
    Submitted { is_moderator: bool, rest: String, roles_configured: bool },
    /// The member's handle, if it could be loaded, and the reason typed.
    Loaded { handle: Option<String>, reason: String },
    /// The approval was written, or failed.
    Written(bool),
}

/// An [`ApproveEvent`] over characters.
pub enum ApproveEventView {
    Submitted { is_moderator: bool, rest: Seq<char>, roles_configured: bool },
    Loaded { handle: Option<Seq<char>>, reason: Seq<char> },
    Written(bool),
}

impl View for ApproveEvent {
    type V = ApproveEventView;

    open spec fn view(&self) -> ApproveEventView {
        match self {
            ApproveEvent::Submitted { is_moderator, rest, roles_configured } => ApproveEventView::Submitted {
                is_moderator: *is_moderator,
                rest: rest@,
                roles_configured: *roles_configured,
            },
            ApproveEvent::Loaded { handle, reason } => ApproveEventView::Loaded {
                handle: opt_view(*handle),
                reason: reason@,
            },
            ApproveEvent::Written(ok) => ApproveEventView::Written(*ok),
        }
    }
}

/// A hand approval, one event at a time.
pub open spec fn approve_next(
    desk: ReviewDesk,
    phase: ApprovePhaseView,
    event: ApproveEventView,
) -> (ApprovePhaseView, ReviewActionView) {
    match (phase, event) {
        (
            ApprovePhaseView::Start,
            ApproveEventView::Submitted { is_moderator, rest, roles_configured },
        ) => if !is_moderator {
            (ApprovePhaseView::Done, ReviewActionView::Deny(MODERATORS_ACT@))
        } else {
            match override_target(rest) {
                None => (ApprovePhaseView::Done, ReviewActionView::Stop),
                Some((target, message_id)) => if !roles_configured {
                    (ApprovePhaseView::Done, ReviewActionView::Deny(BACKEND_ERROR@))
                } else {
                    (
                        ApprovePhaseView::Loading { target, message_id },
                        ReviewActionView::Load(target),
                    )
                },
            }
        },
        (
            ApprovePhaseView::Loading { target, message_id },
            ApproveEventView::Loaded { handle, reason },
        ) => match handle {
            None => (ApprovePhaseView::Done, ReviewActionView::Deny(MEMBER_UNLOADABLE@)),
            Some(handle) => (
                ApprovePhaseView::Approving { target, message_id, handle },
                ReviewActionView::Approve(target, non_empty(reason)),
            ),
        },
        (
            ApprovePhaseView::Approving { target, message_id, handle },
            ApproveEventView::Written(ok),
        ) => (
            ApprovePhaseView::Done,
            if ok {
                ReviewActionView::Grant {
                    resolution: resolved(desk, message_id, "Approved by manual override"@),
                    log: manual_log(desk, target, handle, "manual override"@, Role::Member),
                    reply: OVERRIDE_GRANTED@,
                }
            } else {
                ReviewActionView::Deny(BACKEND_ERROR@)
            },
        ),
        _ => (phase, ReviewActionView::Stop),
    }
}

fn parse_override_target(rest: &str) -> (r: Option<(DiscordUserId, u64)>)
    ensures
        r == override_target(rest@),
{
    match split_once(rest, ':') {
        None => None,
        Some((t, m)) => match (parse_target(t), parse_number(m)) {
            (Some(target), Some(message)) => Some((target, message)),
            _ => None,
        },
    }
}

/// Grant a manual override from the review form, then resolve the request it came from.
pub fn review_override_submit(
    desk: &ReviewDesk,
    phase: ApprovePhase,
    event: &ApproveEvent,
) -> (r: (ApprovePhase, ReviewAction))
    ensures
        (r.0@, r.1@) == approve_next(*desk, phase@, event@),
{
    match (phase, event) {
        (
            ApprovePhase::Start,
            ApproveEvent::Submitted { is_moderator, rest, roles_configured },
        ) => {
            if !*is_moderator {
                return (ApprovePhase::Done, ReviewAction::Deny(MODERATORS_ACT.to_owned()));
            }
            match parse_override_target(rest.as_str()) {
                None => (ApprovePhase::Done, ReviewAction::Stop),
                Some((target, message_id)) => {
                    if !*roles_configured {
                        return (
                            ApprovePhase::Done,
                            ReviewAction::Deny(BACKEND_ERROR.to_owned()),
                        );
                    }
                    (ApprovePhase::Loading { target, message_id }, ReviewAction::Load(target))
                },
            }
        },
        (ApprovePhase::Loading { target, message_id }, ApproveEvent::Loaded { handle, reason }) => {
            match handle {
                None => (ApprovePhase::Done, ReviewAction::Deny(MEMBER_UNLOADABLE.to_owned())),
                Some(handle) => (
                    ApprovePhase::Approving { target, message_id, handle: handle.clone() },
                    ReviewAction::Approve(target, parse_reason(reason.as_str())),
                ),
            }
        },
        (ApprovePhase::Approving { target, message_id, handle }, ApproveEvent::Written(ok)) => {
            if *ok {
                (
                    ApprovePhase::Done,
                    ReviewAction::Grant {
                        resolution: resolve_post(desk, message_id, "Approved by manual override"),
                        log: post_manual_log(
                            desk,
                            target,
                            handle.as_str(),
                            "manual override",
                            Role::Member,
                        ),
                        reply: OVERRIDE_GRANTED.to_owned(),
                    },
                )
            } else {
                (ApprovePhase::Done, ReviewAction::Deny(BACKEND_ERROR.to_owned()))
            }
        },
        (phase, _) => (phase, ReviewAction::Stop),
    }
}

/// Nobody but a moderator gets past the first step of a review action, so nobody else ever
/// matches, approves or resolves anything.
pub proof fn law_reviews_are_for_moderators(
    desk: ReviewDesk,
    arg: Seq<char>,
    message_id: u64,
    email: Option<Seq<char>>,
    roles_configured: bool,
)
    ensures
        reverify_next(
            desk,
            ReverifyPhaseView::Start,
            ReverifyEventView::Pressed {
                is_moderator: false,
                roles_configured,
                arg,
                message_id,
                email,
            },
        ) == (ReverifyPhaseView::Done, ReviewActionView::Deny(MODERATORS_ACT@)),
        approve_next(
            desk,
            ApprovePhaseView::Start,
            ApproveEventView::Submitted { is_moderator: false, rest: arg, roles_configured },
        ) == (ApprovePhaseView::Done, ReviewActionView::Deny(MODERATORS_ACT@)),
{
}

/// A request is resolved only by a grant that was really made: a re-check that verified the
/// member, or an approval that was written.
pub proof fn law_requests_stay_open_without_a_grant(
    desk: ReviewDesk,
    phase: ReverifyPhaseView,
    event: ReverifyEventView,
    approve_phase: ApprovePhaseView,
    approve_event: ApproveEventView,
)
    ensures
        reverify_next(desk, phase, event).1 is Grant ==> (
        event matches ReverifyEventView::Matched(Some(EmailGrant::Verified { role, record_name }))),
        approve_next(desk, approve_phase, approve_event).1 is Grant ==> approve_event
            == ApproveEventView::Written(true),
{
}

/// An approval from the form opened for a request is about that member, and resolves that
/// request and no other.
pub proof fn law_approval_resolves_its_own_request(
    desk: ReviewDesk,
    target: DiscordUserId,
    message_id: u64,
    handle: Seq<char>,
    reason: Seq<char>,
)
    ensures
        ({
            let rest = decimal(target.0 as nat) + ":"@ + decimal(message_id as nat);
            let submitted = approve_next(
                desk,
                ApprovePhaseView::Start,
                ApproveEventView::Submitted { is_moderator: true, rest, roles_configured: true },
            );
            let loaded = approve_next(
                desk,
                submitted.0,
                ApproveEventView::Loaded { handle: Some(handle), reason },
            );
            let written = approve_next(desk, loaded.0, ApproveEventView::Written(true));
            &&& modal_route(true, override_form_id(target, message_id))
                == ModalRouteView::OverrideSubmit(rest)
            &&& submitted.1 == ReviewActionView::Load(target)
            &&& loaded.1 == ReviewActionView::Approve(target, non_empty(reason))
            &&& written.1 matches ReviewActionView::Grant { resolution, .. } && resolution
                == resolved(desk, message_id, "Approved by manual override"@)
        }),
{
    law_override_form_round_trips(target, message_id);
}

/// What a finished verification tells whom: the member hears of a grant, of a miss in one
/// way, or of a failure; a grant is logged with the role that was granted, and each kind of
/// miss reaches the moderators under its own reason, about the member who asked and with the
/// email they typed. No grant asks for a review and no miss is logged as a grant.
pub proof fn law_every_miss_reaches_the_moderators_as_itself(
    submission: &Submission,
    email: &Email,
    outcome: &Option<EmailGrant>,
    cfg: &GuildConfig,
    accent: u32,
    end: SubmitEnd,
)
    requires
        call_ensures(finish_submit, (submission, email, outcome, cfg, accent), end),
    ensures
        *outcome is None ==> end.reply@ == BACKEND_ERROR@ && end.log is None && end.review is None,
        (*outcome matches Some(EmailGrant::Verified { role, record_name }) ==> end.reply@
            == SUCCESS@ && end.review is None && (end.log is Some
            <==> cfg@.verification_log_channel is Some) && (end.log matches Some((
            channel,
            embed,
        )) ==> cfg@.verification_log_channel == Some(channel) && embed@ == log_view(
            submission.member,
            submission.handle@,
            shown_name(submission.first@, submission.last_initial@),
            opt_view(record_name),
            role,
            email@,
            name_verdict_of(
                opt_view(record_name),
                submission.first@,
                submission.last_initial@,
            ) is Mismatch,
            accent,
        ))),
        (*outcome matches Some(grant) ==> (!(grant is Verified) ==> {
            &&& end.reply@ == UNIFORM_FAILURE@
            &&& end.log is None
            &&& (end.review is Some <==> cfg@.mod_approval_channel is Some)
            &&& (end.review matches Some((channel, embed, row)) ==> cfg@.mod_approval_channel == Some(
                channel,
            ) && row@ == review_row(submission.member) && embed@ == review_view(
                submission.member,
                submission.handle@,
                shown_name(submission.first@, submission.last_initial@),
                email@,
                match grant {
                    EmailGrant::Conflict => ReviewReason::Conflict,
                    EmailGrant::NotFound => ReviewReason::NotFound,
                    _ => ReviewReason::Malformed,
                },
                accent,
            ))
        })),
{
}

/// Different misses give the moderators different reasons; only a grant gives none.
pub proof fn law_misses_keep_their_reasons(a: EmailGrant, b: EmailGrant)
    ensures
        review_reason(a) is None <==> a is Verified,
        review_reason(a) == review_reason(b) && !(a is Verified) ==> (a is Conflict <==> b is Conflict)
            && (a is NotFound <==> b is NotFound) && (a is Malformed <==> b is Malformed),
        a is Conflict ==> review_reason(a) == Some(ReviewReason::Conflict),
        a is NotFound ==> review_reason(a) == Some(ReviewReason::NotFound),
        a is Malformed ==> review_reason(a) == Some(ReviewReason::Malformed),
{
}

/// A submission within the limit, in a server that is set up, is looked up under exactly the
/// address typed, blanks at its ends aside; anything else is answered and goes no further.
pub proof fn law_a_submission_is_looked_up_as_typed(
    submission: &Submission,
    allowed: bool,
    roles_configured: bool,
    action: SubmitAction,
)
    requires
        call_ensures(on_submit, (submission, allowed, roles_configured), action),
    ensures
        action is Verify <==> allowed && roles_configured && plausible_email(
            trimmed(submission.email@),
        ),
        (action matches SubmitAction::Verify(email) ==> email@ == trimmed(submission.email@)),
        !allowed ==> (action matches SubmitAction::Reply(s) && s@ == RATE_LIMITED@),
        allowed && !roles_configured ==> (action matches SubmitAction::Reply(s) && s@
            == BACKEND_ERROR@),
        allowed && roles_configured && action is Reply ==> (action matches SubmitAction::Reply(s)
            && s@ == UNIFORM_FAILURE@),
{
}

/// A re-check is about the member and the email of the request it was pressed on, from the
/// press to the answer: the member granted is the one it matched, the role reported and
/// logged is the one granted, and the request resolved is the one pressed.
pub proof fn law_a_recheck_is_about_its_request(
    desk: ReviewDesk,
    member: DiscordUserId,
    message_id: u64,
    email: Seq<char>,
    handle: Seq<char>,
    role: Role,
    record_name: Option<String>,
)
    requires
        plausible_email(trimmed(email)),
    ensures
        ({
            let pressed = reverify_next(
                desk,
                ReverifyPhaseView::Start,
                ReverifyEventView::Pressed {
                    is_moderator: true,
                    roles_configured: true,
                    arg: decimal(member.0 as nat),
                    message_id,
                    email: Some(email),
                },
            );
            let loaded = reverify_next(
                desk,
                pressed.0,
                ReverifyEventView::Loaded(Some(handle)),
            );
            let granted = reverify_next(
                desk,
                loaded.0,
                ReverifyEventView::Matched(Some(EmailGrant::Verified { role, record_name })),
            );
            let name = match role {
                Role::Member => "Member"@,
                Role::DuesExpired => "Dues Expired"@,
                Role::Unverified => "Unverified"@,
            };
            &&& pressed.1 == ReviewActionView::Load(member)
            &&& loaded.1 == ReviewActionView::Match(member, trimmed(email))
            &&& granted.0 == ReverifyPhaseView::Done
            &&& granted.1 matches ReviewActionView::Grant { resolution, log, reply }
            &&& reply == "Verified - granted "@ + name + "."@
            &&& (desk.approval_channel matches Some(channel) ==> (resolution matches Some(edit)
                && edit.channel == channel && edit.message_id == message_id && edit.banner
                == "Approved by re-verify"@ + " by <@"@ + decimal(desk.moderator.0 as nat) + ">."@))
            &&& (desk.approval_channel is None ==> resolution is None)
            &&& (desk.log_channel matches Some(channel) ==> log == Some(
                (
                    channel,
                    manual_log_view(
                        member,
                        handle,
                        desk.moderator,
                        "re-verify"@,
                        role,
                        desk.accent,
                    ),
                ),
            ))
            &&& (desk.log_channel is None ==> log is None)
            &&& reverify_next(desk, pressed.0, ReverifyEventView::Loaded(None)).1
                == ReviewActionView::Deny(MEMBER_UNLOADABLE@)
            &&& reverify_next(desk, loaded.0, ReverifyEventView::Matched(None)).1
                == ReviewActionView::Deny(BACKEND_ERROR@)
            &&& reverify_next(
                desk,
                loaded.0,
                ReverifyEventView::Matched(Some(EmailGrant::Conflict)),
            ).1 == ReviewActionView::Deny(STILL_NO_MATCH@)
            &&& reverify_next(
                desk,
                loaded.0,
                ReverifyEventView::Matched(Some(EmailGrant::NotFound)),
            ).1 == ReviewActionView::Deny(STILL_NO_MATCH@)
            &&& reverify_next(
                desk,
                loaded.0,
                ReverifyEventView::Matched(Some(EmailGrant::Malformed)),
            ).1 == ReviewActionView::Deny(STILL_NO_MATCH@)
        }),
{
    law_number_round_trips(member.0 as nat, u64::MAX as nat);
}

/// A re-check that cannot be made says why: without a readable email it asks for a hand
/// approval, and before the roles are set it reports a failure.
pub proof fn law_a_recheck_needs_an_email_and_roles(
    desk: ReviewDesk,
    member: DiscordUserId,
    message_id: u64,
    email: Option<Seq<char>>,
    roles_configured: bool,
)
    ensures
        ({
            let (next, action) = reverify_next(
                desk,
                ReverifyPhaseView::Start,
                ReverifyEventView::Pressed {
                    is_moderator: true,
                    roles_configured,
                    arg: decimal(member.0 as nat),
                    message_id,
                    email,
                },
            );
            let readable = email matches Some(raw) && plausible_email(trimmed(raw));
            &&& !readable ==> action == ReviewActionView::Deny(EMAIL_UNREADABLE@)
            &&& readable && !roles_configured ==> action == ReviewActionView::Deny(BACKEND_ERROR@)
            &&& !readable || !roles_configured ==> next == ReverifyPhaseView::Done
        }),
{
    law_number_round_trips(member.0 as nat, u64::MAX as nat);
}

/// A written hand approval makes the member a Member, is logged as such in the moderator's
/// name, and heads the request with it; one that was not written grants nothing.
pub proof fn law_a_hand_approval_grants_member(
    desk: ReviewDesk,
    target: DiscordUserId,
    message_id: u64,
    handle: Seq<char>,
    reason: Seq<char>,
)
    ensures
        ({
            let approving = ApprovePhaseView::Approving { target, message_id, handle };
            let loading = ApprovePhaseView::Loading { target, message_id };
            let written = approve_next(desk, approving, ApproveEventView::Written(true));
            &&& written.0 == ApprovePhaseView::Done
            &&& written.1 matches ReviewActionView::Grant { resolution, log, reply }
            &&& reply == OVERRIDE_GRANTED@
            &&& (desk.log_channel matches Some(channel) ==> log == Some(
                (
                    channel,
                    manual_log_view(
                        target,
                        handle,
                        desk.moderator,
                        "manual override"@,
                        Role::Member,
                        desk.accent,
                    ),
                ),
            ))
            &&& (desk.approval_channel matches Some(channel) ==> (resolution matches Some(edit)
                && edit.channel == channel && edit.message_id == message_id && edit.banner
                == "Approved by manual override"@ + " by <@"@ + decimal(desk.moderator.0 as nat)
                + ">."@))
            &&& approve_next(desk, approving, ApproveEventView::Written(false)) == (
                ApprovePhaseView::Done,
                ReviewActionView::Deny(BACKEND_ERROR@),
            )
            &&& approve_next(
                desk,
                loading,
                ApproveEventView::Loaded { handle: Some(handle), reason },
            ) == (
                approving,
                ReviewActionView::Approve(
                    target,
                    if trimmed(reason).len() == 0 {
                        None
                    } else {
                        Some(trimmed(reason))
                    },
                ),
            )
            &&& approve_next(desk, loading, ApproveEventView::Loaded { handle: None, reason }) == (
                ApprovePhaseView::Done,
                ReviewActionView::Deny(MEMBER_UNLOADABLE@),
            )
        }),
{
}

/// A rejected request is headed as rejected, by the moderator who did it, and only a
/// moderator can.
pub proof fn law_a_rejection_is_signed(
    desk: &ReviewDesk,
    is_moderator: bool,
    message_id: u64,
    r: Result<Option<Resolution>, &'static str>,
)
    requires
        call_ensures(review_reject, (desk, is_moderator, message_id), r),
    ensures
        r is Ok <==> is_moderator,
        (r matches Ok(resolution) ==> (resolution is Some <==> desk.approval_channel is Some) && (
        resolution matches Some(edit) ==> desk.approval_channel == Some(edit.channel)
            && edit.message_id == message_id && edit.banner@ == "Rejected"@ + " by <@"@ + decimal(
            desk.moderator.0 as nat,
        ) + ">."@)),
        (r matches Err(s) ==> s@ == MODERATORS_ACT@),
{
}

/// The verdict on a name: with two or more words on record the first name and the last
/// initial must both line up, with one word either is enough, and with none nothing is
/// checked. What lines up is the record's first word with the first word typed, and its last
/// word's first letter with the initial.
pub proof fn law_names_line_up_by_first_and_initial(
    name: Seq<char>,
    first: Seq<char>,
    last_initial: Seq<char>,
)
    ensures
        ({
            let ws = words(name);
            let firsts = words(first);
            let first_ok = folds_equal(
                ws[0],
                if firsts.len() == 0 {
                    Seq::empty()
                } else {
                    firsts[0]
                },
            );
            let initial_ok = initial_agrees(ws[ws.len() - 1], last_initial);
            let verdict = name_verdict_of(Some(name), first, last_initial);
            &&& ws.len() == 0 ==> verdict == NameCheck::Unchecked
            &&& ws.len() == 1 ==> verdict == if first_ok || initial_ok {
                NameCheck::Match
            } else {
                NameCheck::Mismatch
            }
            &&& ws.len() >= 2 ==> verdict == if first_ok && initial_ok {
                NameCheck::Match
            } else {
                NameCheck::Mismatch
            }
        }),
        trimmed(last_initial).len() == 0 ==> forall|t: Seq<char>|
            !(#[trigger] initial_agrees(t, last_initial)),
        name_verdict_of(None, first, last_initial) == NameCheck::Unchecked,
{
}

/// A submission draws on the allowance of the member who sent it, once, and on nobody else's.
pub proof fn law_a_submission_draws_on_the_senders_allowance(
    submission: &Submission,
    limiter: &mut RateLimiter,
    now: Instant,
    roles_configured: bool,
    other: u64,
    r: SubmitAction,
)
    requires
        call_ensures(take_submission, (submission, limiter, now, roles_configured), r),
    ensures
        other != submission.member.0 ==> final(limiter).window(other) == old(limiter).window(other),
        final(limiter).limit() == old(limiter).limit(),
        ({
            let (allowed, window) = spend(
                old(limiter).limit(),
                old(limiter).window(submission.member.0),
                now,
            );
            &&& final(limiter).window(submission.member.0) == Some(window)
            &&& r is Verify <==> allowed && roles_configured && plausible_email(
                trimmed(submission.email@),
            )
            &&& (r matches SubmitAction::Verify(e) ==> e@ == trimmed(submission.email@))
            &&& !allowed ==> (r matches SubmitAction::Reply(s) && s@ == RATE_LIMITED@)
            &&& allowed && !roles_configured ==> (r matches SubmitAction::Reply(s) && s@
                == BACKEND_ERROR@)
        }),
{
}

/// The override button opens its form only for a moderator, and only where the marker it
/// grants is there; the form it opens is that of the member and the request.
pub proof fn law_an_override_is_opened_for_its_member(
    is_moderator: bool,
    target: DiscordUserId,
    override_role_set: bool,
    arg: &str,
    r: OverrideAction,
    handle: Option<&str>,
    message_id: u64,
    form: Modal,
)
    requires
        arg@ == decimal(target.0 as nat),
        call_ensures(review_open_override, (is_moderator, arg, override_role_set), r),
        call_ensures(override_form, (target, handle, message_id), form),
    ensures
        r is Load <==> is_moderator && override_role_set,
        (r matches OverrideAction::Load(m) ==> m == target),
        !is_moderator ==> (r matches OverrideAction::Deny(s) && s@ == MODERATORS_ACT@),
        is_moderator && !override_role_set ==> (r matches OverrideAction::Deny(s) && s@
            == NO_OVERRIDE_ROLE@),
        form@.id == REVIEW_MODAL_ID@ + ":"@ + decimal(target.0 as nat) + ":"@ + decimal(
            message_id as nat,
        ),
        form@ == override_modal_view(
            form@.id,
            if handle is Some {
                handle->0@
            } else {
                "the member"@
            },
        ),
{
    law_number_round_trips(target.0 as nat, u64::MAX as nat);
}

/// Nothing from outside the home server is acted on, and the prompt and its form lead to
/// each other's handlers.
pub proof fn law_presses_from_elsewhere_are_ignored(id: Seq<char>)
    ensures
        component_route(false, id) == ComponentRouteView::Ignore,
        modal_route(false, id) == ModalRouteView::Ignore,
        component_route(true, PROMPT_BUTTON_ID@) == ComponentRouteView::OpenForm,
        modal_route(true, SUBMIT_MODAL_ID@) == ModalRouteView::Submit,
        component_route(true, id) == ComponentRouteView::OpenForm ==> id == PROMPT_BUTTON_ID@,
        modal_route(true, id) == ModalRouteView::Submit ==> id == SUBMIT_MODAL_ID@,
{
}

/// A moderator is one who holds the configured role; with none configured, or an unknown
/// member, nobody is.
pub proof fn law_review_buttons_are_for_the_role(
    role: DiscordRoleId,
    held: &Vec<DiscordRoleId>,
    known: bool,
    unset: bool,
    unknown: bool,
)
    requires
        call_ensures(clicker_is_moderator, (Some(role), Some(held)), known),
        call_ensures(clicker_is_moderator, (None, Some(held)), unset),
        call_ensures(clicker_is_moderator, (Some(role), None), unknown),
    ensures
        known <==> held@.contains(role),
        !unset,
        !unknown,
{
}

/// A typed name is shown as typed: first name, a blank and the initial, either alone where
/// the other is blank, and as not given where both are.
pub proof fn law_a_name_is_shown_as_typed(first: Seq<char>, last_initial: Seq<char>)
    ensures
        trimmed(first).len() == 0 && trimmed(last_initial).len() == 0 ==> shown_name(
            first,
            last_initial,
        ) == NAME_NOT_GIVEN@,
        trimmed(first).len() > 0 && trimmed(last_initial).len() > 0 ==> shown_name(
            first,
            last_initial,
        ) == trimmed(first) + " "@ + trimmed(last_initial),
        trimmed(first).len() > 0 && trimmed(last_initial).len() == 0 ==> shown_name(
            first,
            last_initial,
        ) == trimmed(first),
        trimmed(first).len() == 0 && trimmed(last_initial).len() > 0 ==> shown_name(
            first,
            last_initial,
        ) == trimmed(last_initial),
{
    reveal_strlit(" ");
    assert(" "@ =~= seq![' ']);
    let a = trimmed(first);
    let b = trimmed(last_initial);
    let none = Seq::<char>::empty();
    law_trimming_takes_the_blank_ends(first, ' ');
    law_trimming_takes_the_blank_ends(last_initial, ' ');
    law_trimming_takes_the_blank_ends(a + " "@ + b, ' ');
    if a.len() == 0 && b.len() == 0 {
        assert(a + " "@ + b =~= seq![' '] + none);
        law_trimming_takes_the_blank_ends(none, ' ');
    } else if b.len() == 0 {
        assert(a + " "@ + b =~= a.push(' '));
        law_trimming_takes_the_blank_ends(a, ' ');
    } else if a.len() == 0 {
        assert(a + " "@ + b =~= seq![' '] + b);
        law_trimming_takes_the_blank_ends(b, ' ');
    }
}

/// A field is read back by its label: the first that carries it.
pub proof fn law_a_field_is_read_by_its_label(fields: Seq<FieldView>, label: Seq<char>, i: int)
    requires
        0 <= i < fields.len(),
        fields[i].name == label,
        forall|j: int| 0 <= j < i ==> (#[trigger] fields[j]).name != label,
    ensures
        labelled(fields, label) == Some(fields[i].value),
    decreases i,
{
    if i > 0 {
        let rest = fields.drop_first();
        assert forall|j: int| 0 <= j < i - 1 implies (#[trigger] rest[j]).name != label by {
            assert(rest[j] == fields[j + 1]);
        }
        law_a_field_is_read_by_its_label(rest, label, i - 1);
    }
}

/// Two names are the same but for accents and letter case, or they are not; and an initial is
/// held against the word's first letter in the same way.
pub proof fn law_names_are_compared_letter_by_letter(a: Seq<char>, b: Seq<char>)
    ensures
        folds_equal(a, b) <==> lowercase(plain(a)) == lowercase(plain(b)),
        folds_equal(a, a),
        folds_equal(a, b) ==> folds_equal(b, a),
        a.len() > 0 && trimmed(b).len() > 0 ==> (initial_agrees(a, b) <==> char_lowercase(
            plain_char(a[0]),
        ) == char_lowercase(plain_char(trimmed(b)[0]))),
        a.len() == 0 || trimmed(b).len() == 0 ==> !initial_agrees(a, b),
        words(a).len() > 0 ==> first_word(a) == words(a)[0],
        words(a).len() == 0 ==> first_word(a).len() == 0,
{
}

/// A hand approval begins for a moderator of a server that is set up, about the member and
/// the request its form names; otherwise it ends at once, each time with its own answer. A
/// review action that was answered is over.
pub proof fn law_an_answered_review_is_over(
    desk: ReviewDesk,
    target: DiscordUserId,
    message_id: u64,
    roles_configured: bool,
    rest: Seq<char>,
    phase: ApprovePhaseView,
    event: ApproveEventView,
    re_phase: ReverifyPhaseView,
    re_event: ReverifyEventView,
)
    ensures
        ({
            let named = decimal(target.0 as nat) + ":"@ + decimal(message_id as nat);
            let begun = approve_next(
                desk,
                ApprovePhaseView::Start,
                ApproveEventView::Submitted { is_moderator: true, rest: named, roles_configured },
            );
            &&& roles_configured ==> begun == (
                ApprovePhaseView::Loading { target, message_id },
                ReviewActionView::Load(target),
            )
            &&& !roles_configured ==> begun == (
                ApprovePhaseView::Done,
                ReviewActionView::Deny(BACKEND_ERROR@),
            )
        }),
        override_target(rest) is None ==> approve_next(
            desk,
            ApprovePhaseView::Start,
            ApproveEventView::Submitted { is_moderator: true, rest, roles_configured },
        ) == (ApprovePhaseView::Done, ReviewActionView::Stop),
        approve_next(desk, phase, event).1 is Deny || approve_next(desk, phase, event).1 is Grant
            ==> approve_next(desk, phase, event).0 == ApprovePhaseView::Done,
        reverify_next(desk, re_phase, re_event).1 is Deny || reverify_next(
            desk,
            re_phase,
            re_event,
        ).1 is Grant ==> reverify_next(desk, re_phase, re_event).0 == ReverifyPhaseView::Done,
        approve_next(desk, ApprovePhaseView::Done, event) == (
            ApprovePhaseView::Done,
            ReviewActionView::Stop,
        ),
        reverify_next(desk, ReverifyPhaseView::Done, re_event) == (
            ReverifyPhaseView::Done,
            ReviewActionView::Stop,
        ),
{
    law_override_form_round_trips(target, message_id);
}

} // verus!
