//! The dues-reminder messages: the deadline line, the embed, the renew/help/snooze/opt-out
//! buttons, and the built-in bodies a moderator can override.

use vstd::prelude::*;

use crate::ids::DiscordUserId;
use crate::store::{Milestone, ReminderTemplateKind};
use crate::text::{number, starts_ignoring_case, trim};
use crate::ui::{Button, Embed, Row, Style};

#[allow(unused_imports)]
use crate::text::{begins_ignoring_case, decimal, trimmed};
#[allow(unused_imports)]
use crate::ui::{button_views, opt_str_view, ButtonView, EmbedView, RowView};

verus! {

pub const DUES_SNOOZE_ID: &'static str = "dues_snooze";

pub const DUES_OPTOUT_ID: &'static str = "dues_optout";

pub const DUES_HELP_ID: &'static str = "dues_help";

/// A link with an http or https scheme, surrounding whitespace and letter case aside.
pub open spec fn is_web_link(url: Seq<char>) -> bool {
    begins_ignoring_case(trimmed(url), "http://"@) || begins_ignoring_case(
        trimmed(url),
        "https://"@,
    )
}

/// Whether a stored sign-up URL is a usable web link. A link button without an http(s)
/// scheme fails the whole message send. A lenient scheme check, not full validation.
pub fn is_http_signup_url(url: &str) -> (r: bool)
    ensures
        r == is_web_link(url@),
{
    let t = trim(url);
    starts_ignoring_case(t, "http://") || starts_ignoring_case(t, "https://")
}

pub const MONTHLY_BODY: &'static str = "Your monthly dues are coming up for renewal. Keeping them current keeps your access and supports the chapter.";

pub const YEARLY_BODY: &'static str = "Your yearly membership is up for renewal soon. Renew to keep your standing and access.";

pub const ONE_TIME_BODY: &'static str = "Your membership is set to lapse soon. Renew to keep your access.";

pub const INCOME_BASED_BODY: &'static str = "Your income-based membership is up for renewal soon. Renew to keep your standing and access.";

pub const EXPIRED_BODY: &'static str = "Your membership has lapsed, so your access has been limited. Renew any time to restore it - and use the button below if you need a hand.";

/// The built-in body of a template.
pub open spec fn template_words(kind: ReminderTemplateKind) -> Seq<char> {
    match kind {
        ReminderTemplateKind::Monthly => MONTHLY_BODY@,
        ReminderTemplateKind::Yearly => YEARLY_BODY@,
        ReminderTemplateKind::OneTime => ONE_TIME_BODY@,
        ReminderTemplateKind::IncomeBased => INCOME_BASED_BODY@,
        ReminderTemplateKind::Expired => EXPIRED_BODY@,
    }
}

/// The built-in body for a template kind, used when a moderator has not set one.
pub fn default_template(kind: ReminderTemplateKind) -> (r: &'static str)
    ensures
        r@ == template_words(kind),
{
    match kind {
        ReminderTemplateKind::Monthly => MONTHLY_BODY,
        ReminderTemplateKind::Yearly => YEARLY_BODY,
        ReminderTemplateKind::OneTime => ONE_TIME_BODY,
        ReminderTemplateKind::IncomeBased => INCOME_BASED_BODY,
        ReminderTemplateKind::Expired => EXPIRED_BODY,
    }
}

/// The urgency line for the true remaining days.
pub open spec fn deadline_words(days_until: int) -> Seq<char> {
    if days_until < 0 {
        "Your membership has lapsed."@
    } else if days_until == 0 {
        "Your membership lapses today."@
    } else if days_until == 1 {
        "Your membership lapses tomorrow."@
    } else {
        "Your membership lapses in "@ + decimal(days_until as nat) + " days."@
    }
}

/// The urgency line, from the true remaining days.
pub fn deadline_line(days_until: i64) -> (r: String)
    ensures
        r@ == deadline_words(days_until as int),
{
    if days_until < 0 {
        "Your membership has lapsed.".to_owned()
    } else if days_until == 0 {
        "Your membership lapses today.".to_owned()
    } else if days_until == 1 {
        "Your membership lapses tomorrow.".to_owned()
    } else {
        "Your membership lapses in ".to_owned().concat(number(days_until as u64).as_str()).concat(
            " days.",
        )
    }
}

/// The card of one reminder.
pub open spec fn reminder_view(body: Seq<char>, days_until: int, accent: u32) -> EmbedView {
    EmbedView::empty().title("Dues renewal"@).description(
        deadline_words(days_until) + "\n\n"@ + body,
    ).colour(accent)
}

/// Build the embed for one reminder milestone.
pub fn reminder_embed(body: &str, days_until: i64, accent: u32) -> (r: Embed)
    ensures
        r@ == reminder_view(body@, days_until as int, accent),
{
    Embed::new().title("Dues renewal".to_owned()).description(
        deadline_line(days_until).concat("\n\n").concat(body),
    ).colour(accent)
}

/// A button addressed to one member.
pub open spec fn member_button(
    kind: Seq<char>,
    member: DiscordUserId,
    label: Seq<char>,
    style: Style,
    disabled: bool,
) -> ButtonView {
    ButtonView::Press { id: kind + ":"@ + decimal(member.0 as nat), label, style, disabled }
}

fn button_for(kind: &str, member: DiscordUserId, label: &str, style: Style, disabled: bool) -> (r:
    Button)
    ensures
        r@ == member_button(kind@, member, label@, style, disabled),
{
    Button::Press {
        id: kind.to_owned().concat(":").concat(number(member.0).as_str()),
        label: label.to_owned(),
        style,
        disabled,
    }
}

/// The buttons of one reminder: Renew where the stored URL is usable, help always, and
/// snooze and opt-out until the membership has lapsed.
pub open spec fn reminder_button_views(
    milestone: Milestone,
    signup_url: Option<Seq<char>>,
    member: DiscordUserId,
    disabled: bool,
) -> Seq<ButtonView> {
    let renew = match signup_url {
        Some(url) if is_web_link(url) => seq![ButtonView::Link { url, label: "Renew"@ }],
        _ => seq![],
    };
    let help = seq![
        member_button(DUES_HELP_ID@, member, "Ask an admin for help"@, Style::Secondary, disabled),
    ];
    let quiet = if milestone == Milestone::Expired {
        seq![]
    } else {
        seq![
            member_button(DUES_SNOOZE_ID@, member, "Not this cycle"@, Style::Secondary, disabled),
            member_button(DUES_OPTOUT_ID@, member, "Stop dues reminders"@, Style::Danger, disabled),
        ]
    };
    renew + help + quiet
}

/// Build the button row for one reminder milestone.
///
/// `disabled` greys out the interactive buttons so a preview can show the layout without
/// their handlers firing. A stored URL that is no web link degrades to a missing button
/// rather than a failed send.
pub fn reminder_buttons(
    milestone: Milestone,
    signup_url: Option<&str>,
    member: DiscordUserId,
    disabled: bool,
) -> (r: Vec<Button>)
    ensures
        button_views(r@) == reminder_button_views(
            milestone,
            opt_str_view(signup_url),
            member,
            disabled,
        ),
{
    let mut buttons: Vec<Button> = Vec::new();
    if let Some(url) = signup_url {
        if is_http_signup_url(url) {
            buttons.push(Button::Link { url: url.to_owned(), label: "Renew".to_owned() });
        }
    }
    buttons.push(
        button_for(DUES_HELP_ID, member, "Ask an admin for help", Style::Secondary, disabled),
    );
    if !matches!(milestone, Milestone::Expired) {
        buttons.push(
            button_for(DUES_SNOOZE_ID, member, "Not this cycle", Style::Secondary, disabled),
        );
        buttons.push(
            button_for(DUES_OPTOUT_ID, member, "Stop dues reminders", Style::Danger, disabled),
        );
    }
    assert(button_views(buttons@) =~= reminder_button_views(
        milestone,
        opt_str_view(signup_url),
        member,
        disabled,
    ));
    buttons
}

/// A message to post: its line of text, card and controls.
#[derive(Debug, Clone, PartialEq, Eq)]
pub struct Post {
    pub content: String,
    pub embed: Embed,
    pub row: Row,
}

/// The thread message for one milestone: it mentions the member, shows the card, and
/// carries live buttons.
pub fn reminder_message(
    body: &str,
    days_until: i64,
    milestone: Milestone,
    signup_url: Option<&str>,
    member: DiscordUserId,
    accent: u32,
) -> (r: Post)
    ensures
        r.content@ == "<@"@ + decimal(member.0 as nat) + ">"@,
        r.embed@ == reminder_view(body@, days_until as int, accent),
        r.row@ == RowView::Buttons(
            reminder_button_views(milestone, opt_str_view(signup_url), member, false),
        ),
{
    Post {
        content: "<@".to_owned().concat(number(member.0).as_str()).concat(">"),
        embed: reminder_embed(body, days_until, accent),
        row: Row::Buttons(reminder_buttons(milestone, signup_url, member, false)),
    }
}

/// A link button is only ever made of a usable web link, and a lapsed member is offered
/// neither snooze nor opt-out.
pub proof fn law_reminder_buttons_are_safe(
    milestone: Milestone,
    signup_url: Option<Seq<char>>,
    member: DiscordUserId,
    disabled: bool,
)
    ensures
        forall|i: int|
            #![trigger reminder_button_views(milestone, signup_url, member, disabled)[i]]
            0 <= i < reminder_button_views(milestone, signup_url, member, disabled).len() ==> (
            reminder_button_views(
                milestone,
                signup_url,
                member,
                disabled,
            )[i] matches ButtonView::Link { url, label } ==> is_web_link(url)),
        milestone == Milestone::Expired ==> reminder_button_views(
            milestone,
            signup_url,
            member,
            disabled,
        ).last() == member_button(
            DUES_HELP_ID@,
            member,
            "Ask an admin for help"@,
            Style::Secondary,
            disabled,
        ),
{
}

/// Different templates have different built-in words.
pub proof fn law_built_in_texts_differ(a: ReminderTemplateKind, b: ReminderTemplateKind)
    requires
        a != b,
    ensures
        template_words(a) != template_words(b),
{
    reveal_strlit(
        "Your monthly dues are coming up for renewal. Keeping them current keeps your access and supports the chapter.",
    );
    reveal_strlit(
        "Your yearly membership is up for renewal soon. Renew to keep your standing and access.",
    );
    reveal_strlit("Your membership is set to lapse soon. Renew to keep your access.");
    reveal_strlit(
        "Your income-based membership is up for renewal soon. Renew to keep your standing and access.",
    );
    reveal_strlit(
        "Your membership has lapsed, so your access has been limited. Renew any time to restore it - and use the button below if you need a hand.",
    );
    assert(MONTHLY_BODY@[6] == 'o' && YEARLY_BODY@[6] == 'e' && INCOME_BASED_BODY@[6] == 'n');
    assert(ONE_TIME_BODY@[5] == 'm' && EXPIRED_BODY@[5] == 'm' && MONTHLY_BODY@[5] == 'm');
    assert(ONE_TIME_BODY@[6] == 'e' && EXPIRED_BODY@[6] == 'e');
    assert(ONE_TIME_BODY@[5] != YEARLY_BODY@[5]);
    assert(ONE_TIME_BODY@[16] == 'i' && EXPIRED_BODY@[16] == 'h');
}

/// The deadline is told from the days left: lapsed, today, tomorrow, or in so many days.
pub proof fn law_the_deadline_follows_the_days(days: int)
    ensures
        days < 0 ==> deadline_words(days) == "Your membership has lapsed."@,
        deadline_words(0) == "Your membership lapses today."@,
        deadline_words(1) == "Your membership lapses tomorrow."@,
        days > 1 ==> deadline_words(days) == "Your membership lapses in "@ + decimal(days as nat)
            + " days."@,
{
}

/// A reminder's card is the deadline over the body, under one title and in the accent given.
pub proof fn law_a_reminder_card_is_deadline_and_body(body: Seq<char>, days: int, accent: u32)
    ensures
        reminder_view(body, days, accent).title == Some("Dues renewal"@),
        reminder_view(body, days, accent).description == Some(
            deadline_words(days) + "\n\n"@ + body,
        ),
        reminder_view(body, days, accent).colour == Some(accent),
        reminder_view(body, days, accent).fields.len() == 0,
{
}

/// The first button leads to the sign-up page where there is a usable link; a member who has
/// not lapsed is offered help, snooze and opt-out, in this order, all addressed to them and
/// live unless the row is a preview.
pub proof fn law_reminder_buttons_in_full(
    milestone: Milestone,
    signup_url: Option<Seq<char>>,
    member: DiscordUserId,
    disabled: bool,
)
    ensures
        ({
            let row = reminder_button_views(milestone, signup_url, member, disabled);
            let linked = signup_url matches Some(url) && is_web_link(url);
            let at: int = if linked {
                1
            } else {
                0
            };
            &&& row.len() == at + if milestone == Milestone::Expired {
                1int
            } else {
                3int
            }
            &&& linked ==> row[0] == (ButtonView::Link { url: signup_url->0, label: "Renew"@ })
            &&& (row[at] matches ButtonView::Press { id, label, style, disabled: off } && id
                == DUES_HELP_ID@ + ":"@ + decimal(member.0 as nat) && label
                == "Ask an admin for help"@ && style == Style::Secondary && off == disabled)
            &&& milestone != Milestone::Expired ==> (row[at + 1] matches ButtonView::Press {
                id,
                label,
                style,
                disabled: off,
            } && id == DUES_SNOOZE_ID@ + ":"@ + decimal(member.0 as nat) && label
                == "Not this cycle"@ && style == Style::Secondary && off == disabled)
            &&& milestone != Milestone::Expired ==> (row[at + 2] matches ButtonView::Press {
                id,
                label,
                style,
                disabled: off,
            } && id == DUES_OPTOUT_ID@ + ":"@ + decimal(member.0 as nat) && label
                == "Stop dues reminders"@ && style == Style::Danger && off == disabled)
        }),
{
}

/// A link is usable exactly when it begins, blanks and letter case aside, with `http://` or
/// `https://`; blanks around it change nothing.
pub proof fn law_only_web_links_are_usable(url: Seq<char>)
    ensures
        is_web_link(url) <==> begins_ignoring_case(trimmed(url), "http://"@)
            || begins_ignoring_case(trimmed(url), "https://"@),
{
}

} // verus!
