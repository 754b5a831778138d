//! The membership card and the card of a hand-approved member.

use vstd::prelude::*;

use crate::dates::Date;
use crate::migs_status::MigsStatus;
use crate::render::colours::{COLOR_AMBER, COLOR_GREEN, COLOR_RED};
use crate::store::{MemberRecord, OverrideRecord};
use crate::text::number;
use crate::ui::Embed;

#[allow(unused_imports)]
use crate::store::standing_role;
#[allow(unused_imports)]
use crate::text::decimal;
#[allow(unused_imports)]
use crate::ui::{opt_str_view, opt_view, EmbedView};

verus! {

/// How many days before expiry a card turns amber.
pub const SOON_DAYS: i64 = 30;

/// The days left, where they are few enough to warn about: today up to the reminder window.
pub open spec fn days_left(expires: Option<Date>, today: Date) -> Option<int> {
    match expires {
        Some(x) if 0 <= x.day() - today.day() <= SOON_DAYS => Some(x.day() - today.day()),
        _ => None,
    }
}

/// The status line. Standing is authoritative: a past expiry does not turn a member in good
/// standing into an expired one, and a near one only adds a heads-up.
pub open spec fn status_words(standing: Option<MigsStatus>, left: Option<int>) -> Seq<char> {
    match standing {
        Some(MigsStatus::MemberInGoodStanding) => match left {
            None => "\u{2705} Member in Good Standing"@,
            Some(n) => if n == 0 {
                "\u{23f3} Member in Good Standing - expires today"@
            } else if n == 1 {
                "\u{23f3} Member in Good Standing - expires in 1 day"@
            } else {
                "\u{23f3} Member in Good Standing - expires in "@ + decimal(n as nat) + " days"@
            },
        },
        Some(MigsStatus::Lapsed) => "\u{26a0}\u{fe0f} Lapsed"@,
        None => "\u{2754} Status unknown"@,
    }
}

/// The card's accent, in step with the status line.
pub open spec fn card_accent(standing: Option<MigsStatus>, left: Option<int>) -> u32 {
    match standing {
        Some(MigsStatus::MemberInGoodStanding) => if left is Some {
            COLOR_AMBER
        } else {
            COLOR_GREEN
        },
        _ => COLOR_RED,
    }
}

fn soon(expires: Option<Date>, today: Date) -> (r: Option<u64>)
    ensures
        (match r {
            Some(n) => days_left(expires, today) == Some(n as int),
            None => days_left(expires, today) is None,
        }),
{
    match expires {
        None => None,
        Some(x) => {
            let n: i64 = today.days_until(x);
            if 0 <= n && n <= SOON_DAYS {
                Some(n as u64)
            } else {
                None
            }
        },
    }
}

/// The status line of a record.
pub fn status_line(rec: &MemberRecord, today: Date) -> (r: String)
    ensures
        r@ == status_words(rec.standing, days_left(rec.expires, today)),
{
    match rec.standing {
        Some(MigsStatus::MemberInGoodStanding) => match soon(rec.expires, today) {
            None => "\u{2705} Member in Good Standing".to_owned(),
            Some(n) => {
                if n == 0 {
                    "\u{23f3} Member in Good Standing - expires today".to_owned()
                } else if n == 1 {
                    "\u{23f3} Member in Good Standing - expires in 1 day".to_owned()
                } else {
                    "\u{23f3} Member in Good Standing - expires in ".to_owned().concat(
                        number(n).as_str(),
                    ).concat(" days")
                }
            },
        },
        Some(MigsStatus::Lapsed) => "\u{26a0}\u{fe0f} Lapsed".to_owned(),
        None => "\u{2754} Status unknown".to_owned(),
    }
}

/// The accent of a record's card.
pub fn card_color(rec: &MemberRecord, today: Date) -> (r: u32)
    ensures
        r == card_accent(rec.standing, days_left(rec.expires, today)),
{
    match rec.standing {
        Some(MigsStatus::MemberInGoodStanding) => match soon(rec.expires, today) {
            Some(_) => COLOR_AMBER,
            None => COLOR_GREEN,
        },
        _ => COLOR_RED,
    }
}

/// A field that is there only with a value.
pub open spec fn optional_field(
    e: EmbedView,
    name: Seq<char>,
    value: Option<Seq<char>>,
    inline: bool,
) -> EmbedView {
    match value {
        Some(v) => e.field(name, v, inline),
        None => e,
    }
}

/// The title: the display name, and the pronouns where they are known.
pub open spec fn card_title(display_name: Seq<char>, pronouns: Option<Seq<char>>) -> Seq<char> {
    match pronouns {
        Some(p) => display_name + " \u{b7} "@ + p,
        None => display_name,
    }
}

/// The membership card, with its dates already written out.
pub open spec fn card_view(
    rec: MemberRecord,
    display_name: Seq<char>,
    pronouns: Option<Seq<char>>,
    today: Date,
    join_date: Option<Seq<char>>,
    expires: Option<Seq<char>>,
) -> EmbedView {
    let left = days_left(rec.expires, today);
    let head = EmbedView::empty().title(card_title(display_name, pronouns)).colour(
        card_accent(rec.standing, left),
    ).description(status_words(rec.standing, left));
    let named = optional_field(head, "Name"@, opt_view(rec.full_name), false).field(
        "Role"@,
        standing_role(rec.standing).words(),
        false,
    );
    let dated = optional_field(
        optional_field(named, "Join Date"@, join_date, true),
        "Expires"@,
        expires,
        true,
    );
    dated.field("Email"@, rec.email@, false).footer("Pulled from Solidarity Tech \u{b7} PDX DSA"@)
}

/// A date on a card, where there is one.
pub open spec fn card_date(date: Option<Date>) -> Option<Seq<char>> {
    match date {
        Some(d) => Some(d.words()),
        None => None,
    }
}

fn with_field(e: Embed, name: &str, value: &Option<String>, inline: bool) -> (r: Embed)
    ensures
        r@ == optional_field(e@, name@, opt_view(*value), inline),
{
    match value {
        Some(v) => e.field(name, v.clone(), inline),
        None => e,
    }
}

/// Build the membership card from dates already written out.
pub fn card_with_dates(
    rec: &MemberRecord,
    display_name: &str,
    pronouns: Option<&str>,
    today: Date,
    join_date: &Option<String>,
    expires: &Option<String>,
) -> (r: Embed)
    ensures
        r@ == card_view(
            *rec,
            display_name@,
            opt_str_view(pronouns),
            today,
            opt_view(*join_date),
            opt_view(*expires),
        ),
{
    let title = match pronouns {
        Some(p) => display_name.to_owned().concat(" \u{b7} ").concat(p),
        None => display_name.to_owned(),
    };
    let head = Embed::new().title(title).colour(card_color(rec, today)).description(
        status_line(rec, today),
    );
    let named = with_field(head, "Name", &rec.full_name, false).field(
        "Role",
        rec.role().as_str().to_owned(),
        false,
    );
    let dated = with_field(
        with_field(named, "Join Date", join_date, true),
        "Expires",
        expires,
        true,
    );
    dated.field("Email", rec.email.as_str().to_owned(), false).footer(
        "Pulled from Solidarity Tech \u{b7} PDX DSA".to_owned(),
    )
}

fn date_text(date: Option<Date>) -> (r: Option<String>)
    ensures
        opt_view(r) == card_date(date),
{
    match date {
        Some(d) => Some(d.card_text()),
        None => None,
    }
}

/// Build a member's card. The pronouns join the title only when present.
pub fn membership_card(
    rec: &MemberRecord,
    display_name: &str,
    pronouns: Option<&str>,
    today: Date,
) -> (r: Embed)
    ensures
        r@ == card_view(
            *rec,
            display_name@,
            opt_str_view(pronouns),
            today,
            card_date(rec.join_date),
            card_date(rec.expires),
        ),
{
    let join_date = date_text(rec.join_date);
    let expires = date_text(rec.expires);
    card_with_dates(rec, display_name, pronouns, today, &join_date, &expires)
}

/// A card is red exactly when the role it shows is not Member: the colour never contradicts
/// the role.
pub proof fn law_colour_agrees_with_role(standing: Option<MigsStatus>, left: Option<int>)
    ensures
        card_accent(standing, left) == COLOR_RED <==> standing_role(standing)
            != crate::role::Role::Member,
{
}

pub const MANUALLY_VERIFIED: &'static str = "\u{26a0}\u{fe0f} \u{2611}\u{fe0f} Manually Verified as Member";

/// The card of a hand-approved member, with its date already written out. The note is drawn
/// only where asked for, and only when there is something in it.
pub open spec fn override_view(
    display_name: Seq<char>,
    stamp: OverrideRecord,
    approve_date: Seq<char>,
    show_note: bool,
) -> EmbedView {
    let head = EmbedView::empty().title(display_name).colour(COLOR_GREEN).description(
        MANUALLY_VERIFIED@,
    ).field("Role"@, "Member; Manual Verify"@, false);
    let noted = match stamp.note {
        Some(note) if show_note && note@.len() > 0 => head.field("Reason"@, note@, false),
        _ => head,
    };
    noted.field("Approve Date"@, approve_date, true).field(
        "Approving Mod"@,
        "<@"@ + decimal(stamp.approved_by.0 as nat) + ">"@,
        true,
    ).footer("Manually verified by a moderator \u{b7} PDX DSA"@)
}

/// Build the card of a hand-approved member from a date already written out.
pub fn override_with_date(
    display_name: &str,
    stamp: &OverrideRecord,
    approve_date: &str,
    show_note: bool,
) -> (r: Embed)
    ensures
        r@ == override_view(display_name@, *stamp, approve_date@, show_note),
{
    let head = Embed::new().title(display_name.to_owned()).colour(COLOR_GREEN).description(
        MANUALLY_VERIFIED.to_owned(),
    ).field("Role", "Member; Manual Verify".to_owned(), false);
    let noted = match &stamp.note {
        Some(note) => {
            if show_note && !note.as_str().is_empty() {
                head.field("Reason", note.clone(), false)
            } else {
                head
            }
        },
        None => head,
    };
    noted.field("Approve Date", approve_date.to_owned(), true).field(
        "Approving Mod",
        "<@".to_owned().concat(number(stamp.approved_by.0).as_str()).concat(">"),
        true,
    ).footer("Manually verified by a moderator \u{b7} PDX DSA".to_owned())
}

/// Build the card of a hand-approved member. The moderator's note shows only on a
/// moderator-facing view, never on the member's own card.
pub fn override_card(display_name: &str, stamp: &OverrideRecord, show_note: bool) -> (r: Embed)
    ensures
        r@ == override_view(
            display_name@,
            *stamp,
            stamp.approved_on.words(),
            show_note,
        ),
{
    let approve_date = stamp.approved_on.card_text();
    override_with_date(display_name, stamp, approve_date.as_str(), show_note)
}

/// The member's own card shows the same whatever note the moderator left.
pub proof fn law_own_card_hides_the_note(
    display_name: Seq<char>,
    stamp: OverrideRecord,
    other: OverrideRecord,
    date: Seq<char>,
)
    requires
        stamp.approved_by == other.approved_by,
    ensures
        override_view(display_name, stamp, date, false) == override_view(
            display_name,
            other,
            date,
            false,
        ),
{
}

/// What a card shows of a record: the name it is for, the pronouns where known, the role the
/// standing earns, the email, and the dates and full name where there are any.
pub proof fn law_a_card_shows_the_record(
    rec: MemberRecord,
    display_name: Seq<char>,
    pronouns: Option<Seq<char>>,
    today: Date,
    join_date: Option<Seq<char>>,
    expires: Option<Seq<char>>,
)
    ensures
        ({
            let card = card_view(rec, display_name, pronouns, today, join_date, expires);
            let at: int = if rec.full_name is Some {
                1
            } else {
                0
            };
            let dates: int = (if join_date is Some {
                1int
            } else {
                0int
            }) + if expires is Some {
                1int
            } else {
                0int
            };
            &&& card.title == Some(
                match pronouns {
                    Some(p) => display_name + " \u{b7} "@ + p,
                    None => display_name,
                },
            )
            &&& card.description == Some(
                status_words(rec.standing, days_left(rec.expires, today)),
            )
            &&& card.colour == Some(card_accent(rec.standing, days_left(rec.expires, today)))
            &&& card.fields.len() == at + dates + 2
            &&& (rec.full_name matches Some(n) ==> card.fields[0].name == "Name"@
                && card.fields[0].value == n@)
            &&& card.fields[at].name == "Role"@ && card.fields[at].value == (match rec.standing {
                Some(MigsStatus::MemberInGoodStanding) => "Member"@,
                Some(MigsStatus::Lapsed) => "Dues Expired"@,
                None => "Unverified"@,
            })
            &&& (join_date matches Some(d) ==> card.fields[at + 1].name == "Join Date"@
                && card.fields[at + 1].value == d)
            &&& (expires matches Some(d) ==> card.fields[at + dates].name == "Expires"@
                && card.fields[at + dates].value == d)
            &&& card.fields.last().name == "Email"@ && card.fields.last().value == rec.email@
            &&& !card.fields.last().inline && !card.fields[at].inline
            &&& (rec.full_name is Some ==> !card.fields[0].inline)
            &&& (join_date is Some ==> card.fields[at + 1].inline)
            &&& (expires is Some ==> card.fields[at + dates].inline)
            &&& card.footer == Some("Pulled from Solidarity Tech \u{b7} PDX DSA"@)
        }),
{
}

/// The status line follows the standing, and warns only a member in good standing, by the
/// days that are left.
pub proof fn law_the_status_follows_the_standing(
    standing: Option<MigsStatus>,
    expires: Option<Date>,
    today: Date,
)
    ensures
        ({
            let left = days_left(expires, today);
            let near = expires matches Some(x) && today.day() <= x.day() <= today.day() + 30;
            &&& left is Some <==> near
            &&& (left matches Some(n) ==> n == expires->0.day() - today.day())
            &&& standing == Some(MigsStatus::Lapsed) ==> status_words(standing, left)
                == "\u{26a0}\u{fe0f} Lapsed"@ && card_accent(standing, left) == COLOR_RED
            &&& standing is None ==> status_words(standing, left) == "\u{2754} Status unknown"@
                && card_accent(standing, left) == COLOR_RED
            &&& standing == Some(MigsStatus::MemberInGoodStanding) && !near ==> status_words(
                standing,
                left,
            ) == "\u{2705} Member in Good Standing"@ && card_accent(standing, left) == COLOR_GREEN
            &&& standing == Some(MigsStatus::MemberInGoodStanding) && near ==> card_accent(
                standing,
                left,
            ) == COLOR_AMBER && status_words(standing, left) == if left == Some(0int) {
                "\u{23f3} Member in Good Standing - expires today"@
            } else if left == Some(1int) {
                "\u{23f3} Member in Good Standing - expires in 1 day"@
            } else {
                "\u{23f3} Member in Good Standing - expires in "@ + decimal(left->0 as nat)
                    + " days"@
            }
        }),
{
}

/// The card of a hand approval is under the member's name, names the moderator and the day,
/// and gives the note exactly where it is asked for and there is one.
pub proof fn law_an_approval_card_names_the_moderator(
    display_name: Seq<char>,
    stamp: OverrideRecord,
    approve_date: Seq<char>,
    show_note: bool,
)
    ensures
        ({
            let card = override_view(display_name, stamp, approve_date, show_note);
            let noted = show_note && (stamp.note matches Some(n) && n@.len() > 0);
            let at: int = if noted {
                2
            } else {
                1
            };
            &&& card.title == Some(display_name)
            &&& card.colour == Some(COLOR_GREEN)
            &&& card.description == Some(MANUALLY_VERIFIED@)
            &&& card.fields.len() == at + 2
            &&& card.fields[0].name == "Role"@ && card.fields[0].value == "Member; Manual Verify"@
            &&& noted ==> card.fields[1].name == "Reason"@ && card.fields[1].value
                == stamp.note->0@
            &&& card.fields[at].name == "Approve Date"@ && card.fields[at].value == approve_date
            &&& card.fields[at + 1].name == "Approving Mod"@ && card.fields[at + 1].value
                == "<@"@ + decimal(stamp.approved_by.0 as nat) + ">"@
        }),
{
}

} // verus!
