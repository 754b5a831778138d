//! `/membership-card` (the invoker's own), the "Membership Card" menu and `/lookup`: what
//! each outcome is answered with, always privately.

use vstd::prelude::*;

use crate::commands::replies::{BACKEND_FAILURE, MODERATORS_ONLY};
use crate::dates::Date;
use crate::lookup::LookupOutcome;
use crate::render::card::{membership_card, override_card};
use crate::store::MemberRecord;
use crate::ui::Embed;

#[allow(unused_imports)]
use crate::render::card::{card_date, card_view, override_view};
#[allow(unused_imports)]
use crate::ui::EmbedView;

verus! {

pub const NO_OWN_RECORD: &'static str = "I couldn't find a membership record for you. If you think this is wrong, ask a moderator.";

pub const NO_SUCH_RECORD: &'static str = "No membership record found for that member.";

pub const TOO_QUICK: &'static str = "You're looking up members too quickly - give it a moment.";

/// A private answer.
#[derive(Debug, Clone, PartialEq, Eq)]
pub enum CardReply {
    Card(Embed),
    Text(String),
}

/// What a private answer shows.
pub enum CardReplyView {
    Card(EmbedView),
    Text(Seq<char>),
}

impl View for CardReply {
    type V = CardReplyView;

    open spec fn view(&self) -> CardReplyView {
        match self {
            CardReply::Card(e) => CardReplyView::Card(e@),
            CardReply::Text(s) => CardReplyView::Text(s@),
        }
    }
}

/// The card of a record, with no pronouns known.
pub open spec fn plain_card(rec: MemberRecord, name: Seq<char>, today: Date) -> EmbedView {
    card_view(rec, name, None, today, card_date(rec.join_date), card_date(rec.expires))
}

/// What a lookup's outcome is answered with.
pub open spec fn outcome_reply(
    outcome: LookupOutcome,
    target_name: Seq<char>,
    today: Date,
) -> CardReplyView {
    match outcome {
        LookupOutcome::Card(rec) | LookupOutcome::SelfCard(Some(rec)) => CardReplyView::Card(
            plain_card(rec, target_name, today),
        ),
        LookupOutcome::OverrideCard(stamp) => CardReplyView::Card(
            override_view(target_name, stamp, stamp.approved_on.words(), true),
        ),
        LookupOutcome::SelfOverride(stamp) => CardReplyView::Card(
            override_view(target_name, stamp, stamp.approved_on.words(), false),
        ),
        LookupOutcome::SelfCard(None) => CardReplyView::Text(NO_OWN_RECORD@),
        LookupOutcome::NotFound => CardReplyView::Text(NO_SUCH_RECORD@),
        LookupOutcome::NotModerator => CardReplyView::Text(MODERATORS_ONLY@),
        LookupOutcome::RateLimited => CardReplyView::Text(TOO_QUICK@),
        LookupOutcome::StoreError(_) => CardReplyView::Text(BACKEND_FAILURE@),
    }
}

fn text(s: &str) -> (r: CardReply)
    ensures
        r@ == CardReplyView::Text(s@),
{
    CardReply::Text(s.to_owned())
}

/// Turn a lookup's outcome into the answer the member or moderator sees. A moderator sees
/// the note of a hand approval; the member themselves does not.
pub fn render_outcome(outcome: &LookupOutcome, target_name: &str, today: Date) -> (r: CardReply)
    ensures
        r@ == outcome_reply(*outcome, target_name@, today),
{
    match outcome {
        LookupOutcome::Card(rec) => CardReply::Card(membership_card(rec, target_name, None, today)),
        LookupOutcome::SelfCard(Some(rec)) => CardReply::Card(
            membership_card(rec, target_name, None, today),
        ),
        LookupOutcome::OverrideCard(stamp) => CardReply::Card(
            override_card(target_name, stamp, true),
        ),
        LookupOutcome::SelfOverride(stamp) => CardReply::Card(
            override_card(target_name, stamp, false),
        ),
        LookupOutcome::SelfCard(None) => text(NO_OWN_RECORD),
        LookupOutcome::NotFound => text(NO_SUCH_RECORD),
        LookupOutcome::NotModerator => text(MODERATORS_ONLY),
        LookupOutcome::RateLimited => text(TOO_QUICK),
        LookupOutcome::StoreError(_) => text(BACKEND_FAILURE),
    }
}

/// What reading the invoker's own record gave.
#[derive(Debug, Clone, PartialEq, Eq)]
pub enum OwnRecord {
    Found(MemberRecord),
    NoRecord,
    StoreFailed,
}

/// Show the invoker's own card under their display name in the guild, or their account name
/// where that is unknown.
pub fn show_card(
    own: &OwnRecord,
    display_name: Option<&str>,
    user_name: &str,
    today: Date,
) -> (r: CardReply)
    ensures
        r@ == (match *own {
            OwnRecord::Found(rec) => CardReplyView::Card(
                plain_card(
                    rec,
                    match display_name {
                        Some(n) => n@,
                        None => user_name@,
                    },
                    today,
                ),
            ),
            OwnRecord::NoRecord => CardReplyView::Text(NO_OWN_RECORD@),
            OwnRecord::StoreFailed => CardReplyView::Text(BACKEND_FAILURE@),
        }),
{
    match own {
        OwnRecord::Found(rec) => {
            let name = match display_name {
                Some(n) => n,
                None => user_name,
            };
            CardReply::Card(membership_card(rec, name, None, today))
        },
        OwnRecord::NoRecord => text(NO_OWN_RECORD),
        OwnRecord::StoreFailed => text(BACKEND_FAILURE),
    }
}

/// A store failure's own text never reaches the answer.
pub proof fn law_failures_are_not_shown(a: String, b: String, name: Seq<char>, today: Date)
    ensures
        outcome_reply(LookupOutcome::StoreError(a), name, today) == outcome_reply(
            LookupOutcome::StoreError(b),
            name,
            today,
        ),
{
}

/// Every outcome of a lookup is answered in kind: a record with its card, a hand approval
/// with its own, with the note for a moderator only, and everything else with its own words.
pub proof fn law_outcomes_are_answered_in_kind(
    outcome: LookupOutcome,
    name: Seq<char>,
    today: Date,
)
    ensures
        ({
            let reply = outcome_reply(outcome, name, today);
            &&& (outcome matches LookupOutcome::Card(rec) ==> reply == CardReplyView::Card(
                card_view(rec, name, None, today, card_date(rec.join_date), card_date(rec.expires)),
            ))
            &&& (outcome matches LookupOutcome::SelfCard(Some(rec)) ==> reply
                == CardReplyView::Card(
                card_view(rec, name, None, today, card_date(rec.join_date), card_date(rec.expires)),
            ))
            &&& (outcome matches LookupOutcome::OverrideCard(stamp) ==> reply
                == CardReplyView::Card(
                override_view(name, stamp, stamp.approved_on.words(), true),
            ))
            &&& (outcome matches LookupOutcome::SelfOverride(stamp) ==> reply
                == CardReplyView::Card(
                override_view(name, stamp, stamp.approved_on.words(), false),
            ))
            &&& outcome == LookupOutcome::SelfCard(None) ==> reply == CardReplyView::Text(
                NO_OWN_RECORD@,
            )
            &&& outcome is NotFound ==> reply == CardReplyView::Text(NO_SUCH_RECORD@)
            &&& outcome is NotModerator ==> reply == CardReplyView::Text(MODERATORS_ONLY@)
            &&& outcome is RateLimited ==> reply == CardReplyView::Text(TOO_QUICK@)
            &&& outcome is StoreError ==> reply == CardReplyView::Text(BACKEND_FAILURE@)
        }),
{
}

/// The invoker's own card is under the name they go by here, or their account's; without a
/// record, or with a failed read, it is words that say so.
pub proof fn law_the_own_card_is_the_invokers(
    own: &OwnRecord,
    display_name: Option<&str>,
    user_name: &str,
    today: Date,
    r: CardReply,
)
    requires
        call_ensures(show_card, (own, display_name, user_name, today), r),
    ensures
        (*own matches OwnRecord::Found(rec) ==> (display_name matches Some(n) ==> r@
            == CardReplyView::Card(plain_card(rec, n@, today))) && (display_name is None ==> r@
            == CardReplyView::Card(plain_card(rec, user_name@, today)))),
        *own is NoRecord ==> r@ == CardReplyView::Text(NO_OWN_RECORD@),
        *own is StoreFailed ==> r@ == CardReplyView::Text(BACKEND_FAILURE@),
{
}

} // verus!
