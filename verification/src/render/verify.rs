//! Embeds for the manual-verify exchange: the prompt that hosts the lookup button, and
//! the in-place edits for each outcome.

use vstd::prelude::*;

use crate::render::colours::{COLOR_AMBER, COLOR_BLURPLE, COLOR_GREEN, COLOR_RED, COLOR_VIOLET};
use crate::role::Role;
use crate::ui::Embed;

#[allow(unused_imports)]
use crate::ui::EmbedView;

verus! {

/// Which state of the manual-verify exchange an embed renders.
#[derive(Debug, Clone, Copy, PartialEq, Eq, Structural)]
pub enum VerifyState {
    /// Automatic match missed; invite the moderator to look up by email.
    Prompt,
    /// Matched and assigned this standing role.
    Verified(Role),
    /// The email matched no record; offer a retry.
    NotFound,
    /// The email is on record for a different account.
    Conflict,
    /// The typed value was not a plausible email; offer a retry.
    InvalidEmail,
    /// The interaction sat idle past its window.
    Expired,
    /// Approved by hand: granted Member plus the Manual Override marker.
    Overridden,
    /// An unexpected backend failure.
    Error,
}

/// The invitation to look a member up.
pub const PROMPT_BODY: &'static str = "I couldn't find them in our records by their Discord information. Know their email? Look them up:";

/// No record matched.
pub const NOT_FOUND_BODY: &'static str = "\u{2753} No Solidarity Tech record matches that email. Want to try a different one?";

/// The record is a different account's.
pub const CONFLICT_BODY: &'static str = "\u{26a0}\u{fe0f} That email is on record for a different Discord account. Nothing was changed - please check the records in Solidarity Tech manually.";

/// Not an address.
pub const INVALID_EMAIL_BODY: &'static str = "That doesn't look like an email address. Want to try again?";

/// The exchange timed out.
pub const EXPIRED_BODY: &'static str = "This timed out. Run /verify again when you're ready.";

/// Approved by hand.
pub const OVERRIDDEN_BODY: &'static str = "\u{2705} Hand approved, not matched with any Solidarity Tech member record.\n\nYour approval has been logged, along with the time of approval for future review";

/// The backend failed.
pub const ERROR_BODY: &'static str = "Something went wrong on my end - please try again in a moment.";

/// The accent of a state: green for good standing, red for lapsed, conflict or failure,
/// amber for a recoverable miss.
pub open spec fn state_colour(state: VerifyState) -> u32 {
    match state {
        VerifyState::Prompt | VerifyState::Expired => COLOR_BLURPLE,
        VerifyState::Verified(Role::Member) => COLOR_GREEN,
        VerifyState::Verified(Role::DuesExpired) => COLOR_RED,
        VerifyState::Verified(Role::Unverified) => COLOR_AMBER,
        VerifyState::NotFound | VerifyState::InvalidEmail => COLOR_AMBER,
        VerifyState::Conflict | VerifyState::Error => COLOR_RED,
        VerifyState::Overridden => COLOR_VIOLET,
    }
}

/// What a state says.
pub open spec fn state_body(state: VerifyState) -> Seq<char> {
    match state {
        VerifyState::Prompt => PROMPT_BODY@,
        VerifyState::Verified(role) => "\u{2705} Verified as "@ + role.words() + "."@,
        VerifyState::NotFound => NOT_FOUND_BODY@,
        VerifyState::Conflict => CONFLICT_BODY@,
        VerifyState::InvalidEmail => INVALID_EMAIL_BODY@,
        VerifyState::Expired => EXPIRED_BODY@,
        VerifyState::Overridden => OVERRIDDEN_BODY@,
        VerifyState::Error => ERROR_BODY@,
    }
}

/// The embed of a state, headed by the target's avatar, display name and handle.
pub open spec fn state_view(
    display_name: Seq<char>,
    handle: Seq<char>,
    avatar_url: Seq<char>,
    state: VerifyState,
) -> EmbedView {
    EmbedView::empty().author(display_name, Some(avatar_url)).colour(
        state_colour(state),
    ).description("`@"@ + handle + "`\n\n"@ + state_body(state))
}

fn body_text(state: &VerifyState) -> (r: String)
    ensures
        r@ == state_body(*state),
{
    match state {
        VerifyState::Prompt => PROMPT_BODY.to_owned(),
        VerifyState::Verified(role) => "\u{2705} Verified as ".to_owned().concat(
            role.as_str(),
        ).concat("."),
        VerifyState::NotFound => NOT_FOUND_BODY.to_owned(),
        VerifyState::Conflict => CONFLICT_BODY.to_owned(),
        VerifyState::InvalidEmail => INVALID_EMAIL_BODY.to_owned(),
        VerifyState::Expired => EXPIRED_BODY.to_owned(),
        VerifyState::Overridden => OVERRIDDEN_BODY.to_owned(),
        VerifyState::Error => ERROR_BODY.to_owned(),
    }
}

/// Build the manual-verify embed for `state`.
pub fn state_embed(display_name: &str, handle: &str, avatar_url: &str, state: &VerifyState) -> (r:
    Embed)
    ensures
        r@ == state_view(display_name@, handle@, avatar_url@, *state),
{
    let color: u32 = match state {
        VerifyState::Prompt | VerifyState::Expired => COLOR_BLURPLE,
        VerifyState::Verified(Role::Member) => COLOR_GREEN,
        VerifyState::Verified(Role::DuesExpired) => COLOR_RED,
        VerifyState::Verified(Role::Unverified) => COLOR_AMBER,
        VerifyState::NotFound | VerifyState::InvalidEmail => COLOR_AMBER,
        VerifyState::Conflict | VerifyState::Error => COLOR_RED,
        VerifyState::Overridden => COLOR_VIOLET,
    };
    let body = body_text(state);
    Embed::new().author(display_name.to_owned(), Some(avatar_url.to_owned())).colour(
        color,
    ).description("`@".to_owned().concat(handle).concat("`\n\n").concat(body.as_str()))
}

/// Every state names the member it is about.
pub proof fn law_state_carries_the_handle(
    display_name: Seq<char>,
    handle: Seq<char>,
    avatar_url: Seq<char>,
    state: VerifyState,
)
    ensures
        state_view(display_name, handle, avatar_url, state).description matches Some(d)
            && d.subrange(2, 2 + handle.len() as int) == handle,
{
    reveal_strlit("`@");
    let d = "`@"@ + handle + "`\n\n"@ + state_body(state);
    assert(d.subrange(2, 2 + handle.len() as int) =~= handle);
}

/// Each state says its own thing and wears its own colour: green only for a member in good
/// standing, red for a lapse, a conflict or a failure.
pub proof fn law_states_speak_for_themselves(
    display_name: Seq<char>,
    handle: Seq<char>,
    avatar_url: Seq<char>,
    state: VerifyState,
)
    ensures
        ({
            let shown = state_view(display_name, handle, avatar_url, state);
            &&& shown.author == Some(display_name) && shown.author_icon == Some(avatar_url)
            &&& (shown.colour == Some(COLOR_GREEN) <==> state == VerifyState::Verified(Role::Member))
            &&& (shown.colour == Some(COLOR_RED) <==> state == VerifyState::Verified(
                Role::DuesExpired,
            ) || state == VerifyState::Conflict || state == VerifyState::Error)
            &&& (shown.colour == Some(COLOR_VIOLET) <==> state == VerifyState::Overridden)
            &&& (shown.colour == Some(COLOR_AMBER) <==> state == VerifyState::Verified(
                Role::Unverified,
            ) || state == VerifyState::NotFound || state == VerifyState::InvalidEmail)
            &&& shown.description == Some(
                "`@"@ + handle + "`\n\n"@ + (match state {
                    VerifyState::Prompt => PROMPT_BODY@,
                    VerifyState::Verified(Role::Member) => "\u{2705} Verified as Member."@,
                    VerifyState::Verified(Role::DuesExpired) => "\u{2705} Verified as Dues Expired."@,
                    VerifyState::Verified(Role::Unverified) => "\u{2705} Verified as Unverified."@,
                    VerifyState::NotFound => NOT_FOUND_BODY@,
                    VerifyState::Conflict => CONFLICT_BODY@,
                    VerifyState::InvalidEmail => INVALID_EMAIL_BODY@,
                    VerifyState::Expired => EXPIRED_BODY@,
                    VerifyState::Overridden => OVERRIDDEN_BODY@,
                    VerifyState::Error => ERROR_BODY@,
                }),
            )
        }),
{
    reveal_strlit("\u{2705} Verified as ");
    reveal_strlit(".");
    reveal_strlit("Member");
    reveal_strlit("Dues Expired");
    reveal_strlit("Unverified");
    reveal_strlit("\u{2705} Verified as Member.");
    reveal_strlit("\u{2705} Verified as Dues Expired.");
    reveal_strlit("\u{2705} Verified as Unverified.");
    assert("\u{2705} Verified as "@ + Role::Member.words() + "."@
        =~= "\u{2705} Verified as Member."@);
    assert("\u{2705} Verified as "@ + Role::DuesExpired.words() + "."@
        =~= "\u{2705} Verified as Dues Expired."@);
    assert("\u{2705} Verified as "@ + Role::Unverified.words() + "."@
        =~= "\u{2705} Verified as Unverified."@);
}

} // verus!
