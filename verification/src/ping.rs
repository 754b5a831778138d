//! The reply to a message that mentions the bot. Only the mention is read, never the text.

use vstd::prelude::*;

use crate::ids::DiscordGuildId;

verus! {

/// What the bot says when it is pinged.
pub const REPLY: &'static str = "The old drive is dying, and the new drive struggles to be born; now is the time of monsters. And you pinged me, monster";

/// Reply to a message in the served guild that mentions us, unless a bot wrote it: that is
/// how reply loops start.
pub fn on_message(
    author_is_bot: bool,
    guild: Option<DiscordGuildId>,
    home: DiscordGuildId,
    mentions_us: bool,
) -> (r: Option<&'static str>)
    ensures
        r is Some <==> !author_is_bot && guild == Some(home) && mentions_us,
        r matches Some(s) ==> s@ == REPLY@,
{
    if author_is_bot {
        return None;
    }
    match guild {
        Some(g) => {
            if g.0 != home.0 {
                return None;
            }
        },
        None => {
            return None;
        },
    }
    if !mentions_us {
        return None;
    }
    Some(REPLY)
}

/// A person who mentions the bot at home is answered, and no one else is: never a bot, never
/// elsewhere, never in a direct message.
pub proof fn law_only_people_at_home_are_answered(
    author_is_bot: bool,
    guild: Option<DiscordGuildId>,
    home: DiscordGuildId,
    mentions_us: bool,
    r: Option<&'static str>,
)
    requires
        call_ensures(on_message, (author_is_bot, guild, home, mentions_us), r),
    ensures
        r is Some <==> !author_is_bot && guild == Some(home) && mentions_us,
        (r matches Some(s) ==> s@ == REPLY@),
{
}

} // verus!
