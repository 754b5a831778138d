//! The home-guild guard: the bot serves only its single configured guild and removes itself
//! from any other server it is in.

use vstd::prelude::*;

use crate::ids::DiscordGuildId;

verus! {

/// Whether the bot belongs in a guild or should remove itself from it.
#[derive(Debug, Clone, Copy, PartialEq, Eq, Structural)]
pub enum Disposition {
    /// The configured home guild: stay and serve.
    Serve,
    /// Any other guild: the bot does not belong here.
    Leave,
}

/// The bot serves only its home guild; every other guild is left.
pub fn disposition(incoming: DiscordGuildId, home: DiscordGuildId) -> (r: Disposition)
    ensures
        r == (if incoming == home {
            Disposition::Serve
        } else {
            Disposition::Leave
        }),
{
    if incoming.0 == home.0 {
        Disposition::Serve
    } else {
        Disposition::Leave
    }
}

/// Handle a guild coming into sight: the guild to leave, if it is not home. Whether it was
/// just joined or already there does not matter.
pub fn on_guild_create(
    incoming: DiscordGuildId,
    home: DiscordGuildId,
    is_new: Option<bool>,
) -> (r: Option<DiscordGuildId>)
    ensures
        r == (if incoming == home {
            None
        } else {
            Some(incoming)
        }),
{
    match disposition(incoming, home) {
        Disposition::Serve => None,
        Disposition::Leave => Some(incoming),
    }
}

/// Whether an invocation may run: only one from the home guild, never a direct message.
pub fn command_check(from: Option<DiscordGuildId>, home: DiscordGuildId) -> (r: bool)
    ensures
        r == (from == Some(home)),
{
    match from {
        Some(guild) => guild.0 == home.0,
        None => false,
    }
}

/// The bot stays in its home server and leaves every other, the very one it was seen in; and
/// it answers nowhere but at home.
pub proof fn law_only_home_is_served(
    incoming: DiscordGuildId,
    home: DiscordGuildId,
    is_new: Option<bool>,
    stay: Disposition,
    left: Option<DiscordGuildId>,
    from: Option<DiscordGuildId>,
    runs: bool,
)
    requires
        call_ensures(disposition, (incoming, home), stay),
        call_ensures(on_guild_create, (incoming, home, is_new), left),
        call_ensures(command_check, (from, home), runs),
    ensures
        stay == Disposition::Serve <==> incoming == home,
        left is None <==> stay == Disposition::Serve,
        (left matches Some(g) ==> g == incoming && g != home),
        runs <==> from == Some(home),
        from is None ==> !runs,
{
}

} // verus!
