//! Auto-verification on join: whether a joining member is matched and given the role their
//! standing earns. Silent: the joining member sees no message.

use vstd::prelude::*;

use crate::ids::DiscordGuildId;

verus! {

/// Whether a join is auto-verified.
#[derive(Debug, Clone, Copy, PartialEq, Eq, Structural)]
pub enum JoinAction {
    Skip,
    Verify,
}

/// Bot accounts are never swept, and a guild whose managed roles are unset has nothing to
/// assign.
pub fn join_action(is_bot: bool, roles_configured: bool) -> (r: JoinAction)
    ensures
        r == JoinAction::Verify <==> !is_bot && roles_configured,
{
    if is_bot || !roles_configured {
        JoinAction::Skip
    } else {
        JoinAction::Verify
    }
}

/// Handle a join: only one in the served guild is considered at all.
pub fn on_guild_member_add(
    joined: DiscordGuildId,
    home: DiscordGuildId,
    is_bot: bool,
    roles_configured: bool,
) -> (r: JoinAction)
    ensures
        r == JoinAction::Verify <==> joined == home && !is_bot && roles_configured,
{
    if joined.0 != home.0 {
        return JoinAction::Skip;
    }
    join_action(is_bot, roles_configured)
}

/// A join is verified exactly when it is of a person, in the home server, with the roles set.
pub proof fn law_people_who_join_home_are_verified(
    joined: DiscordGuildId,
    home: DiscordGuildId,
    is_bot: bool,
    roles_configured: bool,
    r: JoinAction,
)
    requires
        call_ensures(on_guild_member_add, (joined, home, is_bot, roles_configured), r),
    ensures
        r == JoinAction::Verify <==> joined == home && !is_bot && roles_configured,
        r == JoinAction::Skip <==> joined != home || is_bot || !roles_configured,
{
}

} // verus!
