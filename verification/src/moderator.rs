//! The moderator gate: the single source of truth for who is a moderator, shared by the
//! help topics and the lookup's authorization, so the two never drift.

use vstd::prelude::*;

use crate::ids::DiscordRoleId;

verus! {

/// Whether the invoker holds the configured moderator role. A member the gateway cannot
/// resolve is no moderator.
pub fn invoker_is_moderator(role: DiscordRoleId, held: Option<&Vec<DiscordRoleId>>) -> (r: bool)
    ensures
        r == (held matches Some(roles) && roles@.contains(role)),
{
    match held {
        Some(roles) => {
            let mut i: usize = 0;
            while i < roles.len()
                invariant
                    i <= roles.len(),
                    held == Some(roles),
                    forall|j: int| 0 <= j < i ==> #[trigger] roles@[j] != role,
                decreases roles.len() - i,
            {
                if roles[i].0 == role.0 {
                    assert(roles@[i as int] == role);
                    return true;
                }
                i += 1;
            }
            false
        },
        None => false,
    }
}

/// A moderator is one who holds the role; holding more roles takes nothing away.
pub proof fn law_moderators_hold_the_role(
    role: DiscordRoleId,
    held: &Vec<DiscordRoleId>,
    known: bool,
    unknown: bool,
)
    requires
        call_ensures(invoker_is_moderator, (role, Some(held)), known),
        call_ensures(invoker_is_moderator, (role, None), unknown),
    ensures
        known <==> exists|i: int| 0 <= i < held@.len() && held@[i] == role,
        !unknown,
{
}

} // verus!
