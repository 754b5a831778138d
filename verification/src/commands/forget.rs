//! `/forget @member`: reset a member's bot state, for testing. Registered only where the
//! deployment asks for it.

use vstd::prelude::*;

use crate::commands::replies::{MODERATORS_ONLY, ROLES_NOT_CONFIGURED};

verus! {

/// The reply when the reset failed.
pub const RESET_FAILED: &'static str = "Something went wrong resetting that member.";

/// What just happened to a `/forget` invocation.
#[derive(Debug, Clone, Copy, PartialEq, Eq, Structural)]
pub enum ForgetEvent {
    /// It was invoked, by a moderator or not, with the managed roles set or not.
    Invoked { is_moderator: bool, roles_configured: bool },
    /// The member was reset, or could not be.
    Reset(bool),
}

/// What `/forget` does next.
#[derive(Debug, Clone, PartialEq, Eq)]
pub enum ForgetAction {
    /// Say this, privately, and stop.
    Reply(String),
    /// Reset the member.
    Reset,
}

/// Reset a member to an unverified, unlinked state. Moderators only.
pub fn forget(target_name: &str, event: ForgetEvent) -> (r: ForgetAction)
    ensures
        (match event {
            ForgetEvent::Invoked { is_moderator, roles_configured } => if !is_moderator {
                r matches ForgetAction::Reply(s) && s@ == MODERATORS_ONLY@
            } else if !roles_configured {
                r matches ForgetAction::Reply(s) && s@ == ROLES_NOT_CONFIGURED@
            } else {
                r is Reset
            },
            ForgetEvent::Reset(ok) => if ok {
                r matches ForgetAction::Reply(s) && s@ == "Reset "@ + target_name@
                    + " to an unverified, unlinked state."@
            } else {
                r matches ForgetAction::Reply(s) && s@ == RESET_FAILED@
            },
        }),
{
    match event {
        ForgetEvent::Invoked { is_moderator, roles_configured } => {
            if !is_moderator {
                ForgetAction::Reply(MODERATORS_ONLY.to_owned())
            } else if !roles_configured {
                ForgetAction::Reply(ROLES_NOT_CONFIGURED.to_owned())
            } else {
                ForgetAction::Reset
            }
        },
        ForgetEvent::Reset(ok) => {
            if ok {
                ForgetAction::Reply(
                    "Reset ".to_owned().concat(target_name).concat(
                        " to an unverified, unlinked state.",
                    ),
                )
            } else {
                ForgetAction::Reply(RESET_FAILED.to_owned())
            }
        },
    }
}

/// Only a moderator of a server that is set up resets a member, and the answer names the
/// member exactly when the reset worked.
pub proof fn law_forgetting_is_for_moderators(
    target_name: &str,
    is_moderator: bool,
    roles_configured: bool,
    asked: ForgetAction,
    ok: bool,
    told: ForgetAction,
)
    requires
        call_ensures(
            forget,
            (target_name, ForgetEvent::Invoked { is_moderator, roles_configured }),
            asked,
        ),
        call_ensures(forget, (target_name, ForgetEvent::Reset(ok)), told),
    ensures
        asked is Reset <==> is_moderator && roles_configured,
        !is_moderator ==> (asked matches ForgetAction::Reply(s) && s@ == MODERATORS_ONLY@),
        is_moderator && !roles_configured ==> (asked matches ForgetAction::Reply(s) && s@
            == ROLES_NOT_CONFIGURED@),
        ok ==> (told matches ForgetAction::Reply(s) && s@ == "Reset "@ + target_name@
            + " to an unverified, unlinked state."@),
        !ok ==> (told matches ForgetAction::Reply(s) && s@ == RESET_FAILED@),
{
}

} // verus!
