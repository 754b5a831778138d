//! The bot's failures and what becomes of them: a friendly private reply, never a raw error,
//! and a log label that holds nothing about a member.

use vstd::prelude::*;

use crate::commands::replies::BACKEND_FAILURE;

verus! {

/// Where a command's failure came from.
#[derive(Debug, Clone, Copy, PartialEq, Eq, Structural)]
pub enum BotError {
    Engine,
    Serenity,
    Discord,
    Db,
}

impl BotError {
    /// A stable label for the logs.
    pub open spec fn label(self) -> Seq<char> {
        match self {
            BotError::Engine => "engine"@,
            BotError::Serenity => "serenity"@,
            BotError::Discord => "discord"@,
            BotError::Db => "database"@,
        }
    }

    /// A stable label for the logs, never the error's own text: that could carry a member's
    /// handle or email.
    pub fn kind(self) -> (r: &'static str)
        ensures
            r@ == self.label(),
    {
        match self {
            BotError::Engine => "engine",
            BotError::Serenity => "serenity",
            BotError::Discord => "discord",
            BotError::Db => "database",
        }
    }

    /// What the error is called.
    pub fn message(self) -> (r: String)
        ensures
            r@ == self.label() + " error"@,
    {
        self.kind().to_owned().concat(" error")
    }
}

/// What is made of a failed command.
#[derive(Debug, Clone, PartialEq, Eq)]
pub struct ErrorReport {
    /// The private reply.
    pub reply: &'static str,
    /// The label to log.
    pub kind: &'static str,
    /// The detail to log beside it.
    pub detail: Option<String>,
}

/// Answer a failed command. The detail is logged only where it is Discord's own status, and
/// nothing of it reaches the reply.
pub fn on_error(error: BotError, detail: String) -> (r: ErrorReport)
    ensures
        r.reply@ == BACKEND_FAILURE@,
        r.kind@ == error.label(),
        r.detail == (if error == BotError::Serenity {
            Some(detail)
        } else {
            None
        }),
{
    let logged = match error {
        BotError::Serenity => Some(detail),
        _ => None,
    };
    ErrorReport { reply: BACKEND_FAILURE, kind: error.kind(), detail: logged }
}

/// A failed command is always answered with the same words and logged under the label of
/// where it failed; no two places share a label, and only Discord's own status is logged
/// beside it.
pub proof fn law_failures_are_logged_by_where_they_came_from(
    error: BotError,
    other: BotError,
    detail: String,
    r: ErrorReport,
)
    requires
        call_ensures(on_error, (error, detail), r),
    ensures
        r.reply@ == BACKEND_FAILURE@,
        r.kind@ == (match error {
            BotError::Engine => "engine"@,
            BotError::Serenity => "serenity"@,
            BotError::Discord => "discord"@,
            BotError::Db => "database"@,
        }),
        r.detail is Some <==> error == BotError::Serenity,
        r.detail is Some ==> r.detail == Some(detail),
        error != other ==> error.label() != other.label(),
{
    reveal_strlit("engine");
    reveal_strlit("serenity");
    reveal_strlit("discord");
    reveal_strlit("database");
    assert("engine"@[0] == 'e' && "serenity"@[0] == 's' && "discord"@[1] == 'i' && "database"@[1]
        == 'a' && "discord"@[0] == 'd' && "database"@[0] == 'd');
}

} // verus!
