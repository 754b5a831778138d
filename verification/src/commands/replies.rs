//! Replies several commands share.

use vstd::prelude::*;

verus! {

/// The answer to a non-moderator.
pub const MODERATORS_ONLY: &'static str = "That command is for moderators only.";

/// The answer to an invoker without the Manage Server permission.
pub const MANAGERS_ONLY: &'static str = "That command is for server managers only.";

/// The answer while the managed roles are not all set.
pub const ROLES_NOT_CONFIGURED: &'static str = "Roles are not configured yet - a server manager needs to run /setup first.";

/// The answer to an unexpected backend failure.
pub const BACKEND_FAILURE: &'static str = "Something went wrong on my end - please try again in a moment.";

} // verus!
