//! The decisions behind each command: what to do next, given what just happened.
//!
//! A command that waits on Discord or a backend is a function from where it stands and
//! what came back to where it stands next and what to do. Performing the action and
//! reporting the event is the caller's part.

pub mod bulk_verify;
pub mod card;
pub mod channels;
pub mod forget;
pub mod grace;
pub mod help;
pub mod reclick;
pub mod refresh_cache;
pub mod registry;
pub mod reminders;
pub mod replies;
pub mod setup;
pub mod strip_roles;
pub mod verify;
