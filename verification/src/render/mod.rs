//! Builders for everything the bot shows. Each takes plain values and returns a plain
//! value, and its contract states every word of the result.

pub mod bulk_verify;
pub mod card;
pub mod colours;
pub mod help;
pub mod modal;
pub mod reminders;
pub mod scan;
pub mod self_verify;
pub mod setup;
pub mod verify;
