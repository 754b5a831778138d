//! Verified core of a membership bot: identifiers, membership vocabulary, the
//! decisions behind every command, and the messages it renders.

pub mod accents;
pub mod clock;
pub mod commands;
pub mod config;
pub mod dates;
pub mod dry_run;
pub mod error;
pub mod guild_config;
pub mod guild_guard;
pub mod ids;
pub mod join;
pub mod lookup;
pub mod membership;
pub mod migs_status;
pub mod moderator;
pub mod notify;
pub mod ping;
pub mod refresh;
pub mod reminders;
pub mod render;
pub mod role;
pub mod scan;
pub mod self_verify;
pub mod source;
pub mod sso;
pub mod startup;
pub mod store;
pub mod text;
pub mod ui;
