//! The sign-in broker: answers, with a short-lived signed assertion, whether a person holds
//! the configured Member role.

pub mod assertion;
pub mod config;
pub mod flow;
pub mod server;
pub mod store;
