//! `/setup`: the guild configuration panel, for server managers only.
//!
//! The panel is a by-feature navigator: a landing view with the current configuration
//! and one button per feature, opening one of four pages. A selection writes the whole
//! configuration row, swaps the live one once it is saved, and audits the change.
//!
//! Blurple is an action, an edit or navigation; grey is neutral, back, or an off toggle;
//! green is an on toggle.

pub mod handlers;
pub mod ids;
pub mod modals;
pub mod pages;
pub mod panel;
