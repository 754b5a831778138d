//! The custom ids that bind the panel's controls to their handlers.

use vstd::prelude::*;

verus! {

// Landing navigation.

pub const NAV_VERIFICATION_ID: &'static str = "setup_nav_verification";

pub const NAV_MEMBERSHIP_ID: &'static str = "setup_nav_membership";

pub const NAV_DUES_ID: &'static str = "setup_nav_dues";

pub const NAV_MODERATION_ID: &'static str = "setup_nav_moderation";

pub const BACK_ID: &'static str = "setup_back";

// Toggles.

pub const SCAN_TOGGLE_ID: &'static str = "setup_scan_toggle";

pub const REMINDERS_TOGGLE_ID: &'static str = "setup_reminders_toggle";

pub const SSO_TOGGLE_ID: &'static str = "setup_sso_toggle";

pub const SSO_DISABLE_CONFIRM_ID: &'static str = "setup_sso_disable_confirm";

pub const SSO_DISABLE_CANCEL_ID: &'static str = "setup_sso_disable_cancel";

// Role selects.

pub const MOD_ROLE_ID: &'static str = "setup_role_moderator";

pub const MEMBER_ROLE_ID: &'static str = "setup_role_member";

pub const DUES_ROLE_ID: &'static str = "setup_role_dues_expired";

pub const DUES_EXPIRING_ROLE_ID: &'static str = "setup_role_dues_expiring";

pub const UNVERIFIED_ROLE_ID: &'static str = "setup_role_unverified";

pub const OVERRIDE_ROLE_ID: &'static str = "setup_role_manual_override";

// Channel selects.

pub const MOD_CHAN_ID: &'static str = "setup_chan_mod_approval";

pub const UNVERIFIED_CHAN_ID: &'static str = "setup_chan_unverified";

pub const VERIFY_LOG_CHAN_ID: &'static str = "setup_chan_verify_log";

pub const DUES_CHAN_ID: &'static str = "setup_chan_dues_expired";

// Actions.

pub const POST_PROMPT_ID: &'static str = "setup_post_prompt";

pub const POST_BANNER_ID: &'static str = "setup_post_banner";

pub const DUES_URL_BUTTON_ID: &'static str = "setup_dues_url_button";

// Message editors.

pub const EDIT_MONTHLY_ID: &'static str = "setup_edit_monthly";

pub const EDIT_YEARLY_ID: &'static str = "setup_edit_yearly";

pub const EDIT_ONETIME_ID: &'static str = "setup_edit_onetime";

pub const EDIT_INCOME_ID: &'static str = "setup_edit_income";

pub const EDIT_BANNER_ID: &'static str = "setup_edit_banner";

pub const EDIT_PROMPT_ID: &'static str = "setup_edit_prompt";

// Modals.

pub const MSG_MODAL_ID: &'static str = "setup_msg_modal";

pub const MSG_BODY_FIELD_ID: &'static str = "setup_msg_body";

pub const DUES_URL_MODAL_ID: &'static str = "setup_dues_url_modal";

pub const DUES_URL_FIELD_ID: &'static str = "setup_dues_url_field";

/// How long a message editor waits, in seconds.
pub const MSG_MODAL_TIMEOUT_SECS: u64 = 300;

/// How long the URL form waits, in seconds.
pub const DUES_URL_MODAL_TIMEOUT_SECS: u64 = 120;

/// How long the panel may sit idle, in seconds. Reset on every interaction.
pub const NAV_IDLE_TIMEOUT_SECS: u64 = 900;

} // verus!
