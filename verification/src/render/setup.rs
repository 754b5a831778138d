//! The `/setup` panel embed: the current guild configuration, each unset value shown as
//! "not set" rather than a blank.

use vstd::prelude::*;

use crate::ids::{DiscordChannelId, DiscordRoleId};
use crate::store::GuildConfig;
use crate::text::number;
use crate::ui::Embed;

#[allow(unused_imports)]
use crate::store::GuildConfigView;
#[allow(unused_imports)]
use crate::text::decimal;
#[allow(unused_imports)]
use crate::ui::EmbedView;

verus! {

/// How an unset value reads.
pub const NOT_SET: &'static str = "_not set_";

/// A role mention, or "not set".
pub open spec fn role_words(id: Option<DiscordRoleId>) -> Seq<char> {
    match id {
        Some(r) => "<@&"@ + decimal(r.0 as nat) + ">"@,
        None => NOT_SET@,
    }
}

/// One role line's value: a role mention, or "not set".
pub fn role_line(id: Option<DiscordRoleId>) -> (r: String)
    ensures
        r@ == role_words(id),
{
    match id {
        Some(role) => "<@&".to_owned().concat(number(role.0).as_str()).concat(">"),
        None => NOT_SET.to_owned(),
    }
}

/// A channel mention, or "not set".
pub open spec fn channel_words(id: Option<DiscordChannelId>) -> Seq<char> {
    match id {
        Some(c) => "<#"@ + decimal(c.0 as nat) + ">"@,
        None => NOT_SET@,
    }
}

/// One channel line's value: a channel mention, or "not set".
pub fn channel_line(id: Option<DiscordChannelId>) -> (r: String)
    ensures
        r@ == channel_words(id),
{
    match id {
        Some(channel) => "<#".to_owned().concat(number(channel.0).as_str()).concat(">"),
        None => NOT_SET.to_owned(),
    }
}

/// A switch in words.
pub open spec fn switch_words(on: bool) -> Seq<char> {
    if on {
        "On"@
    } else {
        "Off"@
    }
}

fn switch_line(on: bool) -> (r: String)
    ensures
        r@ == switch_words(on),
{
    if on {
        "On".to_owned()
    } else {
        "Off".to_owned()
    }
}

/// The current configuration, one field per setting.
pub open spec fn config_view(cfg: GuildConfigView, accent: u32) -> EmbedView {
    EmbedView::empty().title("Bot configuration"@).colour(accent).field(
        "Moderator role"@,
        role_words(cfg.moderator_role),
        false,
    ).field("Member role"@, role_words(cfg.member_role), false).field(
        "Dues-expired role"@,
        role_words(cfg.dues_expired_role),
        false,
    ).field("Unverified role"@, role_words(cfg.unverified_role), false).field(
        "Manual Override role"@,
        role_words(cfg.manual_override_role),
        false,
    ).field("Mod-approval channel"@, channel_words(cfg.mod_approval_channel), false).field(
        "Unverified channel"@,
        channel_words(cfg.unverified_channel),
        false,
    ).field("Dues-expired channel"@, channel_words(cfg.dues_expired_channel), false).field(
        "Verification-log channel"@,
        channel_words(cfg.verification_log_channel),
        false,
    ).field("Dues-reminder channel"@, channel_words(cfg.dues_reminder_channel), false).field(
        "Dues sign-up URL"@,
        match cfg.dues_signup_url {
            Some(url) => url,
            None => NOT_SET@,
        },
        false,
    ).field("Dues reminders"@, switch_words(cfg.reminders_enabled), false).field(
        "Scheduled scan"@,
        switch_words(cfg.scan_enabled),
        false,
    )
}

/// Build the current-config embed.
pub fn config_embed(cfg: &GuildConfig, accent: u32) -> (r: Embed)
    ensures
        r@ == config_view(cfg@, accent),
{
    let url = match &cfg.dues_signup_url {
        Some(url) => url.clone(),
        None => NOT_SET.to_owned(),
    };
    Embed::new().title("Bot configuration".to_owned()).colour(accent).field(
        "Moderator role",
        role_line(cfg.moderator_role),
        false,
    ).field("Member role", role_line(cfg.member_role), false).field(
        "Dues-expired role",
        role_line(cfg.dues_expired_role),
        false,
    ).field("Unverified role", role_line(cfg.unverified_role), false).field(
        "Manual Override role",
        role_line(cfg.manual_override_role),
        false,
    ).field("Mod-approval channel", channel_line(cfg.mod_approval_channel), false).field(
        "Unverified channel",
        channel_line(cfg.unverified_channel),
        false,
    ).field("Dues-expired channel", channel_line(cfg.dues_expired_channel), false).field(
        "Verification-log channel",
        channel_line(cfg.verification_log_channel),
        false,
    ).field("Dues-reminder channel", channel_line(cfg.dues_reminder_channel), false).field(
        "Dues sign-up URL",
        url,
        false,
    ).field("Dues reminders", switch_line(cfg.reminders_enabled), false).field(
        "Scheduled scan",
        switch_line(cfg.scan_enabled),
        false,
    )
}

/// Every setting stands under its own label, in the same order, as it is configured.
pub proof fn law_the_panel_shows_every_setting(cfg: GuildConfigView, accent: u32)
    ensures
        ({
            let f = config_view(cfg, accent).fields;
            &&& config_view(cfg, accent).colour == Some(accent)
            &&& f.len() == 13
            &&& f[0].name == "Moderator role"@ && f[0].value == role_words(cfg.moderator_role)
            &&& f[1].name == "Member role"@ && f[1].value == role_words(cfg.member_role)
            &&& f[2].name == "Dues-expired role"@ && f[2].value == role_words(
                cfg.dues_expired_role,
            )
            &&& f[3].name == "Unverified role"@ && f[3].value == role_words(cfg.unverified_role)
            &&& f[4].name == "Manual Override role"@ && f[4].value == role_words(
                cfg.manual_override_role,
            )
            &&& f[5].name == "Mod-approval channel"@ && f[5].value == channel_words(
                cfg.mod_approval_channel,
            )
            &&& f[6].name == "Unverified channel"@ && f[6].value == channel_words(
                cfg.unverified_channel,
            )
            &&& f[7].name == "Dues-expired channel"@ && f[7].value == channel_words(
                cfg.dues_expired_channel,
            )
            &&& f[8].name == "Verification-log channel"@ && f[8].value == channel_words(
                cfg.verification_log_channel,
            )
            &&& f[9].name == "Dues-reminder channel"@ && f[9].value == channel_words(
                cfg.dues_reminder_channel,
            )
            &&& f[10].name == "Dues sign-up URL"@ && (cfg.dues_signup_url matches Some(url)
                ==> f[10].value == url) && (cfg.dues_signup_url is None ==> f[10].value
                == NOT_SET@)
            &&& f[11].name == "Dues reminders"@ && f[11].value == (if cfg.reminders_enabled {
                "On"@
            } else {
                "Off"@
            })
            &&& f[12].name == "Scheduled scan"@ && f[12].value == (if cfg.scan_enabled {
                "On"@
            } else {
                "Off"@
            })
        }),
{
}

/// A role and a channel are shown as mentions of themselves, and nothing as not set.
pub proof fn law_ids_are_shown_as_mentions(role: DiscordRoleId, channel: DiscordChannelId)
    ensures
        role_words(Some(role)) == "<@&"@ + decimal(role.0 as nat) + ">"@,
        channel_words(Some(channel)) == "<#"@ + decimal(channel.0 as nat) + ">"@,
        role_words(None) == NOT_SET@,
        channel_words(None) == NOT_SET@,
{
}

} // verus!
