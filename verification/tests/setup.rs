use botonio_botsci::commands::reclick::{reclick_action, ReclickAction};
use botonio_botsci::commands::setup::handlers::{
    roles_are_distinct, set_channel_field, set_role_field,
};
use botonio_botsci::commands::setup::ids::{DUES_CHAN_ID, DUES_EXPIRING_ROLE_ID, MEMBER_ROLE_ID};
use botonio_botsci::ids::{DiscordChannelId, DiscordRoleId};
use botonio_botsci::store::GuildConfig;

fn reject_duplicates() {
    let mut cfg = GuildConfig {
        member_role: Some(DiscordRoleId(5)),
        dues_expired_role: Some(DiscordRoleId(5)),
        ..Default::default()
    };
    assert!(!roles_are_distinct(&cfg));
    cfg.dues_expired_role = Some(DiscordRoleId(6));
    cfg.unverified_role = Some(DiscordRoleId(7));
    assert!(roles_are_distinct(&cfg));
    // A managed status role must not double as the moderator role.
    cfg.moderator_role = Some(DiscordRoleId(5));
    assert!(!roles_are_distinct(&cfg));
}

#[test]
fn setup_rejects_duplicate_roles() {
    reject_duplicates();
}

#[test]
fn handlers_rejects_duplicate_roles() {
    reject_duplicates();
}

fn expiring_distinct() {
    let cfg = GuildConfig {
        member_role: Some(DiscordRoleId(5)),
        dues_expired_role: Some(DiscordRoleId(6)),
        unverified_role: Some(DiscordRoleId(7)),
        dues_expiring_role: Some(DiscordRoleId(5)), // clashes with Member
        ..Default::default()
    };
    assert!(!roles_are_distinct(&cfg));
}

#[test]
fn setup_dues_expiring_role_must_be_distinct() {
    expiring_distinct();
}

#[test]
fn handlers_dues_expiring_role_must_be_distinct() {
    expiring_distinct();
}

fn reports_old() {
    let mut cfg = GuildConfig::default();
    let (label, old) = set_role_field(&mut cfg, MEMBER_ROLE_ID, DiscordRoleId(9)).unwrap();
    assert_eq!(label, "member role");
    assert_eq!(old, None);
    assert_eq!(cfg.member_role, Some(DiscordRoleId(9)));
    let (_, old2) = set_role_field(&mut cfg, MEMBER_ROLE_ID, DiscordRoleId(10)).unwrap();
    assert_eq!(old2, Some(9));
}

#[test]
fn setup_set_role_field_reports_old_and_updates() {
    reports_old();
}

#[test]
fn handlers_set_role_field_reports_old_and_updates() {
    reports_old();
}

fn sets_expiring() {
    let mut cfg = GuildConfig::default();
    let (label, old) = set_role_field(&mut cfg, DUES_EXPIRING_ROLE_ID, DiscordRoleId(12)).unwrap();
    assert_eq!(label, "dues-expiring role");
    assert_eq!(old, None);
    assert_eq!(cfg.dues_expiring_role, Some(DiscordRoleId(12)));
}

#[test]
fn setup_set_role_field_handles_the_dues_expiring_role() {
    sets_expiring();
}

#[test]
fn handlers_set_role_field_handles_the_dues_expiring_role() {
    sets_expiring();
}

fn sets_dues_channel() {
    let mut cfg = GuildConfig::default();
    let (label, old) = set_channel_field(&mut cfg, DUES_CHAN_ID, DiscordChannelId(20)).unwrap();
    assert_eq!(label, "dues-expired channel");
    assert_eq!(old, None);
    assert_eq!(cfg.dues_expired_channel, Some(DiscordChannelId(20)));
}

#[test]
fn setup_set_channel_field_dues_expired() {
    sets_dues_channel();
}

#[test]
fn handlers_set_channel_field_dues_expired() {
    sets_dues_channel();
}

#[test]
fn a_press_after_a_dismissed_modal_is_handed_off_or_reopens_it() {
    let lookup = "verify_lookup_email";
    let approve = "verify_override_approve";
    for other in ["bulk_skip", "bulk_stop", approve] {
        assert_eq!(reclick_action(other, lookup), ReclickAction::Redispatch);
    }
    assert_eq!(reclick_action(lookup, lookup), ReclickAction::Reopen);
    assert_eq!(reclick_action(approve, approve), ReclickAction::Reopen);
    assert_eq!(reclick_action(lookup, approve), ReclickAction::Redispatch);
}
