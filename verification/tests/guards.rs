use botonio_botsci::commands::registry::{all, Command};
use botonio_botsci::error::{on_error, BotError};
use botonio_botsci::guild_config::managed_role_map;
use botonio_botsci::guild_guard::{command_check, disposition, on_guild_create, Disposition};
use botonio_botsci::ids::{DiscordGuildId, DiscordRoleId};
use botonio_botsci::join::{join_action, on_guild_member_add, JoinAction};
use botonio_botsci::moderator::invoker_is_moderator;
use botonio_botsci::notify::{
    after_probe, liveness_timeout, ping_interval, ready, stopping, watchdog_interval,
    watchdog_ping, Probe,
};
use botonio_botsci::clock::Duration;
use botonio_botsci::ping::{on_message, REPLY};
use botonio_botsci::role::Role;
use botonio_botsci::startup::{
    bad_port, is_migrate, migrate_target, mock_address, mock_authority, mock_enabled, serve_roster,
    serves_sso, MigrateEnv, NO_DB_NAME, NO_PASSWORD, NO_ROSTER,
};
use botonio_botsci::store::GuildConfig;

#[test]
fn bot_accounts_are_skipped() {
    assert_eq!(join_action(true, true), JoinAction::Skip);
}

#[test]
fn unconfigured_guild_is_skipped() {
    assert_eq!(join_action(false, false), JoinAction::Skip);
}

#[test]
fn an_ordinary_joiner_with_roles_configured_is_verified() {
    assert_eq!(join_action(false, true), JoinAction::Verify);
}

#[test]
fn a_bot_is_skipped_even_when_the_guild_is_unconfigured() {
    assert_eq!(join_action(true, false), JoinAction::Skip);
}

#[test]
fn a_joiner_of_another_guild_is_skipped() {
    let home = DiscordGuildId(1);
    assert_eq!(
        on_guild_member_add(DiscordGuildId(2), home, false, true),
        JoinAction::Skip
    );
    assert_eq!(
        on_guild_member_add(home, home, false, true),
        JoinAction::Verify
    );
}

#[test]
fn none_until_all_three_managed_roles_set() {
    let mut cfg = GuildConfig::default();
    assert!(managed_role_map(&cfg).is_none());
    cfg.member_role = Some(DiscordRoleId(1));
    cfg.dues_expired_role = Some(DiscordRoleId(2));
    assert!(managed_role_map(&cfg).is_none(), "still missing unverified");
    cfg.unverified_role = Some(DiscordRoleId(3));
    let map = managed_role_map(&cfg).expect("all three set");
    assert_eq!(map.get(Role::Member), DiscordRoleId(1));
    assert_eq!(map.get(Role::DuesExpired), DiscordRoleId(2));
    assert_eq!(map.get(Role::Unverified), DiscordRoleId(3));
}

#[test]
fn watchdog_interval_is_none_without_a_configured_watchdog() {
    // No `$WATCHDOG_USEC` in the test environment,
    // so the bot must not try to ping a watchdog that was never asked for.
    assert_eq!(watchdog_interval(), None);
}

#[test]
fn the_ping_interval_is_half_the_period() {
    assert_eq!(ping_interval(None), None);
    assert_eq!(ping_interval(Some(0)), None);
    assert_eq!(ping_interval(Some(1)), None);
    assert_eq!(ping_interval(Some(3)), Some(Duration::from_micros(1)));
    assert_eq!(
        ping_interval(Some(30_000_000)),
        Some(Duration::from_secs(15))
    );
}

#[test]
fn the_watchdog_is_fed_only_while_the_database_answers() {
    assert_eq!(
        liveness_timeout(Duration::from_secs(15)),
        Duration::from_millis(7_500)
    );
    assert_eq!(after_probe(Probe::Answered), Some(watchdog_ping()));
    assert_eq!(after_probe(Probe::Failed), None);
    assert_eq!(after_probe(Probe::TimedOut), None);
    assert_eq!(ready().as_str(), "READY=1");
    assert_eq!(stopping().as_str(), "STOPPING=1");
    assert_eq!(watchdog_ping().as_str(), "WATCHDOG=1");
}

#[test]
fn the_bot_stays_home_and_leaves_every_other_guild() {
    let home = DiscordGuildId(10);
    let other = DiscordGuildId(11);
    assert_eq!(disposition(home, home), Disposition::Serve);
    assert_eq!(disposition(other, home), Disposition::Leave);
    for is_new in [Some(true), Some(false), None] {
        assert_eq!(on_guild_create(home, home, is_new), None);
        assert_eq!(on_guild_create(other, home, is_new), Some(other));
    }
    assert!(command_check(Some(home), home));
    assert!(!command_check(Some(other), home));
    assert!(!command_check(None, home));
}

#[test]
fn a_moderator_holds_the_moderator_role() {
    let role = DiscordRoleId(5);
    let held = vec![DiscordRoleId(4), DiscordRoleId(5)];
    let others = vec![DiscordRoleId(4)];
    assert!(invoker_is_moderator(role, Some(&held)));
    assert!(!invoker_is_moderator(role, Some(&others)));
    assert!(!invoker_is_moderator(role, None));
}

#[test]
fn only_a_person_at_home_who_mentions_us_gets_the_reply() {
    let home = DiscordGuildId(10);
    assert_eq!(on_message(false, Some(home), home, true), Some(REPLY));
    assert_eq!(on_message(true, Some(home), home, true), None);
    assert_eq!(on_message(false, Some(DiscordGuildId(9)), home, true), None);
    assert_eq!(on_message(false, None, home, true), None);
    assert_eq!(on_message(false, Some(home), home, false), None);
}

#[test]
fn a_failure_is_answered_the_same_way_whatever_it_was() {
    let discord = on_error(BotError::Serenity, "403 Forbidden".to_owned());
    assert_eq!(
        discord.reply,
        "Something went wrong on my end - please try again in a moment."
    );
    assert_eq!(discord.kind, "serenity");
    assert_eq!(discord.detail.as_deref(), Some("403 Forbidden"));
    let db = on_error(BotError::Db, "row of rosy@example.com".to_owned());
    assert_eq!(db.reply, discord.reply);
    assert_eq!(db.kind, "database");
    assert_eq!(db.detail, None);
    assert_eq!(BotError::Engine.message(), "engine error");
    assert_eq!(BotError::Discord.kind(), "discord");
}

#[test]
fn testing_commands_are_registered_only_on_request() {
    let plain = all(false, false, false);
    assert_eq!(plain.len(), 11);
    assert!(plain.contains(&Command::Reminders { test_send: false }));
    assert!(!plain.contains(&Command::Forget));
    let testing = all(true, true, true);
    assert_eq!(testing.len(), 13);
    assert_eq!(testing[8], Command::Reminders { test_send: true });
    assert_eq!(testing[11..], [Command::Forget, Command::StripRoles]);
}

#[test]
fn the_mock_is_off_unless_asked_for() {
    for off in [None, Some(""), Some("  "), Some("0"), Some(" 0 "), Some("FaLsE")] {
        assert!(!mock_enabled(off), "{off:?}");
    }
    for on in [Some("1"), Some("true"), Some("no")] {
        assert!(mock_enabled(on), "{on:?}");
    }
}

#[test]
fn the_mock_binds_the_authority_of_the_base_url() {
    assert_eq!(
        mock_authority("http://127.0.0.1:9000/v1/users").unwrap(),
        "127.0.0.1:9000"
    );
    assert_eq!(mock_authority("127.0.0.1:9000").unwrap(), "127.0.0.1:9000");
    assert_eq!(
        mock_authority("https://api.example.com/v1").unwrap_err(),
        "SOLIDARITY_TECH_BASE_URL (https://api.example.com/v1) must include an explicit host:port for the mock to bind"
    );
    assert_eq!(mock_address(None, None), Ok(None));
    assert_eq!(
        mock_address(Some("1"), None),
        Err("SOLIDARITY_TECH_MOCK is set but SOLIDARITY_TECH_BASE_URL is not".to_owned())
    );
    assert_eq!(
        mock_address(Some("1"), Some("x://h:1/p")),
        Ok(Some("h:1".to_owned()))
    );
}

#[test]
fn migration_settings_default_to_loopback() {
    assert!(is_migrate(Some("migrate")));
    assert!(!is_migrate(Some("serve")));
    assert!(!is_migrate(None));
    let mut env = MigrateEnv {
        db_name: Some("bot".to_owned()),
        password: Some("pw".to_owned()),
        host: None,
        port: None,
    };
    let target = migrate_target(env.clone()).unwrap();
    assert_eq!(target.host, "127.0.0.1");
    assert_eq!(target.port, 5432);
    env.port = Some("6543".to_owned());
    assert_eq!(migrate_target(env.clone()).unwrap().port, 6543);
    env.port = Some("70000".to_owned());
    assert_eq!(
        migrate_target(env.clone()).unwrap_err(),
        "DB_MIGRATE_PORT must be a u16 port number, got \"70000\""
    );
    assert_eq!(
        bad_port("'x'"),
        "DB_MIGRATE_PORT must be a u16 port number, got 'x'"
    );
    env.password = None;
    assert_eq!(migrate_target(env.clone()).unwrap_err(), NO_PASSWORD);
    env.db_name = None;
    assert_eq!(migrate_target(env).unwrap_err(), NO_DB_NAME);
}

#[test]
fn with_nothing_to_serve_the_start_fails() {
    assert_eq!(serve_roster(true), Ok(()));
    assert_eq!(serve_roster(false), Err(NO_ROSTER));
}

#[test]
fn sign_on_needs_its_roles_when_the_bot_comes_up() {
    assert!(serves_sso(true, true));
    assert!(!serves_sso(true, false));
    assert!(!serves_sso(false, true));
    assert!(!serves_sso(false, false));
}
