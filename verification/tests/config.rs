use botonio_botsci::clock::Duration;
use botonio_botsci::config::{
    parse_accent, parse_lookup_rate, parse_refresh_secs, parse_scan_interval, parse_scan_pace,
    parse_self_verify_rate, parse_tripwire_floor, parse_tripwire_percent, wrong_length, BotConfig,
    BotEnv, ConfigError, DEFAULT_ACCENT, DEFAULT_LOOKUP_RATE, DEFAULT_REFRESH_SECS,
    DEFAULT_SCAN_INTERVAL_SECS, DEFAULT_SCAN_PACE_MS, DEFAULT_SELF_VERIFY_RATE,
    DEFAULT_TRIPWIRE_FLOOR, DEFAULT_TRIPWIRE_PERCENT, MIN_REFRESH_SECS, MIN_SCAN_INTERVAL_SECS,
};
use botonio_botsci::ids::DiscordGuildId;

#[test]
fn parses_accent_color_hex() {
    assert_eq!(parse_accent("#3ba55d").unwrap(), 0x3b_a5_5d);
    assert_eq!(parse_accent("3ba55d").unwrap(), 0x3b_a5_5d);
}

#[test]
fn rejects_bad_accent_color() {
    assert!(parse_accent("nope").is_err());
}

#[test]
fn refresh_interval_falls_back_to_default() {
    let default = Duration::from_secs(DEFAULT_REFRESH_SECS);
    assert_eq!(default, Duration::from_secs(900));
    assert_eq!(parse_refresh_secs(None), default);
    assert_eq!(parse_refresh_secs(Some("300")), Duration::from_secs(300));
    // A garbage value falls back rather than panicking.
    assert_eq!(parse_refresh_secs(Some("xyz")), default);
}

#[test]
fn refresh_interval_clamps_to_minimum() {
    let least = Duration::from_secs(MIN_REFRESH_SECS);
    assert_eq!(least, Duration::from_secs(60));
    assert_eq!(parse_refresh_secs(Some("0")), least);
    assert_eq!(parse_refresh_secs(Some("5")), least);
}

#[test]
fn self_verify_rate_defaults_and_rejects_zero() {
    assert_eq!(DEFAULT_SELF_VERIFY_RATE, 5);
    assert_eq!(parse_self_verify_rate(None), DEFAULT_SELF_VERIFY_RATE);
    assert_eq!(parse_self_verify_rate(Some("0")), DEFAULT_SELF_VERIFY_RATE);
    assert_eq!(parse_self_verify_rate(Some("20")), 20);
}

#[test]
fn lookup_rate_falls_back_and_clamps() {
    assert_eq!(DEFAULT_LOOKUP_RATE, 10);
    assert_eq!(parse_lookup_rate(None), DEFAULT_LOOKUP_RATE);
    assert_eq!(parse_lookup_rate(Some("25")), 25);
    assert_eq!(parse_lookup_rate(Some("xyz")), DEFAULT_LOOKUP_RATE);
    // Zero would refuse every lookup; clamp up to 1.
    assert_eq!(parse_lookup_rate(Some("0")), 1);
}

#[test]
fn scan_interval_defaults_and_clamps() {
    let default = Duration::from_secs(DEFAULT_SCAN_INTERVAL_SECS);
    assert_eq!(default, Duration::from_secs(14_400));
    assert_eq!(parse_scan_interval(None), default);
    assert_eq!(
        parse_scan_interval(Some("28800")),
        Duration::from_secs(28_800)
    );
    assert_eq!(
        parse_scan_interval(Some("0")),
        Duration::from_secs(MIN_SCAN_INTERVAL_SECS)
    );
    assert_eq!(MIN_SCAN_INTERVAL_SECS, 300);
    assert_eq!(parse_scan_interval(Some("xyz")), default);
}

#[test]
fn tripwire_percent_defaults_and_clamps() {
    assert_eq!(DEFAULT_TRIPWIRE_PERCENT, 20);
    assert_eq!(parse_tripwire_percent(None), DEFAULT_TRIPWIRE_PERCENT);
    assert_eq!(parse_tripwire_percent(Some("35")), 35);
    assert_eq!(parse_tripwire_percent(Some("0")), 1);
    assert_eq!(parse_tripwire_percent(Some("250")), 100);
}

#[test]
fn tripwire_floor_and_pace_default() {
    assert_eq!(DEFAULT_TRIPWIRE_FLOOR, 5);
    assert_eq!(parse_tripwire_floor(None), DEFAULT_TRIPWIRE_FLOOR);
    assert_eq!(parse_tripwire_floor(Some("10")), 10);
    assert_eq!(
        parse_scan_pace(None),
        Duration::from_millis(DEFAULT_SCAN_PACE_MS)
    );
    assert_eq!(DEFAULT_SCAN_PACE_MS, 250);
    assert_eq!(parse_scan_pace(Some("500")), Duration::from_millis(500));
}

#[test]
fn a_percentage_above_a_hundred_is_a_hundred_however_large() {
    assert_eq!(parse_tripwire_percent(Some("100")), 100);
    assert_eq!(parse_tripwire_percent(Some("101")), 100);
    assert_eq!(parse_tripwire_percent(Some("300")), 100);
    assert_eq!(
        parse_tripwire_percent(Some("99999999999999999999999999999999999999999999")),
        100
    );
    assert_eq!(parse_tripwire_percent(Some("+300")), 100);
    assert_eq!(parse_tripwire_percent(Some("000")), 1);
    for no_number in ["", "+", "300x", "x", " 30"] {
        assert_eq!(parse_tripwire_percent(Some(no_number)), DEFAULT_TRIPWIRE_PERCENT);
    }
}

#[test]
fn a_sign_is_no_hex_digit() {
    for s in ["+12345", "#+12345", "-12345"] {
        assert_eq!(parse_accent(s).unwrap_err(), "invalid digit found in string");
    }
    assert!(parse_accent("##12345").is_err());
    assert!(parse_accent("+123456").is_err());
    assert_eq!(parse_accent("#FFffFF"), Ok(0xff_ff_ff));
    assert_eq!(parse_accent("012345"), Ok(0x01_23_45));
}

#[test]
fn a_self_verify_rate_may_stand_in_blanks_but_a_lookup_rate_may_not() {
    assert_eq!(parse_self_verify_rate(Some(" 7 ")), 7);
    assert_eq!(parse_lookup_rate(Some(" 7 ")), DEFAULT_LOOKUP_RATE);
}

#[test]
fn accent_errors_say_what_was_wrong() {
    assert_eq!(
        parse_accent("#12\"").unwrap_err(),
        "expected 6 hex digits, got \"#12\\\"\""
    );
    assert_eq!(wrong_length("'x'"), "expected 6 hex digits, got 'x'");
    assert_eq!(
        parse_accent("12345g").unwrap_err(),
        "invalid digit found in string"
    );
    // Six bytes, though only three characters.
    assert_eq!(
        parse_accent("\u{e9}\u{e9}\u{e9}").unwrap_err(),
        "invalid digit found in string"
    );
}

fn env() -> BotEnv {
    BotEnv {
        discord_bot_token: Some("token".to_owned()),
        discord_guild_id: Some("42".to_owned()),
        bot_accent_color: None,
        bot_index_refresh_secs: None,
        solidarity_tech_discord_list_id: Some("list".to_owned()),
        db_runtime_dsn: Some("dsn".to_owned()),
        audit_hash_key: Some("key".to_owned()),
        audit_key_id: None,
        bot_lookup_rate_per_min: None,
        bot_self_verify_rate_per_min: None,
        bot_scan_interval_secs: None,
        bot_scan_tripwire_percent: Some("35".to_owned()),
        bot_scan_tripwire_floor: None,
        bot_scan_pace_ms: None,
    }
}

#[test]
fn a_bare_environment_gets_every_default() {
    let cfg = BotConfig::from_env(env()).unwrap();
    assert_eq!(cfg.token, "token");
    assert_eq!(cfg.guild(), DiscordGuildId(42));
    assert_eq!(cfg.accent_color, DEFAULT_ACCENT);
    assert_eq!(cfg.accent_color, 0xc8_10_2e);
    assert_eq!(cfg.refresh_interval, Duration::from_secs(900));
    assert_eq!(cfg.discord_list_id, "list");
    assert_eq!(cfg.db_runtime_dsn, "dsn");
    assert_eq!(cfg.audit_hash_key, "key");
    assert_eq!(cfg.audit_key_id, "v1");
    assert_eq!(cfg.lookup_rate_per_min, 10);
    assert_eq!(cfg.self_verify_rate_per_min, 5);
    assert_eq!(cfg.scan_interval, Duration::from_secs(14_400));
    assert_eq!(cfg.scan_tripwire_percent, 35);
    assert_eq!(cfg.scan_tripwire_floor, 5);
    assert_eq!(cfg.scan_pace, Duration::from_millis(250));
}

#[test]
fn each_missing_setting_is_named_in_order() {
    let mut e = env();
    e.audit_hash_key = None;
    let missing = |e: &BotEnv| BotConfig::from_env(e.clone()).unwrap_err();
    assert_eq!(missing(&e), ConfigError::Missing("AUDIT_HASH_KEY"));
    e.db_runtime_dsn = None;
    assert_eq!(missing(&e), ConfigError::Missing("DB_RUNTIME_DSN"));
    e.solidarity_tech_discord_list_id = None;
    assert_eq!(
        missing(&e),
        ConfigError::Missing("SOLIDARITY_TECH_DISCORD_LIST_ID")
    );
    e.bot_accent_color = Some("12345g".to_owned());
    assert_eq!(
        missing(&e).message(),
        "invalid BOT_ACCENT_COLOR: invalid digit found in string"
    );
    e.discord_guild_id = Some("home".to_owned());
    assert_eq!(
        missing(&e),
        ConfigError::Invalid("DISCORD_GUILD_ID", "not a u64".to_owned())
    );
    e.discord_guild_id = None;
    assert_eq!(missing(&e), ConfigError::Missing("DISCORD_GUILD_ID"));
    e.discord_bot_token = None;
    assert_eq!(
        missing(&e).message(),
        "missing env var: DISCORD_BOT_TOKEN"
    );
}
