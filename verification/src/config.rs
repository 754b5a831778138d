//! Bot configuration: every setting with its default, its floor and its errors, from the
//! values the environment holds.

use vstd::prelude::*;

use crate::clock::Duration;
use crate::ids::DiscordGuildId;
use crate::migs_status::quote;
use crate::text::{chars_of, parse_capped, parse_digits, parse_unsigned, trim, IntError};
use crate::ui::as_opt_str;

#[allow(unused_imports)]
use crate::clock::{NANOS_PER_MILLI, NANOS_PER_SEC};
#[allow(unused_imports)]
use crate::migs_status::quoted;
#[allow(unused_imports)]
use crate::text::{all_digits, any_number, digit_value, positional, trimmed, unsigned_value};
#[allow(unused_imports)]
use crate::ui::{opt_str_view, opt_view};

#[allow(unused_imports)]
use crate::text::{decimal, law_number_round_trips};

verus! {

/// Seconds between refreshes of the member index where none are set.
pub const DEFAULT_REFRESH_SECS: u64 = 900;

/// The fewest seconds between refreshes: more than one a minute would hammer the source.
pub const MIN_REFRESH_SECS: u64 = 60;

/// Lookups of other members per moderator per minute where none are set.
pub const DEFAULT_LOOKUP_RATE: u32 = 10;

/// Self-service attempts per member per minute where none are set.
pub const DEFAULT_SELF_VERIFY_RATE: u32 = 5;

/// Seconds between scheduled scans where none are set: four hours, as often as the source
/// itself syncs.
pub const DEFAULT_SCAN_INTERVAL_SECS: u64 = 14_400;

/// The fewest seconds between scheduled scans.
pub const MIN_SCAN_INTERVAL_SECS: u64 = 300;

pub const DEFAULT_TRIPWIRE_PERCENT: u8 = 20;

pub const DEFAULT_TRIPWIRE_FLOOR: usize = 5;

/// Milliseconds between role writes of a scan where none are set.
pub const DEFAULT_SCAN_PACE_MS: u64 = 250;

/// The accent where none is set.
pub const DEFAULT_ACCENT: u32 = 0xc8_10_2e;

/// Everything that can go wrong reading the configuration.
#[derive(Debug, Clone, PartialEq, Eq)]
pub enum ConfigError {
    Missing(&'static str),
    Invalid(&'static str, String),
}

/// What a configuration error says.
pub enum ConfigErrorView {
    Missing(Seq<char>),
    Invalid(Seq<char>, Seq<char>),
}

impl View for ConfigError {
    type V = ConfigErrorView;

    open spec fn view(&self) -> ConfigErrorView {
        match *self {
            ConfigError::Missing(name) => ConfigErrorView::Missing(name@),
            ConfigError::Invalid(name, why) => ConfigErrorView::Invalid(name@, why@),
        }
    }
}

impl ConfigError {
    /// The error as a line of text.
    pub fn message(&self) -> (r: String)
        ensures
            r@ == (match self@ {
                ConfigErrorView::Missing(name) => "missing env var: "@ + name,
                ConfigErrorView::Invalid(name, why) => "invalid "@ + name + ": "@ + why,
            }),
    {
        match self {
            ConfigError::Missing(name) => "missing env var: ".to_owned().concat(*name),
            ConfigError::Invalid(name, why) => "invalid ".to_owned().concat(*name).concat(
                ": ",
            ).concat(why.as_str()),
        }
    }
}

/// A colour's text without its `#`.
pub open spec fn without_hash(s: Seq<char>) -> Seq<char> {
    if s.len() > 0 && s[0] == '#' {
        s.drop_first()
    } else {
        s
    }
}

/// Why a text of the wrong length is no colour, given its quoted form.
pub open spec fn wrong_length_words(quoted_text: Seq<char>) -> Seq<char> {
    "expected 6 hex digits, got "@ + quoted_text
}

/// The colour a text denotes: six hex digits, with or without a `#` before them. A text of
/// another length in bytes is refused for that, and any other for a character that is no
/// digit.
pub open spec fn accent_value(s: Seq<char>) -> Result<u32, Seq<char>> {
    let hex = without_hash(s);
    if hex.len() == 6 && all_digits(hex, 16) {
        Ok(positional(hex, 16) as u32)
    } else if vstd::utf8::encode_utf8(hex).len() != 6 {
        Err(wrong_length_words(quoted(s)))
    } else {
        Err(IntError::InvalidDigit.words())
    }
}

/// Six hex digits stay below the seventh.
proof fn lemma_six_hex_digits(s: Seq<char>)
    requires
        s.len() == 6,
        all_digits(s, 16),
    ensures
        positional(s, 16) <= 0xff_ff_ff,
{
    reveal_with_fuel(positional, 7);
    assert(digit_value(s[5], 16) is Some && digit_value(s[4], 16) is Some);
    assert(digit_value(s[3], 16) is Some && digit_value(s[2], 16) is Some);
    assert(digit_value(s[1], 16) is Some && digit_value(s[0], 16) is Some);
}

/// Say why a text of the wrong length is no colour.
pub fn wrong_length(quoted_text: &str) -> (r: String)
    ensures
        r@ == wrong_length_words(quoted_text@),
{
    "expected 6 hex digits, got ".to_owned().concat(quoted_text)
}

/// Parse `#rrggbb` or `rrggbb` into a 0xRRGGBB integer.
pub fn parse_accent(s: &str) -> (r: Result<u32, String>)
    ensures
        (match r {
            Ok(v) => accent_value(s@) == Ok::<u32, Seq<char>>(v),
            Err(why) => accent_value(s@) == Err::<u32, Seq<char>>(why@),
        }),
{
    let n: usize = s.unicode_len();
    let hex = if n > 0 && s.get_char(0) == '#' {
        s.substring_char(1, n)
    } else {
        s
    };
    assert(hex@ =~= without_hash(s@));
    let cs = chars_of(hex);
    assert(cs@.skip(0) =~= hex@);
    if cs.len() == 6 {
        if let Some(v) = parse_digits(&cs, 0, 16, 0xff_ff_ff) {
            proof {
                lemma_six_hex_digits(hex@);
            }
            return Ok(v as u32);
        }
    }
    if hex.as_bytes().len() != 6 {
        return Err(wrong_length(quote(s).as_str()));
    }
    Err(IntError::InvalidDigit.message().to_owned())
}

/// The number a setting holds, where it is set and is one.
pub open spec fn setting(raw: Option<Seq<char>>, max: nat) -> Option<nat> {
    match raw {
        Some(s) => match unsigned_value(s, 10, max) {
            Ok(v) => Some(v),
            Err(_) => None,
        },
        None => None,
    }
}

/// The number a setting holds, or this where it holds none.
pub open spec fn setting_or(raw: Option<Seq<char>>, max: nat, default: nat) -> nat {
    match setting(raw, max) {
        Some(v) => v,
        None => default,
    }
}

pub(crate) fn read_number(raw: Option<&str>, max: u64, default: u64) -> (r: u64)
    requires
        default <= max,
    ensures
        r == setting_or(opt_str_view(raw), max as nat, default as nat),
        r <= max,
{
    match raw {
        Some(s) => match parse_unsigned(s, 10, max) {
            Ok(v) => v,
            Err(_) => default,
        },
        None => default,
    }
}

/// At least this.
pub open spec fn at_least(n: nat, floor: nat) -> nat {
    if n < floor {
        floor
    } else {
        n
    }
}

/// The per-member ceiling on self-service attempts: anything but a positive number falls
/// back to the default.
pub fn parse_self_verify_rate(raw: Option<&str>) -> (r: u32)
    ensures
        r == (match raw {
            Some(s) => match unsigned_value(trimmed(s@), 10, u32::MAX as nat) {
                Ok(v) => if v > 0 {
                    v
                } else {
                    DEFAULT_SELF_VERIFY_RATE as nat
                },
                Err(_) => DEFAULT_SELF_VERIFY_RATE as nat,
            },
            None => DEFAULT_SELF_VERIFY_RATE as nat,
        }),
{
    match raw {
        Some(s) => match parse_unsigned(trim(s), 10, 0xffff_ffff) {
            Ok(v) => {
                if v > 0 {
                    v as u32
                } else {
                    DEFAULT_SELF_VERIFY_RATE
                }
            },
            Err(_) => DEFAULT_SELF_VERIFY_RATE,
        },
        None => DEFAULT_SELF_VERIFY_RATE,
    }
}

/// The per-minute lookup ceiling. Zero is raised to one: a ceiling of zero would refuse
/// every lookup, which is never the intent of setting it.
pub fn parse_lookup_rate(raw: Option<&str>) -> (r: u32)
    ensures
        r == at_least(
            setting_or(opt_str_view(raw), u32::MAX as nat, DEFAULT_LOOKUP_RATE as nat),
            1,
        ),
{
    let n: u64 = read_number(raw, 0xffff_ffff, DEFAULT_LOOKUP_RATE as u64);
    if n < 1 {
        1
    } else {
        n as u32
    }
}

fn read_secs(raw: Option<&str>, default: u64, floor: u64) -> (r: Duration)
    ensures
        r.nanos == at_least(
            setting_or(opt_str_view(raw), u64::MAX as nat, default as nat),
            floor as nat,
        ) * NANOS_PER_SEC,
{
    let n: u64 = read_number(raw, u64::MAX, default);
    Duration::from_secs(
        if n < floor {
            floor
        } else {
            n
        },
    )
}

/// How often to refresh the member index.
pub fn parse_refresh_secs(raw: Option<&str>) -> (r: Duration)
    ensures
        r.nanos == at_least(
            setting_or(opt_str_view(raw), u64::MAX as nat, DEFAULT_REFRESH_SECS as nat),
            MIN_REFRESH_SECS as nat,
        ) * NANOS_PER_SEC,
{
    read_secs(raw, DEFAULT_REFRESH_SECS, MIN_REFRESH_SECS)
}

/// How often to scan.
pub fn parse_scan_interval(raw: Option<&str>) -> (r: Duration)
    ensures
        r.nanos == at_least(
            setting_or(opt_str_view(raw), u64::MAX as nat, DEFAULT_SCAN_INTERVAL_SECS as nat),
            MIN_SCAN_INTERVAL_SECS as nat,
        ) * NANOS_PER_SEC,
{
    read_secs(raw, DEFAULT_SCAN_INTERVAL_SECS, MIN_SCAN_INTERVAL_SECS)
}

/// The tripwire percentage, between one and a hundred: zero would abort on a single
/// demotion, and more than a hundred, however much more, could never trip. A text that is no
/// number falls back to the default.
pub open spec fn percent_of(raw: Option<Seq<char>>) -> nat {
    match raw {
        Some(s) => match any_number(s) {
            Some(n) => if n < 1 {
                1
            } else if n > 100 {
                100
            } else {
                n
            },
            None => DEFAULT_TRIPWIRE_PERCENT as nat,
        },
        None => DEFAULT_TRIPWIRE_PERCENT as nat,
    }
}

/// Parse the tripwire percentage.
pub fn parse_tripwire_percent(raw: Option<&str>) -> (r: u8)
    ensures
        r == percent_of(opt_str_view(raw)),
{
    match raw {
        Some(s) => match parse_capped(s, 100) {
            Some(n) => {
                if n < 1 {
                    1
                } else {
                    n as u8
                }
            },
            None => DEFAULT_TRIPWIRE_PERCENT,
        },
        None => DEFAULT_TRIPWIRE_PERCENT,
    }
}

/// Parse the tripwire's floor.
pub fn parse_tripwire_floor(raw: Option<&str>) -> (r: usize)
    ensures
        r == setting_or(opt_str_view(raw), usize::MAX as nat, DEFAULT_TRIPWIRE_FLOOR as nat),
{
    read_number(raw, usize::MAX as u64, DEFAULT_TRIPWIRE_FLOOR as u64) as usize
}

/// Parse the pause between role writes.
pub fn parse_scan_pace(raw: Option<&str>) -> (r: Duration)
    ensures
        r.nanos == setting_or(opt_str_view(raw), u64::MAX as nat, DEFAULT_SCAN_PACE_MS as nat)
            * NANOS_PER_MILLI,
{
    Duration::from_millis(read_number(raw, u64::MAX, DEFAULT_SCAN_PACE_MS))
}

/// The values the environment and the credential store hold, each absent where unset.
#[derive(Debug, Clone, PartialEq, Eq)]
pub struct BotEnv {
    pub discord_bot_token: Option<String>,
    pub discord_guild_id: Option<String>,
    pub bot_accent_color: Option<String>,
    pub bot_index_refresh_secs: Option<String>,
    pub solidarity_tech_discord_list_id: Option<String>,
    pub db_runtime_dsn: Option<String>,
    pub audit_hash_key: Option<String>,
    pub audit_key_id: Option<String>,
    pub bot_lookup_rate_per_min: Option<String>,
    pub bot_self_verify_rate_per_min: Option<String>,
    pub bot_scan_interval_secs: Option<String>,
    pub bot_scan_tripwire_percent: Option<String>,
    pub bot_scan_tripwire_floor: Option<String>,
    pub bot_scan_pace_ms: Option<String>,
}

/// Validated bot configuration.
#[derive(Debug, Clone, PartialEq, Eq)]
pub struct BotConfig {
    /// The Discord bot token, for the gateway connection.
    pub token: String,
    /// The guild the bot serves.
    pub guild_id: u64,
    /// Embed accent as a 0xRRGGBB integer.
    pub accent_color: u32,
    /// How often to rebuild the member index.
    pub refresh_interval: Duration,
    /// The source's user list whose members form the index.
    pub discord_list_id: String,
    /// The runtime database connection string.
    pub db_runtime_dsn: String,
    /// The key for hashing the ids written to the audit log.
    pub audit_hash_key: String,
    /// Names that key, so it can be rotated.
    pub audit_key_id: String,
    /// Per-moderator ceiling on lookups of other members, per minute.
    pub lookup_rate_per_min: u32,
    /// Per-member ceiling on self-service attempts, per minute.
    pub self_verify_rate_per_min: u32,
    /// How often the scheduled scan runs.
    pub scan_interval: Duration,
    /// Abort a scan when demotions reach this percentage of those scanned...
    pub scan_tripwire_percent: u8,
    /// ...and this many.
    pub scan_tripwire_floor: usize,
    /// Pause between role writes during a scan.
    pub scan_pace: Duration,
}

/// The first problem that keeps the environment from being a configuration, in the order
/// the settings are read.
pub open spec fn first_problem(env: BotEnv) -> Option<ConfigErrorView> {
    if env.discord_bot_token is None {
        Some(ConfigErrorView::Missing("DISCORD_BOT_TOKEN"@))
    } else if env.discord_guild_id is None {
        Some(ConfigErrorView::Missing("DISCORD_GUILD_ID"@))
    } else if setting(opt_view(env.discord_guild_id), u64::MAX as nat) is None {
        Some(ConfigErrorView::Invalid("DISCORD_GUILD_ID"@, "not a u64"@))
    } else if env.bot_accent_color is Some && accent_value(env.bot_accent_color->0@) is Err {
        Some(
            ConfigErrorView::Invalid(
                "BOT_ACCENT_COLOR"@,
                accent_value(env.bot_accent_color->0@)->Err_0,
            ),
        )
    } else if env.solidarity_tech_discord_list_id is None {
        Some(ConfigErrorView::Missing("SOLIDARITY_TECH_DISCORD_LIST_ID"@))
    } else if env.db_runtime_dsn is None {
        Some(ConfigErrorView::Missing("DB_RUNTIME_DSN"@))
    } else if env.audit_hash_key is None {
        Some(ConfigErrorView::Missing("AUDIT_HASH_KEY"@))
    } else {
        None
    }
}

/// Whether a configuration says what the environment does.
pub open spec fn configures(cfg: BotConfig, env: BotEnv) -> bool {
    &&& env.discord_bot_token == Some(cfg.token)
    &&& setting(opt_view(env.discord_guild_id), u64::MAX as nat) == Some(cfg.guild_id as nat)
    &&& cfg.accent_color == (match env.bot_accent_color {
        Some(s) => accent_value(s@)->Ok_0,
        None => DEFAULT_ACCENT,
    })
    &&& cfg.refresh_interval.nanos == at_least(
        setting_or(
            opt_view(env.bot_index_refresh_secs),
            u64::MAX as nat,
            DEFAULT_REFRESH_SECS as nat,
        ),
        MIN_REFRESH_SECS as nat,
    ) * NANOS_PER_SEC
    &&& env.solidarity_tech_discord_list_id == Some(cfg.discord_list_id)
    &&& env.db_runtime_dsn == Some(cfg.db_runtime_dsn)
    &&& env.audit_hash_key == Some(cfg.audit_hash_key)
    &&& cfg.audit_key_id@ == (match env.audit_key_id {
        Some(s) => s@,
        None => "v1"@,
    })
    &&& cfg.lookup_rate_per_min == at_least(
        setting_or(
            opt_view(env.bot_lookup_rate_per_min),
            u32::MAX as nat,
            DEFAULT_LOOKUP_RATE as nat,
        ),
        1,
    )
    &&& cfg.self_verify_rate_per_min == (match env.bot_self_verify_rate_per_min {
        Some(s) => match unsigned_value(trimmed(s@), 10, u32::MAX as nat) {
            Ok(v) => if v > 0 {
                v
            } else {
                DEFAULT_SELF_VERIFY_RATE as nat
            },
            Err(_) => DEFAULT_SELF_VERIFY_RATE as nat,
        },
        None => DEFAULT_SELF_VERIFY_RATE as nat,
    })
    &&& cfg.scan_interval.nanos == at_least(
        setting_or(
            opt_view(env.bot_scan_interval_secs),
            u64::MAX as nat,
            DEFAULT_SCAN_INTERVAL_SECS as nat,
        ),
        MIN_SCAN_INTERVAL_SECS as nat,
    ) * NANOS_PER_SEC
    &&& cfg.scan_tripwire_percent == percent_of(opt_view(env.bot_scan_tripwire_percent))
    &&& cfg.scan_tripwire_floor == setting_or(
        opt_view(env.bot_scan_tripwire_floor),
        usize::MAX as nat,
        DEFAULT_TRIPWIRE_FLOOR as nat,
    )
    &&& cfg.scan_pace.nanos == setting_or(
        opt_view(env.bot_scan_pace_ms),
        u64::MAX as nat,
        DEFAULT_SCAN_PACE_MS as nat,
    ) * NANOS_PER_MILLI
}

fn read(value: Option<String>, key: &'static str) -> (r: Result<String, ConfigError>)
    ensures
        (match value {
            Some(s) => r == Ok::<String, ConfigError>(s),
            None => r matches Err(e) && e@ == ConfigErrorView::Missing(key@),
        }),
{
    match value {
        Some(s) => Ok(s),
        None => Err(ConfigError::Missing(key)),
    }
}

impl BotConfig {
    /// Validate what the environment holds. The settings are read in order, and the first
    /// problem is the one reported.
    pub fn from_env(env: BotEnv) -> (r: Result<BotConfig, ConfigError>)
        ensures
            (match r {
                Ok(cfg) => first_problem(env) is None && configures(cfg, env),
                Err(e) => first_problem(env) == Some(e@),
            }),
    {
        let token = match read(env.discord_bot_token, "DISCORD_BOT_TOKEN") {
            Ok(s) => s,
            Err(e) => {
                return Err(e);
            },
        };
        let guild = match read(env.discord_guild_id, "DISCORD_GUILD_ID") {
            Ok(s) => s,
            Err(e) => {
                return Err(e);
            },
        };
        let guild_id: u64 = match parse_unsigned(guild.as_str(), 10, u64::MAX) {
            Ok(v) => v,
            Err(_) => {
                return Err(ConfigError::Invalid("DISCORD_GUILD_ID", "not a u64".to_owned()));
            },
        };
        let accent_color: u32 = match &env.bot_accent_color {
            Some(s) => match parse_accent(s.as_str()) {
                Ok(v) => v,
                Err(why) => {
                    return Err(ConfigError::Invalid("BOT_ACCENT_COLOR", why));
                },
            },
            None => DEFAULT_ACCENT,
        };
        let discord_list_id = match read(
            env.solidarity_tech_discord_list_id,
            "SOLIDARITY_TECH_DISCORD_LIST_ID",
        ) {
            Ok(s) => s,
            Err(e) => {
                return Err(e);
            },
        };
        let db_runtime_dsn = match read(env.db_runtime_dsn, "DB_RUNTIME_DSN") {
            Ok(s) => s,
            Err(e) => {
                return Err(e);
            },
        };
        let audit_hash_key = match read(env.audit_hash_key, "AUDIT_HASH_KEY") {
            Ok(s) => s,
            Err(e) => {
                return Err(e);
            },
        };
        let audit_key_id = match env.audit_key_id {
            Some(s) => s,
            None => "v1".to_owned(),
        };
        Ok(
            BotConfig {
                token,
                guild_id,
                accent_color,
                refresh_interval: parse_refresh_secs(as_opt_str(&env.bot_index_refresh_secs)),
                discord_list_id,
                db_runtime_dsn,
                audit_hash_key,
                audit_key_id,
                lookup_rate_per_min: parse_lookup_rate(as_opt_str(&env.bot_lookup_rate_per_min)),
                self_verify_rate_per_min: parse_self_verify_rate(
                    as_opt_str(&env.bot_self_verify_rate_per_min),
                ),
                scan_interval: parse_scan_interval(as_opt_str(&env.bot_scan_interval_secs)),
                scan_tripwire_percent: parse_tripwire_percent(
                    as_opt_str(&env.bot_scan_tripwire_percent),
                ),
                scan_tripwire_floor: parse_tripwire_floor(as_opt_str(&env.bot_scan_tripwire_floor)),
                scan_pace: parse_scan_pace(as_opt_str(&env.bot_scan_pace_ms)),
            },
        )
    }

    /// The home guild as a typed id.
    pub fn guild(&self) -> (r: DiscordGuildId)
        ensures
            r.0 == self.guild_id,
    {
        DiscordGuildId(self.guild_id)
    }
}

/// Whatever the environment holds, the intervals never fall under their floors, no ceiling
/// is zero, and the tripwire percentage can both trip and not trip.
pub proof fn law_settings_stay_in_range(cfg: BotConfig, env: BotEnv)
    requires
        configures(cfg, env),
    ensures
        cfg.refresh_interval.nanos >= MIN_REFRESH_SECS * NANOS_PER_SEC,
        cfg.scan_interval.nanos >= MIN_SCAN_INTERVAL_SECS * NANOS_PER_SEC,
        cfg.lookup_rate_per_min >= 1,
        cfg.self_verify_rate_per_min >= 1,
        1 <= cfg.scan_tripwire_percent <= 100,
{
}

/// Every setting of the bot is read from its own place: what must be there is taken as it
/// is, and a number that is absent or is none stands at its default, within its bounds.
pub proof fn law_settings_come_from_their_places(env: BotEnv, r: Result<BotConfig, ConfigError>)
    requires
        call_ensures(BotConfig::from_env, (env,), r),
    ensures
        r is Ok <==> env.discord_bot_token is Some && env.discord_guild_id is Some && setting(
            opt_view(env.discord_guild_id),
            u64::MAX as nat,
        ) is Some && (env.bot_accent_color is Some ==> accent_value(
            env.bot_accent_color->0@,
        ) is Ok) && env.solidarity_tech_discord_list_id is Some && env.db_runtime_dsn is Some
            && env.audit_hash_key is Some,
        (r matches Ok(cfg) ==> {
            &&& env.discord_bot_token == Some(cfg.token)
            &&& setting(opt_view(env.discord_guild_id), u64::MAX as nat) == Some(
                cfg.guild_id as nat,
            )
            &&& env.solidarity_tech_discord_list_id == Some(cfg.discord_list_id)
            &&& env.db_runtime_dsn == Some(cfg.db_runtime_dsn)
            &&& env.audit_hash_key == Some(cfg.audit_hash_key)
            &&& (env.audit_key_id matches Some(v) ==> cfg.audit_key_id@ == v@)
            &&& env.audit_key_id is None ==> cfg.audit_key_id@ == "v1"@
            &&& (env.bot_accent_color matches Some(v) ==> accent_value(v@) == Ok::<u32, Seq<char>>(
                cfg.accent_color,
            ))
            &&& env.bot_accent_color is None ==> cfg.accent_color == 0xc8102e
            &&& env.bot_index_refresh_secs is None ==> cfg.refresh_interval.nanos
                == 900_000_000_000
            &&& (setting(opt_view(env.bot_index_refresh_secs), u64::MAX as nat) matches Some(n)
                ==> cfg.refresh_interval.nanos == (if n < 60 {
                60
            } else {
                n
            }) * 1_000_000_000)
            &&& env.bot_lookup_rate_per_min is None ==> cfg.lookup_rate_per_min == 10
            &&& (setting(opt_view(env.bot_lookup_rate_per_min), u32::MAX as nat) matches Some(n)
                ==> cfg.lookup_rate_per_min == if n == 0 {
                1
            } else {
                n
            })
            &&& env.bot_self_verify_rate_per_min is None ==> cfg.self_verify_rate_per_min == 5
            &&& env.bot_scan_interval_secs is None ==> cfg.scan_interval.nanos
                == 14_400_000_000_000
            &&& (setting(opt_view(env.bot_scan_interval_secs), u64::MAX as nat) matches Some(n)
                ==> cfg.scan_interval.nanos == (if n < 300 {
                300
            } else {
                n
            }) * 1_000_000_000)
            &&& env.bot_scan_tripwire_percent is None ==> cfg.scan_tripwire_percent == 20
            &&& env.bot_scan_tripwire_floor is None ==> cfg.scan_tripwire_floor == 5
            &&& (setting(opt_view(env.bot_scan_tripwire_floor), usize::MAX as nat) matches Some(n)
                ==> cfg.scan_tripwire_floor == n)
            &&& env.bot_scan_pace_ms is None ==> cfg.scan_pace.nanos == 250_000_000
            &&& (setting(opt_view(env.bot_scan_pace_ms), u64::MAX as nat) matches Some(n)
                ==> cfg.scan_pace.nanos == n * 1_000_000)
        }),
{
}

/// The first setting that is missing or unusable, in the order they are read, is the one
/// reported, under its own name.
pub proof fn law_the_first_problem_is_reported(env: BotEnv, r: Result<BotConfig, ConfigError>)
    requires
        call_ensures(BotConfig::from_env, (env,), r),
    ensures
        env.discord_bot_token is None ==> (r matches Err(e) && e@ == ConfigErrorView::Missing(
            "DISCORD_BOT_TOKEN"@,
        )),
        env.discord_bot_token is Some && env.discord_guild_id is None ==> (r matches Err(e) && e@
            == ConfigErrorView::Missing("DISCORD_GUILD_ID"@)),
        env.discord_bot_token is Some && env.discord_guild_id is Some && setting(
            opt_view(env.discord_guild_id),
            u64::MAX as nat,
        ) is None ==> (r matches Err(e) && e@ == ConfigErrorView::Invalid(
            "DISCORD_GUILD_ID"@,
            "not a u64"@,
        )),
        (r matches Err(e) ==> (e@ == ConfigErrorView::Missing("SOLIDARITY_TECH_DISCORD_LIST_ID"@)
            ==> env.solidarity_tech_discord_list_id is None)),
{
    reveal_strlit("DISCORD_BOT_TOKEN");
    reveal_strlit("DISCORD_GUILD_ID");
    reveal_strlit("SOLIDARITY_TECH_DISCORD_LIST_ID");
    reveal_strlit("DB_RUNTIME_DSN");
    reveal_strlit("AUDIT_HASH_KEY");
    assert("DISCORD_BOT_TOKEN"@[0] == 'D' && "DISCORD_GUILD_ID"@[0] == 'D'
        && "SOLIDARITY_TECH_DISCORD_LIST_ID"@[0] == 'S' && "DB_RUNTIME_DSN"@[0] == 'D'
        && "AUDIT_HASH_KEY"@[0] == 'A');
}

/// A configuration error is told under the name of its setting.
pub proof fn law_config_errors_name_their_setting(error: &ConfigError, r: String)
    requires
        call_ensures(ConfigError::message, (error,), r),
    ensures
        (*error matches ConfigError::Missing(name) ==> r@ == "missing env var: "@ + name@),
        (*error matches ConfigError::Invalid(name, why) ==> r@ == "invalid "@ + name@ + ": "@
            + why@),
{
}

/// Six hex digits are a colour, with a `#` before them or not, and the colour is their value.
pub proof fn law_six_hex_digits_are_a_colour(hex: Seq<char>)
    requires
        hex.len() == 6,
        all_digits(hex, 16),
    ensures
        accent_value(hex) == Ok::<u32, Seq<char>>(positional(hex, 16) as u32),
        accent_value(seq!['#'] + hex) == Ok::<u32, Seq<char>>(positional(hex, 16) as u32),
        positional(hex, 16) <= 0xffffff,
{
    lemma_six_hex_digits(hex);
    assert((seq!['#'] + hex).drop_first() =~= hex);
    if hex[0] == '#' {
        assert(all_digits(hex, 16));
    }
}

/// The tripwire's percentage is the number set, kept between one and a hundred.
pub proof fn law_the_percentage_is_kept_in_bounds(raw: Seq<char>)
    ensures
        (any_number(raw) matches Some(n) ==> percent_of(Some(raw)) == (if n == 0 {
            1
        } else if n > 100 {
            100
        } else {
            n
        })),
        any_number(raw) is None ==> percent_of(Some(raw)) == 20,
        percent_of(None) == 20,
{
}

/// The self-service ceiling is the positive number set, blanks around it aside, and five
/// where there is none.
pub proof fn law_the_self_service_ceiling_is_positive(raw: Option<&str>, r: u32)
    requires
        call_ensures(parse_self_verify_rate, (raw,), r),
    ensures
        r > 0,
        raw is None ==> r == 5,
        raw is Some ==> (match unsigned_value(trimmed(raw->0@), 10, u32::MAX as nat) {
            Ok(n) => r == (if n == 0 {
                5
            } else {
                n
            }),
            Err(_) => r == 5,
        }),
{
}

/// A number that is set and fits is read as itself; one that does not fit is as good as none.
pub proof fn law_a_set_number_is_read_as_itself(n: nat, max: nat, default: nat)
    ensures
        n <= max ==> setting(Some(decimal(n)), max) == Some(n),
        n <= max ==> setting_or(Some(decimal(n)), max, default) == n,
        setting(None, max) is None,
        setting_or(None, max, default) == default,
        at_least(n, default) >= default && at_least(n, default) >= n,
        at_least(n, default) == n || at_least(n, default) == default,
{
    if n <= max {
        law_number_round_trips(n, max);
    }
}

/// A text that is no colour is refused for its length where that is wrong, quoting it, and
/// for a character otherwise.
pub proof fn law_a_bad_colour_is_refused_with_a_reason(s: Seq<char>)
    ensures
        (accent_value(s) matches Err(why) ==> why == "expected 6 hex digits, got "@ + quoted(s)
            || why == "invalid digit found in string"@),
        s.len() == 0 ==> accent_value(s) == Err::<u32, Seq<char>>(
            "expected 6 hex digits, got "@ + quoted(s),
        ),
{
    if s.len() == 0 {
        assert(vstd::utf8::encode_utf8(s).len() == 0);
    }
}

} // verus!
