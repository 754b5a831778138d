//! Deploy-time settings of the sign-in broker, and its secrets. Every error leaves the
//! endpoint unbound rather than bound unprotected.

use vstd::prelude::*;

use pasetors::keys::AsymmetricSecretKey;
use pasetors::version4::V4;

use crate::clock::Duration;
use crate::config::read_number;
use crate::sso::assertion::{hex_decode, key_from};
use crate::text::{parse_unsigned, same, trim};
use crate::ui::as_opt_str;

#[allow(unused_imports)]
use crate::clock::NANOS_PER_SEC;
#[allow(unused_imports)]
use crate::config::setting_or;
#[allow(unused_imports)]
use crate::sso::assertion::{has_zero_seed, hex_bytes, is_v4_key, key_bytes};
#[allow(unused_imports)]
use crate::text::{digits_value, trimmed, unsigned_value};
#[allow(unused_imports)]
use crate::ui::{opt_str_view, opt_view};

#[allow(unused_imports)]
use crate::config::setting;
#[allow(unused_imports)]
use crate::text::{decimal, law_number_round_trips, lemma_decimal_is_digits};

verus! {

pub const DEFAULT_SOCKET_PATH: &'static str = "/run/botonio/sso.sock";

pub const DEFAULT_AUDIENCE: &'static str = "workspace-sync";

/// Seconds an assertion lives where none are set.
pub const DEFAULT_TTL_SECS: i64 = 60;

/// Pending logins held at once where no limit is set.
pub const DEFAULT_STORE_CAP: usize = 1024;

/// Seconds a pending login lives where none are set.
pub const DEFAULT_STORE_TTL_SECS: u64 = 300;

/// Logins begun per minute where no limit is set.
pub const DEFAULT_BEGIN_RATE: u32 = 60;

/// The values the environment holds, each absent where unset.
#[derive(Debug, Clone, PartialEq, Eq)]
pub struct SsoEnv {
    pub enabled: Option<String>,
    pub socket_path: Option<String>,
    pub socket_group: Option<String>,
    pub audience: Option<String>,
    pub redirect_uri: Option<String>,
    pub ttl_secs: Option<String>,
    pub store_cap: Option<String>,
    pub store_ttl_secs: Option<String>,
    pub key_id: Option<String>,
    pub begin_rate_per_min: Option<String>,
}

/// The settings that are no secrets.
#[derive(Debug, Clone, PartialEq, Eq)]
pub struct SsoConfig {
    /// Bind the socket and serve. Off unless set to `1`.
    pub enabled: bool,
    /// Where the socket stands.
    pub socket_path: String,
    /// The group that may reach it; the bot alone where unset.
    pub socket_group: Option<String>,
    /// The audience of every assertion.
    pub audience: String,
    /// The relay's public callback. Empty is refused before the server starts.
    pub redirect_uri: String,
    /// How long an assertion lives, in seconds.
    pub ttl_secs: i64,
    /// How many pending logins are held at once.
    pub store_cap: usize,
    /// How long a pending login lives.
    pub store_ttl: Duration,
    /// Which version of the signing key is in use.
    pub kid: String,
    /// How many logins may begin per minute.
    pub begin_rate_per_min: u32,
}

/// The signed 64-bit integer a text denotes: an optional sign and at least one digit.
pub open spec fn signed_value(s: Seq<char>) -> Option<int> {
    if s.len() > 1 && s[0] == '-' {
        match digits_value(s.drop_first(), 10, 0x8000_0000_0000_0000) {
            Ok(v) => Some(-v),
            Err(_) => None,
        }
    } else {
        match unsigned_value(s, 10, i64::MAX as nat) {
            Ok(v) => Some(v as int),
            Err(_) => None,
        }
    }
}

/// Parse a signed 64-bit integer.
pub fn parse_signed(s: &str) -> (r: Option<i64>)
    ensures
        (match r {
            Some(v) => signed_value(s@) == Some(v as int),
            None => signed_value(s@) is None,
        }),
{
    let n: usize = s.unicode_len();
    if n > 1 && s.get_char(0) == '-' {
        let digits = s.substring_char(1, n);
        assert(digits@ =~= s@.drop_first());
        if digits.get_char(0) == '+' {
            proof {
                lemma_plus_is_no_digit(digits@);
            }
            return None;
        }
        match parse_unsigned(digits, 10, 0x8000_0000_0000_0000) {
            Ok(v) => {
                if v == 0x8000_0000_0000_0000 {
                    Some(i64::MIN)
                } else {
                    Some(-(v as i64))
                }
            },
            Err(_) => None,
        }
    } else {
        match parse_unsigned(s, 10, i64::MAX as u64) {
            Ok(v) => Some(v as i64),
            Err(_) => None,
        }
    }
}

proof fn lemma_plus_is_no_digit(s: Seq<char>)
    requires
        s.len() > 0,
        s[0] == '+',
    ensures
        digits_value(s, 10, 0x8000_0000_0000_0000) is Err,
    decreases s.len(),
{
    if s.len() > 1 {
        lemma_plus_is_no_digit(s.drop_last());
    }
}

/// The text of a setting, or this where it is unset.
pub open spec fn text_or(raw: Option<Seq<char>>, default: Seq<char>) -> Seq<char> {
    match raw {
        Some(s) => s,
        None => default,
    }
}

fn or_default(raw: Option<String>, default: &str) -> (r: String)
    ensures
        r@ == text_or(opt_view(raw), default@),
{
    match raw {
        Some(s) => s,
        None => default.to_owned(),
    }
}

impl SsoConfig {
    /// Read every setting, with its default for anything unset or unreadable. This never
    /// fails: what can fail is checked with the secrets.
    pub fn from_env(env: SsoEnv) -> (r: SsoConfig)
        ensures
            r.enabled == (env.enabled matches Some(s) && s@ == "1"@),
            r.socket_path@ == text_or(opt_view(env.socket_path), DEFAULT_SOCKET_PATH@),
            r.socket_group == env.socket_group,
            r.audience@ == text_or(opt_view(env.audience), DEFAULT_AUDIENCE@),
            r.redirect_uri@ == text_or(opt_view(env.redirect_uri), Seq::empty()),
            r.ttl_secs == (match env.ttl_secs {
                Some(s) => match signed_value(s@) {
                    Some(v) => v,
                    None => DEFAULT_TTL_SECS as int,
                },
                None => DEFAULT_TTL_SECS as int,
            }),
            r.store_cap == setting_or(
                opt_view(env.store_cap),
                usize::MAX as nat,
                DEFAULT_STORE_CAP as nat,
            ),
            r.store_ttl.nanos == setting_or(
                opt_view(env.store_ttl_secs),
                u64::MAX as nat,
                DEFAULT_STORE_TTL_SECS as nat,
            ) * NANOS_PER_SEC,
            r.kid@ == text_or(opt_view(env.key_id), "v1"@),
            r.begin_rate_per_min == setting_or(
                opt_view(env.begin_rate_per_min),
                u32::MAX as nat,
                DEFAULT_BEGIN_RATE as nat,
            ),
    {
        let enabled = match &env.enabled {
            Some(s) => same(s.as_str(), "1"),
            None => false,
        };
        let ttl_secs: i64 = match &env.ttl_secs {
            Some(s) => match parse_signed(s.as_str()) {
                Some(v) => v,
                None => DEFAULT_TTL_SECS,
            },
            None => DEFAULT_TTL_SECS,
        };
        let store_cap: usize = read_number(
            as_opt_str(&env.store_cap),
            usize::MAX as u64,
            DEFAULT_STORE_CAP as u64,
        ) as usize;
        let store_ttl_secs: u64 = read_number(
            as_opt_str(&env.store_ttl_secs),
            u64::MAX,
            DEFAULT_STORE_TTL_SECS,
        );
        let begin_rate_per_min: u32 = read_number(
            as_opt_str(&env.begin_rate_per_min),
            0xffff_ffff,
            DEFAULT_BEGIN_RATE as u64,
        ) as u32;
        let redirect_uri = match env.redirect_uri {
            Some(s) => s,
            None => String::new(),
        };
        SsoConfig {
            enabled,
            socket_path: or_default(env.socket_path, DEFAULT_SOCKET_PATH),
            socket_group: env.socket_group,
            audience: or_default(env.audience, DEFAULT_AUDIENCE),
            redirect_uri,
            ttl_secs,
            store_cap,
            store_ttl: Duration::from_secs(store_ttl_secs),
            kid: or_default(env.key_id, "v1"),
            begin_rate_per_min,
        }
    }
}

/// What can go wrong assembling the secrets.
#[derive(Debug, Clone, Copy, PartialEq, Eq)]
pub enum SsoError {
    /// A required secret or setting is absent.
    Missing(&'static str),
    /// The signing key is no hex or no key.
    BadSigningKey,
    /// The caller's bearer is blank.
    EmptyBearer,
    /// No callback is configured.
    EmptyRedirect,
}

/// What such an error says.
pub enum SsoErrorView {
    Missing(Seq<char>),
    BadSigningKey,
    EmptyBearer,
    EmptyRedirect,
}

impl View for SsoError {
    type V = SsoErrorView;

    open spec fn view(&self) -> SsoErrorView {
        match *self {
            SsoError::Missing(name) => SsoErrorView::Missing(name@),
            SsoError::BadSigningKey => SsoErrorView::BadSigningKey,
            SsoError::EmptyBearer => SsoErrorView::EmptyBearer,
            SsoError::EmptyRedirect => SsoErrorView::EmptyRedirect,
        }
    }
}

impl SsoError {
    /// The error as a line of text.
    pub fn message(self) -> (r: String)
        ensures
            r@ == (match self@ {
                SsoErrorView::Missing(name) => "missing SSO secret/config: "@ + name,
                SsoErrorView::BadSigningKey => "the SSO signing key is not valid hex or not a V4 key"@,
                SsoErrorView::EmptyBearer => "the SSO caller bearer is empty"@,
                SsoErrorView::EmptyRedirect => "BOT_SSO_REDIRECT_URI is empty"@,
            }),
    {
        match self {
            SsoError::Missing(name) => "missing SSO secret/config: ".to_owned().concat(name),
            SsoError::BadSigningKey => "the SSO signing key is not valid hex or not a V4 key".to_owned(),
            SsoError::EmptyBearer => "the SSO caller bearer is empty".to_owned(),
            SsoError::EmptyRedirect => "BOT_SSO_REDIRECT_URI is empty".to_owned(),
        }
    }
}

/// The secrets as the environment and the credential store hold them, each absent where
/// unset.
#[derive(Debug, Clone, PartialEq, Eq)]
pub struct SecretsEnv {
    pub oauth_client_id: Option<String>,
    pub oauth_client_secret: Option<String>,
    pub signing_key: Option<String>,
    pub bearer: Option<String>,
}

/// The validated secrets.
pub struct SsoSecrets {
    pub oauth_client_id: String,
    pub oauth_client_secret: String,
    pub signing_key: AsymmetricSecretKey<V4>,
    /// What the relay presents on every request.
    pub bearer: String,
}

/// Put the secrets together once the signing key was read, where it was one. The bearer is
/// trimmed, and a blank one counts as empty.
pub fn secrets_with_key(
    oauth_client_id: String,
    oauth_client_secret: String,
    signing_key: Option<AsymmetricSecretKey<V4>>,
    bearer: Option<String>,
) -> (r: Result<SsoSecrets, SsoError>)
    ensures
        (match (signing_key, bearer) {
            (None, _) => r matches Err(e) && e@ == SsoErrorView::BadSigningKey,
            (Some(_), None) => r matches Err(e) && e@ == SsoErrorView::Missing(
                "sso_caller_bearer"@,
            ),
            (Some(key), Some(raw)) => if trimmed(raw@).len() == 0 {
                r matches Err(e) && e@ == SsoErrorView::EmptyBearer
            } else {
                r matches Ok(s) && s.oauth_client_id == oauth_client_id && s.oauth_client_secret
                    == oauth_client_secret && s.signing_key == key && s.bearer@ == trimmed(raw@)
            },
        }),
{
    let key = match signing_key {
        Some(key) => key,
        None => {
            return Err(SsoError::BadSigningKey);
        },
    };
    let raw = match bearer {
        Some(raw) => raw,
        None => {
            return Err(SsoError::Missing("sso_caller_bearer"));
        },
    };
    let bearer = trim(raw.as_str());
    if bearer.is_empty() {
        return Err(SsoError::EmptyBearer);
    }
    Ok(
        SsoSecrets {
            oauth_client_id,
            oauth_client_secret,
            signing_key: key,
            bearer: bearer.to_owned(),
        },
    )
}

/// Whether a key in hex has an all-zero seed, of which no key can be made.
pub open spec fn is_zero_key(hex_key: Option<Seq<char>>) -> bool {
    hex_key matches Some(s) && (hex_bytes(trimmed(s)) matches Some(bytes) && has_zero_seed(bytes))
}

fn zero_seed(bytes: &Vec<u8>) -> (r: bool)
    ensures
        r == has_zero_seed(bytes@),
{
    if bytes.len() != 64 {
        return false;
    }
    let mut i: usize = 0;
    while i < 32
        invariant
            i <= 32,
            bytes.len() == 64,
            forall|j: int| 0 <= j < i ==> #[trigger] bytes@[j] == 0,
        decreases 32 - i,
    {
        if bytes[i] != 0 {
            assert(bytes@[i as int] != 0);
            return false;
        }
        i += 1;
    }
    true
}

/// Whether a key in hex has an all-zero seed, of which no key can be made.
pub fn zero_key(hex_key: &Option<String>) -> (r: bool)
    ensures
        r == is_zero_key(opt_view(*hex_key)),
{
    match hex_key {
        Some(s) => match hex_decode(trim(s.as_str())) {
            Ok(bytes) => zero_seed(&bytes),
            Err(_) => false,
        },
        None => false,
    }
}

/// Whether a text is a signing key: the hex of the bytes of one.
pub open spec fn is_signing_key(hex_key: Seq<char>) -> bool {
    hex_bytes(trimmed(hex_key)) matches Some(bytes) && is_v4_key(bytes)
}

/// The first problem that keeps the secrets from being complete, in the order they are read.
pub open spec fn first_secret_problem(cfg: SsoConfig, env: SecretsEnv) -> Option<SsoErrorView> {
    if cfg.redirect_uri@.len() == 0 {
        Some(SsoErrorView::EmptyRedirect)
    } else if env.oauth_client_id is None {
        Some(SsoErrorView::Missing("BOT_SSO_OAUTH_CLIENT_ID"@))
    } else if env.oauth_client_secret is None {
        Some(SsoErrorView::Missing("sso_oauth_client_secret"@))
    } else if env.signing_key is None {
        Some(SsoErrorView::Missing("sso_signing_key"@))
    } else if !is_signing_key(env.signing_key->0@) {
        Some(SsoErrorView::BadSigningKey)
    } else if env.bearer is None {
        Some(SsoErrorView::Missing("sso_caller_bearer"@))
    } else if trimmed(env.bearer->0@).len() == 0 {
        Some(SsoErrorView::EmptyBearer)
    } else {
        None
    }
}

/// Validate the secrets. The signing key and the bearer are trimmed first: a stored value
/// often ends in a newline. Once the key is reached, its seed must not be all zeros.
pub fn load_secrets(cfg: &SsoConfig, env: SecretsEnv) -> (r: Result<SsoSecrets, SsoError>)
    requires
        cfg.redirect_uri@.len() > 0 && env.oauth_client_id is Some && env.oauth_client_secret is Some
            ==> !is_zero_key(opt_view(env.signing_key)),
    ensures
        (match r {
            Ok(s) => {
                &&& first_secret_problem(*cfg, env) is None
                &&& env.oauth_client_id == Some(s.oauth_client_id)
                &&& env.oauth_client_secret == Some(s.oauth_client_secret)
                &&& hex_bytes(trimmed(env.signing_key->0@)) == Some(key_bytes(s.signing_key))
                &&& s.bearer@ == trimmed(env.bearer->0@)
            },
            Err(e) => first_secret_problem(*cfg, env) == Some(e@),
        }),
{
    if cfg.redirect_uri.as_str().is_empty() {
        return Err(SsoError::EmptyRedirect);
    }
    let oauth_client_id = match env.oauth_client_id {
        Some(s) => s,
        None => {
            return Err(SsoError::Missing("BOT_SSO_OAUTH_CLIENT_ID"));
        },
    };
    let oauth_client_secret = match env.oauth_client_secret {
        Some(s) => s,
        None => {
            return Err(SsoError::Missing("sso_oauth_client_secret"));
        },
    };
    let hex_key = match env.signing_key {
        Some(s) => s,
        None => {
            return Err(SsoError::Missing("sso_signing_key"));
        },
    };
    let key = match hex_decode(trim(hex_key.as_str())) {
        Ok(bytes) => match key_from(&bytes) {
            Ok(key) => Some(key),
            Err(_) => None,
        },
        Err(_) => None,
    };
    secrets_with_key(oauth_client_id, oauth_client_secret, key, env.bearer)
}

/// With the secrets in place there is always a bearer to match: the endpoint is never left
/// open by a blank one.
pub proof fn law_complete_secrets_have_a_bearer(cfg: SsoConfig, env: SecretsEnv)
    requires
        first_secret_problem(cfg, env) is None,
    ensures
        trimmed(env.bearer->0@).len() > 0,
        cfg.redirect_uri@.len() > 0,
        is_signing_key(env.signing_key->0@),
{
}

/// Every setting is read from its own place, and stands at its default where nothing usable
/// is there; nothing but `1` switches the server on.
pub proof fn law_sso_settings_come_from_their_places(env: SsoEnv, r: SsoConfig)
    requires
        call_ensures(SsoConfig::from_env, (env,), r),
    ensures
        r.enabled <==> env.enabled is Some && env.enabled->0@ == "1"@,
        (env.socket_path matches Some(v) ==> r.socket_path@ == v@),
        env.socket_path is None ==> r.socket_path@ == "/run/botonio/sso.sock"@,
        r.socket_group == env.socket_group,
        (env.audience matches Some(v) ==> r.audience@ == v@),
        env.audience is None ==> r.audience@ == "workspace-sync"@,
        (env.redirect_uri matches Some(v) ==> r.redirect_uri@ == v@),
        env.redirect_uri is None ==> r.redirect_uri@.len() == 0,
        (env.ttl_secs matches Some(v) ==> (signed_value(v@) matches Some(n) ==> r.ttl_secs == n)
            && (signed_value(v@) is None ==> r.ttl_secs == 60)),
        env.ttl_secs is None ==> r.ttl_secs == 60,
        (env.store_cap matches Some(v) ==> (setting(Some(v@), usize::MAX as nat) matches Some(n)
            ==> r.store_cap == n)),
        env.store_cap is None ==> r.store_cap == 1024,
        (env.store_ttl_secs matches Some(v) ==> (setting(Some(v@), u64::MAX as nat) matches Some(n)
            ==> r.store_ttl.nanos == n * 1_000_000_000)),
        env.store_ttl_secs is None ==> r.store_ttl.nanos == 300_000_000_000,
        (env.key_id matches Some(v) ==> r.kid@ == v@),
        env.key_id is None ==> r.kid@ == "v1"@,
        (env.begin_rate_per_min matches Some(v) ==> (setting(
            Some(v@),
            u32::MAX as nat,
        ) matches Some(n) ==> r.begin_rate_per_min == n)),
        env.begin_rate_per_min is None ==> r.begin_rate_per_min == 60,
{
}

/// The secrets are complete exactly when a callback is configured and every one of them is
/// there and usable; each comes from its own place, and the first that is missing or unusable
/// is the one reported.
pub proof fn law_secrets_come_from_their_places(
    cfg: &SsoConfig,
    env: SecretsEnv,
    r: Result<SsoSecrets, SsoError>,
)
    requires
        call_ensures(load_secrets, (cfg, env), r),
    ensures
        r is Ok <==> cfg.redirect_uri@.len() > 0 && env.oauth_client_id is Some
            && env.oauth_client_secret is Some && env.signing_key is Some && is_signing_key(
            env.signing_key->0@,
        ) && env.bearer is Some && trimmed(env.bearer->0@).len() > 0,
        (r matches Ok(s) ==> env.oauth_client_id == Some(s.oauth_client_id)
            && env.oauth_client_secret == Some(s.oauth_client_secret) && s.bearer@ == trimmed(
            env.bearer->0@,
        ) && hex_bytes(trimmed(env.signing_key->0@)) == Some(key_bytes(s.signing_key))),
        cfg.redirect_uri@.len() == 0 ==> (r matches Err(e) && e@ == SsoErrorView::EmptyRedirect),
        cfg.redirect_uri@.len() > 0 && env.oauth_client_id is None ==> (r matches Err(e) && e@
            == SsoErrorView::Missing("BOT_SSO_OAUTH_CLIENT_ID"@)),
        cfg.redirect_uri@.len() > 0 && env.oauth_client_id is Some
            && env.oauth_client_secret is None ==> (r matches Err(e) && e@
            == SsoErrorView::Missing("sso_oauth_client_secret"@)),
        cfg.redirect_uri@.len() > 0 && env.oauth_client_id is Some
            && env.oauth_client_secret is Some && env.signing_key is None ==> (r matches Err(e)
            && e@ == SsoErrorView::Missing("sso_signing_key"@)),
{
}

/// Each problem with the secrets is told in its own words.
pub proof fn law_secret_problems_say_what_is_wrong(error: SsoError, r: String)
    requires
        call_ensures(SsoError::message, (error,), r),
    ensures
        (error matches SsoError::Missing(name) ==> r@ == "missing SSO secret/config: "@ + name@),
        error is BadSigningKey ==> r@ == "the SSO signing key is not valid hex or not a V4 key"@,
        error is EmptyBearer ==> r@ == "the SSO caller bearer is empty"@,
        error is EmptyRedirect ==> r@ == "BOT_SSO_REDIRECT_URI is empty"@,
{
}

/// A whole number of seconds is read as itself, with its sign.
pub proof fn law_signed_numbers_are_read_as_written(n: nat)
    requires
        n <= i64::MAX,
    ensures
        signed_value(decimal(n)) == Some(n as int),
        signed_value(seq!['-'] + decimal(n)) == Some(-(n as int)),
{
    law_number_round_trips(n, i64::MAX as nat);
    law_number_round_trips(n, 0x8000_0000_0000_0000);
    lemma_decimal_is_digits(n);
    assert((seq!['-'] + decimal(n)).drop_first() =~= decimal(n));
}

/// The secrets are put together of their own parts, the bearer without the blanks around it;
/// no key, no bearer, and a blank one are each told apart.
pub proof fn law_secrets_are_put_together(
    oauth_client_id: String,
    oauth_client_secret: String,
    signing_key: Option<AsymmetricSecretKey<V4>>,
    bearer: Option<String>,
    r: Result<SsoSecrets, SsoError>,
)
    requires
        call_ensures(
            secrets_with_key,
            (oauth_client_id, oauth_client_secret, signing_key, bearer),
            r,
        ),
    ensures
        r is Ok <==> signing_key is Some && bearer is Some && trimmed(bearer->0@).len() > 0,
        (r matches Ok(s) ==> s.oauth_client_id == oauth_client_id && s.oauth_client_secret
            == oauth_client_secret && Some(s.signing_key) == signing_key && s.bearer@ == trimmed(
            bearer->0@,
        )),
        signing_key is None ==> (r matches Err(e) && e@ == SsoErrorView::BadSigningKey),
        signing_key is Some && bearer is None ==> (r matches Err(e) && e@
            == SsoErrorView::Missing("sso_caller_bearer"@)),
        signing_key is Some && bearer is Some && trimmed(bearer->0@).len() == 0 ==> (
        r matches Err(e) && e@ == SsoErrorView::EmptyBearer),
{
}

} // verus!
