use core::convert::TryFrom;

use botonio_botsci::clock::{Duration, Instant};
use botonio_botsci::ids::{DiscordGuildId, DiscordUserId};
use botonio_botsci::lookup::RateLimiter;
use botonio_botsci::role::Role;
use botonio_botsci::sso::assertion::{
    expiry, jti_of, random_jti, sealed, AssertionError, PasetoToken, Signer, SsoStanding,
};
use botonio_botsci::sso::config::{
    load_secrets, parse_signed, secrets_with_key, zero_key, SecretsEnv, SsoConfig, SsoEnv, SsoError,
};
use botonio_botsci::sso::flow::{
    after_signing, begin, complete, CompleteAction, CompleteEvent, CompletePhase, SsoDenial,
    SsoOutcome,
};
use botonio_botsci::sso::server::{
    bearer_matches, begin_gate, begin_login, complete_gate, deny_response, digests_match, forbidden_quiet, no_group, padding,
    parse_group_gid, require_bearer, socket_gid, socket_plan, Login, SocketPlan, SsoReply,
    SsoResponse, SOCKET_MODE,
};
use botonio_botsci::sso::server::{begin as begin_route, complete as answer};
use botonio_botsci::sso::store::{PendingAuthStore, PkceVerifier, State};
use pasetors::claims::{Claims, ClaimsValidationRules};
use pasetors::keys::{AsymmetricKeyPair, AsymmetricSecretKey, Generate};
use pasetors::public;
use pasetors::token::{Public, UntrustedToken};
use pasetors::version4::V4;

fn at(millis: u64) -> Instant {
    Instant::at(Duration::from_millis(millis))
}

#[test]
fn member_assertion_carries_the_full_claim_set() {
    let kp = AsymmetricKeyPair::<V4>::generate().unwrap();
    let signer = Signer::new(
        kp.secret,
        "botonio".to_owned(),
        "workspace-sync".to_owned(),
        DiscordGuildId(42),
        "v1".to_owned(),
        60,
    );
    let (token, jti) = signer.sign(DiscordUserId(7), SsoStanding::Member).unwrap();

    let untrusted = UntrustedToken::<Public, V4>::try_from(token.0.as_str()).unwrap();
    let mut rules = ClaimsValidationRules::new();
    rules.validate_issuer_with("botonio");
    rules.validate_audience_with("workspace-sync");
    let trusted = public::verify(&kp.public, &untrusted, &rules, None, None).unwrap();
    let claims = trusted.payload_claims().unwrap();

    assert_eq!(claims.get_claim("sub").unwrap(), "7");
    assert_eq!(claims.get_claim("standing").unwrap(), "member");
    assert_eq!(claims.get_claim("guild").unwrap(), "42");
    assert_eq!(claims.get_claim("kid").unwrap(), "v1");
    assert_eq!(claims.get_claim("jti").unwrap(), jti.as_str());
    assert!(claims.get_claim("exp").is_some());
    assert!(claims.get_claim("iat").is_some());
    assert!(claims.get_claim("nbf").is_some());
}

#[test]
fn not_in_guild_is_a_signed_negative_not_an_error() {
    let kp = AsymmetricKeyPair::<V4>::generate().unwrap();
    let signer = Signer::new(
        kp.secret,
        "i".into(),
        "a".into(),
        DiscordGuildId(1),
        "v1".into(),
        60,
    );
    let (token, _) = signer
        .sign(DiscordUserId(9), SsoStanding::NotInGuild)
        .unwrap();
    assert!(token.0.starts_with("v4.public."));
}

fn hex_of(bytes: &[u8]) -> String {
    bytes.iter().map(|x| format!("{x:02x}")).collect()
}

#[test]
fn keygen_hex_round_trip_produces_a_working_signing_key() {
    // Locks the seam between the keypair generator and the secret-loader:
    // generate -> hex-encode as `as_bytes()` -> hex-decode -> `from()` -> sign -> verify.
    let kp = AsymmetricKeyPair::<V4>::generate().unwrap();
    let hex_secret = hex_of(kp.secret.as_bytes());

    let raw = hex::decode(hex_secret.trim()).expect("hex decode failed");
    let reconstructed = AsymmetricSecretKey::<V4>::from(&raw).expect("key reconstruction failed");

    let signer = Signer::new(
        reconstructed,
        "botonio".to_owned(),
        "workspace-sync".to_owned(),
        DiscordGuildId(1),
        "v1".to_owned(),
        60,
    );
    let (token, _jti) = signer.sign(DiscordUserId(1), SsoStanding::Member).unwrap();

    // Verify with the original public key - proves the reconstructed secret is live.
    let untrusted = UntrustedToken::<Public, V4>::try_from(token.0.as_str()).unwrap();
    let mut rules = ClaimsValidationRules::new();
    rules.validate_issuer_with("botonio");
    rules.validate_audience_with("workspace-sync");
    public::verify(&kp.public, &untrusted, &rules, None, None)
        .expect("round-trip verification failed: keygen output does not reconstruct a working signing key");
}

#[test]
fn dues_expired_without_member_never_resolves_to_member() {
    // The standing mapping decides. Lock the dangerous case: a member who
    // holds DuesExpired (not Member) must be dues_expired, never member.
    assert_eq!(SsoStanding::from(Some(Role::Member)), SsoStanding::Member);
    assert_eq!(
        SsoStanding::from(Some(Role::DuesExpired)),
        SsoStanding::DuesExpired
    );
    assert_eq!(
        SsoStanding::from(Some(Role::Unverified)),
        SsoStanding::Unverified
    );
    assert_eq!(SsoStanding::from(None), SsoStanding::NotInGuild);
}

#[test]
fn each_standing_has_its_word() {
    assert_eq!(SsoStanding::Member.as_str(), "member");
    assert_eq!(SsoStanding::DuesExpired.as_str(), "dues_expired");
    assert_eq!(SsoStanding::Unverified.as_str(), "unverified");
    assert_eq!(SsoStanding::NotInGuild.as_str(), "not_in_guild");
}

fn signer_of(issuer: &str, audience: &str) -> Signer {
    let kp = AsymmetricKeyPair::<V4>::generate().unwrap();
    Signer::new(
        kp.secret,
        issuer.to_owned(),
        audience.to_owned(),
        DiscordGuildId(1),
        "v1".to_owned(),
        60,
    )
}

fn signer() -> Signer {
    signer_of("botonio", "workspace-sync")
}

#[test]
fn without_issuer_or_audience_there_is_no_assertion() {
    for s in [signer_of("", "a"), signer_of("i", "")] {
        let e = s.sign(DiscordUserId(1), SsoStanding::Member).unwrap_err();
        assert_eq!(e, AssertionError::Claims);
        assert_eq!(e.message(), "building the assertion claims failed");
    }
    assert_eq!(AssertionError::Sign.message(), "signing the assertion failed");
    assert_eq!(
        AssertionError::Rng.message(),
        "the OS RNG failed while generating the jti"
    );
}

#[test]
fn claims_need_a_point_in_time_and_an_identifier() {
    let s = signer();
    let fill = |jti: &str, exp: &str| {
        let mut claims = Claims::new().unwrap();
        let r = s.fill_claims(&mut claims, DiscordUserId(7), SsoStanding::Unverified, jti, exp);
        (r, claims)
    };
    assert_eq!(fill("", "2026-01-01T00:00:00Z").0, Err(AssertionError::Claims));
    assert_eq!(fill("j", "tomorrow").0, Err(AssertionError::Claims));
    let (r, claims) = fill("j", "2026-01-01T00:00:00Z");
    assert_eq!(r, Ok(()));
    assert_eq!(claims.get_claim("exp").unwrap(), "2026-01-01T00:00:00Z");
    assert_eq!(claims.get_claim("standing").unwrap(), "unverified");
    assert_eq!(claims.get_claim("iss").unwrap(), "botonio");
    assert_eq!(claims.get_claim("aud").unwrap(), "workspace-sync");
}

#[test]
fn claims_are_made_of_fresh_ones_and_the_moment() {
    let s = signer();
    let make = |now: (i64, u32), fresh: Option<Claims>| {
        s.claims_for(DiscordUserId(7), SsoStanding::Member, "j", now, fresh)
    };
    let moment = (1_767_225_600, 0);
    let claims = make(moment, Claims::new().ok()).unwrap();
    assert_eq!(claims.get_claim("exp").unwrap(), "2026-01-01T00:01:00+00:00");
    assert_eq!(claims.get_claim("sub").unwrap(), "7");
    assert_eq!(claims.get_claim("jti").unwrap(), "j");
    assert_eq!(claims.get_claim("standing").unwrap(), "member");
    assert!(claims.get_claim("iat").is_some());
    assert_eq!(make(moment, None).unwrap_err(), AssertionError::Claims);
    assert_eq!(
        make((i64::MAX, 0), Claims::new().ok()).unwrap_err(),
        AssertionError::Claims
    );
    assert_eq!(
        signer_of("", "a")
            .claims_for(DiscordUserId(7), SsoStanding::Member, "j", moment, Claims::new().ok())
            .unwrap_err(),
        AssertionError::Claims
    );
}

#[test]
fn a_failed_signing_step_is_its_own_error() {
    assert_eq!(
        sealed(Some("v4.public.x".to_owned()), "j".to_owned()),
        Ok((PasetoToken("v4.public.x".to_owned()), "j".to_owned()))
    );
    assert_eq!(sealed(None, "j".to_owned()), Err(AssertionError::Sign));
}

#[test]
fn an_identifier_is_sixteen_bytes_in_hex() {
    let bytes = [0, 1, 0x2f, 0xff, 16, 5, 6, 7, 8, 9, 10, 11, 12, 13, 14, 15];
    assert_eq!(jti_of(&bytes), "00012fff1005060708090a0b0c0d0e0f");
    let jti = random_jti().unwrap();
    assert_eq!(jti.len(), 32);
    assert!(jti.chars().all(|c| c.is_ascii_hexdigit()));
    assert_ne!(random_jti().unwrap(), jti);
}

#[test]
fn an_expiry_lies_the_lifetime_ahead() {
    assert_eq!(
        expiry((1_767_225_600, 0), 60).unwrap(),
        "2026-01-01T00:01:00+00:00"
    );
    assert_eq!(
        expiry((1_767_225_600, 500_000_000), -1).unwrap(),
        "2025-12-31T23:59:59.500+00:00"
    );
    assert_eq!(expiry((i64::MAX, 0), 1), None);
    assert_eq!(expiry((i64::MAX, 0), 0), None);
}

fn sso_env() -> SsoEnv {
    SsoEnv {
        enabled: None,
        socket_path: None,
        socket_group: None,
        audience: None,
        redirect_uri: None,
        ttl_secs: None,
        store_cap: None,
        store_ttl_secs: None,
        key_id: None,
        begin_rate_per_min: None,
    }
}

#[test]
fn ttl_defaults_to_one_minute() {
    let cfg = SsoConfig::from_env(sso_env());
    assert!(cfg.ttl_secs <= 60);
}

#[test]
fn a_bare_environment_leaves_sign_in_off() {
    let cfg = SsoConfig::from_env(sso_env());
    assert!(!cfg.enabled);
    assert_eq!(cfg.socket_path, "/run/botonio/sso.sock");
    assert_eq!(cfg.socket_group, None);
    assert_eq!(cfg.audience, "workspace-sync");
    assert_eq!(cfg.redirect_uri, "");
    assert_eq!(cfg.ttl_secs, 60);
    assert_eq!(cfg.store_cap, 1024);
    assert_eq!(cfg.store_ttl, Duration::from_secs(300));
    assert_eq!(cfg.kid, "v1");
    assert_eq!(cfg.begin_rate_per_min, 60);
    let mut env = sso_env();
    env.enabled = Some("true".to_owned());
    env.ttl_secs = Some("-5".to_owned());
    env.store_cap = Some("many".to_owned());
    let cfg = SsoConfig::from_env(env.clone());
    assert!(!cfg.enabled);
    assert_eq!(cfg.ttl_secs, -5);
    assert_eq!(cfg.store_cap, 1024);
    env.enabled = Some("1".to_owned());
    assert!(SsoConfig::from_env(env).enabled);
}

#[test]
fn signed_numbers_read_as_the_standard_library_reads_them() {
    for s in [
        "0", "-0", "+7", "-7", "", "-", "+", "--1", "-+1", "+-1", " 1", "12x",
        "9223372036854775807", "9223372036854775808", "-9223372036854775808",
        "-9223372036854775809",
    ] {
        assert_eq!(parse_signed(s), s.parse::<i64>().ok(), "{s:?}");
    }
}

fn secrets() -> (SsoConfig, SecretsEnv, AsymmetricKeyPair<V4>) {
    let mut env = sso_env();
    env.redirect_uri = Some("https://relay.example/callback".to_owned());
    let kp = AsymmetricKeyPair::<V4>::generate().unwrap();
    let secrets = SecretsEnv {
        oauth_client_id: Some("id".to_owned()),
        oauth_client_secret: Some("secret".to_owned()),
        signing_key: Some(format!(" {}\n", hex_of(kp.secret.as_bytes()))),
        bearer: Some("s3cret\n".to_owned()),
    };
    (SsoConfig::from_env(env), secrets, kp)
}

#[test]
fn complete_secrets_load_trimmed() {
    let (cfg, env, kp) = secrets();
    assert!(!zero_key(&env.signing_key));
    let s = load_secrets(&cfg, env).ok().unwrap();
    assert_eq!(s.bearer, "s3cret");
    assert_eq!(s.oauth_client_id, "id");
    assert_eq!(s.oauth_client_secret, "secret");
    assert_eq!(s.signing_key.as_bytes(), kp.secret.as_bytes());
}

#[test]
fn each_secret_problem_is_named_in_order() {
    let (cfg, mut env, _) = secrets();
    let problem = |cfg: &SsoConfig, env: &SecretsEnv| load_secrets(cfg, env.clone()).err().unwrap();
    env.bearer = Some(" \n".to_owned());
    assert_eq!(problem(&cfg, &env), SsoError::EmptyBearer);
    env.bearer = None;
    assert_eq!(problem(&cfg, &env), SsoError::Missing("sso_caller_bearer"));
    let good = env.signing_key.clone().unwrap();
    env.signing_key = Some(good.trim()[2..].to_owned());
    assert_eq!(problem(&cfg, &env), SsoError::BadSigningKey);
    env.signing_key = Some("not hex".to_owned());
    assert_eq!(problem(&cfg, &env), SsoError::BadSigningKey);
    env.signing_key = None;
    assert_eq!(problem(&cfg, &env), SsoError::Missing("sso_signing_key"));
    env.oauth_client_secret = None;
    assert_eq!(
        problem(&cfg, &env).message(),
        "missing SSO secret/config: sso_oauth_client_secret"
    );
    env.oauth_client_id = None;
    assert_eq!(
        problem(&cfg, &env),
        SsoError::Missing("BOT_SSO_OAUTH_CLIENT_ID")
    );
    let bare = SsoConfig::from_env(sso_env());
    assert_eq!(problem(&bare, &env), SsoError::EmptyRedirect);
    assert_eq!(
        SsoError::EmptyRedirect.message(),
        "BOT_SSO_REDIRECT_URI is empty"
    );
    assert!(matches!(
        secrets_with_key("i".to_owned(), "s".to_owned(), None, None),
        Err(SsoError::BadSigningKey)
    ));
}

#[test]
fn an_all_zero_seed_is_seen_before_it_is_used() {
    assert!(zero_key(&Some(format!("{}{}", "0".repeat(64), "ab".repeat(32)))));
    assert!(!zero_key(&Some("0".repeat(64))));
    assert!(!zero_key(&Some("zz".to_owned())));
    assert!(!zero_key(&None));
    // What is missing before it is reported first.
    let (cfg, mut env, _) = secrets();
    env.signing_key = Some("0".repeat(128));
    env.oauth_client_secret = None;
    assert!(matches!(
        load_secrets(&cfg, env),
        Err(SsoError::Missing("sso_oauth_client_secret"))
    ));
}

fn pair(n: u32) -> (State, PkceVerifier) {
    (State(format!("s{n}")), PkceVerifier::new(format!("v{n}")))
}

#[test]
fn take_is_single_use() {
    let mut store = PendingAuthStore::new(8, Duration::from_secs(60));
    let (s, v) = pair(1);
    store.begin(s, v, at(0)).unwrap();
    assert!(store.take("s1", at(0)).is_some());
    assert!(store.take("s1", at(0)).is_none()); // consumed
}

#[test]
fn rejects_when_full_without_evicting() {
    let mut store = PendingAuthStore::new(1, Duration::from_secs(60));
    let (s1, v1) = pair(1);
    store.begin(s1, v1, at(0)).unwrap();
    let (s2, v2) = pair(2);
    assert!(store.begin(s2, v2, at(0)).is_err()); // full -> reject
    assert!(store.take("s1", at(0)).is_some()); // the first entry survived
}

#[test]
fn expired_entry_is_not_returned() {
    let mut store = PendingAuthStore::new(8, Duration::from_millis(1));
    let (s, v) = pair(1);
    store.begin(s, v, at(0)).unwrap();
    assert!(store.take("s1", at(5)).is_none());
}

#[test]
fn unknown_state_is_none() {
    let mut store = PendingAuthStore::new(8, Duration::from_secs(60));
    assert!(store.take("nope", at(0)).is_none());
}

#[test]
fn entries_past_their_time_make_room() {
    let mut store = PendingAuthStore::new(2, Duration::from_millis(10));
    for (n, millis) in [(1, 0), (2, 5)] {
        let (s, v) = pair(n);
        store.begin(s, v, at(millis)).unwrap();
    }
    let (s3, v3) = pair(3);
    assert!(store.begin(s3, v3, at(9)).is_err());
    let (s3, v3) = pair(3);
    assert!(store.begin(s3, v3, at(10)).is_ok());
    assert!(store.take("s1", at(10)).is_none());
    assert_eq!(store.take("s2", at(10)).unwrap().as_str(), "v2");
    assert_eq!(store.take("s3", at(10)).unwrap().as_str(), "v3");
}

#[test]
fn a_state_begun_twice_keeps_the_later_verifier() {
    let mut store = PendingAuthStore::new(2, Duration::from_secs(60));
    store.begin(State("s".to_owned()), PkceVerifier::new("a".to_owned()), at(0)).unwrap();
    store.begin(State("s".to_owned()), PkceVerifier::new("b".to_owned()), at(0)).unwrap();
    assert_eq!(store.take("s", at(0)).unwrap().as_str(), "b");
    assert!(store.take("s", at(0)).is_none());
}

// A flow needs a begin before complete.
fn store_with_pending() -> PendingAuthStore {
    let mut store = PendingAuthStore::new(8, Duration::from_secs(60));
    let r = begin(
        &mut store,
        "https://discord.example/authorize".to_owned(),
        State("fake-state".to_owned()),
        PkceVerifier::new("verifier".to_owned()),
        at(0),
    )
    .unwrap();
    assert_eq!(r.authorize_url, "https://discord.example/authorize");
    assert_eq!(r.state, "fake-state");
    store
}

struct Flow {
    store: PendingAuthStore,
    signer: Signer,
    phase: CompletePhase,
}

impl Flow {
    fn new(store: PendingAuthStore) -> Flow {
        Flow {
            store,
            signer: signer(),
            phase: CompletePhase::Start,
        }
    }

    fn step(&mut self, event: CompleteEvent) -> CompleteAction {
        let (phase, action) = complete(
            &mut self.store,
            &self.signer,
            DiscordUserId(99),
            "workspace-sync",
            self.phase.clone(),
            event,
        );
        self.phase = phase;
        action
    }

    fn call(&mut self) -> CompleteAction {
        self.step(CompleteEvent::Called {
            state: "fake-state".to_owned(),
            now: at(0),
        })
    }
}

#[test]
fn member_yields_a_signed_member_assertion_and_one_audit_row() {
    let mut flow = Flow::new(store_with_pending());
    assert!(matches!(flow.call(), CompleteAction::Exchange(v) if v.as_str() == "verifier"));
    assert_eq!(
        flow.step(CompleteEvent::Exchanged(true)),
        CompleteAction::ReadUser
    );
    assert_eq!(
        flow.step(CompleteEvent::UserRead(Some(DiscordUserId(7)))),
        CompleteAction::ReadRole(DiscordUserId(7))
    );
    let row = match flow.step(CompleteEvent::RoleRead(Some(Some(Role::Member)))) {
        CompleteAction::Audit(row) => row,
        other => panic!("{other:?}"),
    };
    assert_eq!(row.actor, DiscordUserId(99));
    assert_eq!(row.subject, DiscordUserId(7));
    assert_eq!(row.standing, SsoStanding::Member);
    assert_eq!(row.audience, "workspace-sync");
    assert_eq!(row.jti.len(), 32);
    assert!(matches!(
        flow.step(CompleteEvent::Audited(true)),
        CompleteAction::Finish(SsoOutcome::Asserted(_))
    ));
    assert_eq!(flow.step(CompleteEvent::Audited(true)), CompleteAction::Ignore);
}

#[test]
fn not_in_guild_is_asserted_not_denied() {
    let mut flow = Flow::new(store_with_pending());
    flow.call();
    flow.step(CompleteEvent::Exchanged(true));
    flow.step(CompleteEvent::UserRead(Some(DiscordUserId(7))));
    let action = flow.step(CompleteEvent::RoleRead(Some(None)));
    assert!(matches!(action, CompleteAction::Audit(row) if row.standing == SsoStanding::NotInGuild));
    assert!(matches!(
        flow.step(CompleteEvent::Audited(true)),
        CompleteAction::Finish(SsoOutcome::Asserted(_))
    )); // signed negative, not an error
}

fn denied(reason: SsoDenial) -> CompleteAction {
    CompleteAction::Finish(SsoOutcome::Denied(reason))
}

#[test]
fn unknown_state_denies_and_writes_no_row() {
    let mut flow = Flow::new(PendingAuthStore::new(8, Duration::from_secs(60))); // no begin
    assert_eq!(flow.call(), denied(SsoDenial::StateInvalid));
    assert_eq!(flow.phase, CompletePhase::Done);
}

#[test]
fn bad_code_denies() {
    let mut flow = Flow::new(store_with_pending());
    flow.call();
    assert_eq!(
        flow.step(CompleteEvent::Exchanged(false)),
        denied(SsoDenial::CodeExchangeFailed)
    );
}

#[test]
fn audit_failure_denies_and_mints_no_grant() {
    let mut flow = Flow::new(store_with_pending());
    flow.call();
    flow.step(CompleteEvent::Exchanged(true));
    flow.step(CompleteEvent::UserRead(Some(DiscordUserId(7))));
    flow.step(CompleteEvent::RoleRead(Some(Some(Role::Member))));
    // A real member, but the audit row could not be written: deny, no assertion.
    assert_eq!(
        flow.step(CompleteEvent::Audited(false)),
        denied(SsoDenial::AuditUnavailable)
    );
}

#[test]
fn a_failed_read_denies_with_its_own_reason() {
    let mut flow = Flow::new(store_with_pending());
    flow.call();
    flow.step(CompleteEvent::Exchanged(true));
    assert_eq!(
        flow.step(CompleteEvent::UserRead(None)),
        denied(SsoDenial::UserReadFailed)
    );
    let mut flow = Flow::new(store_with_pending());
    flow.call();
    flow.step(CompleteEvent::Exchanged(true));
    flow.step(CompleteEvent::UserRead(Some(DiscordUserId(7))));
    assert_eq!(
        flow.step(CompleteEvent::RoleRead(None)),
        denied(SsoDenial::GuildReadFailed)
    );
    let mut flow = Flow::new(store_with_pending());
    flow.signer = signer_of("", "a");
    flow.call();
    flow.step(CompleteEvent::Exchanged(true));
    flow.step(CompleteEvent::UserRead(Some(DiscordUserId(7))));
    assert_eq!(
        flow.step(CompleteEvent::RoleRead(Some(None))),
        denied(SsoDenial::SignFailed)
    );
}

#[test]
fn a_signed_token_waits_for_its_row() {
    let (phase, action) = after_signing(
        Ok((PasetoToken("t".to_owned()), "j".to_owned())),
        DiscordUserId(1),
        DiscordUserId(2),
        SsoStanding::Member,
        "aud",
    );
    assert_eq!(phase, CompletePhase::Auditing(PasetoToken("t".to_owned())));
    assert!(matches!(action, CompleteAction::Audit(row) if row.jti == "j" && row.audience == "aud"));
    let (_, action) = after_signing(
        Err(AssertionError::Rng),
        DiscordUserId(1),
        DiscordUserId(2),
        SsoStanding::Member,
        "aud",
    );
    assert_eq!(action, denied(SsoDenial::SignFailed));
}

#[test]
fn bearer_matches_only_on_equal() {
    assert!(bearer_matches("s3cret", "s3cret"));
    assert!(!bearer_matches("s3cret", "s3cre"));
    assert!(!bearer_matches("", "s3cret"));
    // The half-provisioned trap: an empty configured bearer matches nothing.
    assert!(!bearer_matches("anything", ""));
    assert!(!bearer_matches("", ""));
}

#[test]
fn digests_match_only_where_something_is_configured() {
    assert!(digests_match(true, &vec![1, 2], &vec![1, 2]));
    assert!(!digests_match(true, &vec![1, 2], &vec![1, 3]));
    assert!(!digests_match(true, &vec![1, 2], &vec![1]));
    assert!(!digests_match(false, &vec![1, 2], &vec![1, 2]));
}

#[test]
fn the_header_must_carry_the_bearer() {
    assert!(require_bearer(Some("Bearer s3cret"), "s3cret"));
    assert!(!require_bearer(Some("bearer s3cret"), "s3cret"));
    assert!(!require_bearer(Some("Bearer  s3cret"), "s3cret"));
    assert!(!require_bearer(Some("s3cret"), "s3cret"));
    assert!(!require_bearer(Some("Bear"), "s3cret"));
    assert!(!require_bearer(None, "s3cret"));
}

#[test]
fn parse_group_gid_reads_the_named_group() {
    let etc = "root:x:0:\nbotonio-staging-sso:x:1007:botonio-botsci-staging,workspace-sync\n";
    assert_eq!(parse_group_gid(etc, "botonio-staging-sso"), Some(1007));
    assert_eq!(parse_group_gid(etc, "absent"), None);
    // A malformed line (no gid field) yields no match rather than panicking.
    assert_eq!(parse_group_gid("garbage-no-colons", "x"), None);
}

#[test]
fn a_line_without_a_number_does_not_stop_the_search() {
    assert_eq!(parse_group_gid("g:x:none:\r\ng:x:12\r\n", "g"), Some(12));
    assert_eq!(parse_group_gid("g:x\ng:x:13", "g"), Some(13));
    assert_eq!(parse_group_gid("", "g"), None);
    assert_eq!(parse_group_gid("\n", ""), None);
}

#[test]
fn the_socket_goes_to_the_group_that_is_there() {
    assert_eq!(SOCKET_MODE, 0o660);
    assert_eq!(socket_gid(None, None), Ok(None));
    assert_eq!(socket_gid(Some("g"), Some("g:x:12:\n")), Ok(Some(12)));
    let why = "SSO socket group \"g\" not found in /etc/group";
    assert_eq!(socket_gid(Some("g"), Some("h:x:12:\n")), Err(why.to_owned()));
    assert_eq!(socket_gid(Some("g"), None), Err(why.to_owned()));
    assert_eq!(no_group("\"g\""), why);
    assert_eq!(socket_plan(false, false), SocketPlan::Bind);
    assert_eq!(socket_plan(true, false), SocketPlan::RemoveAndBind);
    assert_eq!(socket_plan(true, true), SocketPlan::InUse);
}

fn login(n: u32) -> Login {
    let (state, verifier) = pair(n);
    Login {
        authorize_url: format!("u{n}"),
        state,
        verifier,
    }
}

#[test]
fn begin_is_gated_then_limited_then_bounded() {
    let mut limiter = RateLimiter::new(2);
    let mut store = PendingAuthStore::new(1, Duration::from_secs(60));
    assert_eq!(
        begin_route(false, &mut limiter, &mut store, login(1), at(0)),
        forbidden_quiet()
    );
    assert_eq!(
        begin_route(true, &mut limiter, &mut store, login(1), at(0)),
        SsoReply {
            response: SsoResponse::Begun {
                authorize_url: "u1".to_owned(),
                state: "s1".to_owned()
            },
            alert: None
        }
    );
    assert_eq!(
        begin_route(true, &mut limiter, &mut store, login(2), at(0)),
        deny_response(SsoDenial::StoreFull)
    );
    assert_eq!(
        begin_route(true, &mut limiter, &mut store, login(3), at(0)),
        deny_response(SsoDenial::RateLimited)
    );
    assert!(store.take("s1", at(0)).is_some());
}

#[test]
fn the_guard_before_a_login_spends_only_while_switched_on() {
    let mut limiter = RateLimiter::new(1);
    assert_eq!(begin_gate(false, &mut limiter, at(0)), Some(forbidden_quiet()));
    assert_eq!(begin_gate(true, &mut limiter, at(0)), None);
    assert_eq!(
        begin_gate(true, &mut limiter, at(0)),
        Some(deny_response(SsoDenial::RateLimited))
    );
    let mut store = PendingAuthStore::new(1, Duration::from_secs(60));
    assert!(begin_login(&mut store, login(1), at(0)).alert.is_none());
    assert_eq!(
        begin_login(&mut store, login(2), at(0)),
        deny_response(SsoDenial::StoreFull)
    );
}

#[test]
fn every_denial_looks_the_same() {
    for reason in [
        SsoDenial::RateLimited,
        SsoDenial::StateInvalid,
        SsoDenial::CodeExchangeFailed,
        SsoDenial::UserReadFailed,
        SsoDenial::GuildReadFailed,
        SsoDenial::SignFailed,
        SsoDenial::AuditUnavailable,
        SsoDenial::StoreFull,
    ] {
        let reply = answer(SsoOutcome::Denied(reason));
        assert_eq!(reply.response, forbidden_quiet().response);
        assert_eq!(reply.alert, Some(reason));
    }
    assert_eq!(
        answer(SsoOutcome::Asserted(PasetoToken("t".to_owned()))).response,
        SsoResponse::Completed {
            assertion: "t".to_owned()
        }
    );
    assert_eq!(complete_gate(false, true), Some(forbidden_quiet()));
    assert_eq!(
        complete_gate(true, false),
        Some(deny_response(SsoDenial::GuildReadFailed))
    );
    assert_eq!(complete_gate(true, true), None);
}

#[test]
fn an_answer_is_held_back_to_the_floor() {
    assert_eq!(padding(Duration::from_millis(1)), Duration::from_millis(799));
    assert_eq!(padding(Duration::from_millis(800)), Duration::from_millis(0));
    assert_eq!(padding(Duration::from_secs(9)), Duration::from_millis(0));
}
