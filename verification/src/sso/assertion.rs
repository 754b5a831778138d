//! The signed answer: a token whose `standing` claim carries the verdict on whether a person
//! holds the configured Member role.
//!
//! Only the holder of the private key can mint one; the relay checks it with the public key
//! alone. Tokens are handed from server to server and live for seconds.

use vstd::prelude::*;

use pasetors::claims::Claims;
use pasetors::keys::AsymmetricSecretKey;
use pasetors::version4::V4;

use crate::ids::{DiscordGuildId, DiscordUserId};
use crate::role::Role;
use crate::source::asked;
use crate::text::number;

#[allow(unused_imports)]
use crate::text::{decimal, digit_value};
#[allow(unused_imports)]
use crate::ui::opt_view;

verus! {

/// The verdict an assertion carries.
#[derive(Debug, Clone, Copy, PartialEq, Eq, Structural)]
pub enum SsoStanding {
    /// The subject holds the Member role.
    Member,
    /// The subject is in the guild and holds Dues Expired.
    DuesExpired,
    /// The subject is in the guild and holds Unverified.
    Unverified,
    /// The subject is not in the guild: still a signed verdict, not an error.
    NotInGuild,
}

impl SsoStanding {
    /// The text of this standing in the `standing` claim.
    pub open spec fn words(self) -> Seq<char> {
        match self {
            SsoStanding::Member => "member"@,
            SsoStanding::DuesExpired => "dues_expired"@,
            SsoStanding::Unverified => "unverified"@,
            SsoStanding::NotInGuild => "not_in_guild"@,
        }
    }

    /// The text of this standing in the `standing` claim, agreed with the relay.
    pub fn as_str(self) -> (r: &'static str)
        ensures
            r@ == self.words(),
    {
        match self {
            SsoStanding::Member => "member",
            SsoStanding::DuesExpired => "dues_expired",
            SsoStanding::Unverified => "unverified",
            SsoStanding::NotInGuild => "not_in_guild",
        }
    }
}

/// The verdict on an observed role; no role at all means the person is not in the guild.
pub open spec fn standing_of(role: Option<Role>) -> SsoStanding {
    match role {
        None => SsoStanding::NotInGuild,
        Some(Role::Member) => SsoStanding::Member,
        Some(Role::DuesExpired) => SsoStanding::DuesExpired,
        Some(Role::Unverified) => SsoStanding::Unverified,
    }
}

impl From<Option<Role>> for SsoStanding {
    fn from(role: Option<Role>) -> (r: SsoStanding) {
        match role {
            None => SsoStanding::NotInGuild,
            Some(Role::Member) => SsoStanding::Member,
            Some(Role::DuesExpired) => SsoStanding::DuesExpired,
            Some(Role::Unverified) => SsoStanding::Unverified,
        }
    }
}

impl vstd::std_specs::convert::FromSpecImpl<Option<Role>> for SsoStanding {
    open spec fn obeys_from_spec() -> bool {
        true
    }

    open spec fn from_spec(role: Option<Role>) -> SsoStanding {
        standing_of(role)
    }
}

/// The deciding rule: the claim says `member` of exactly those who hold the Member role, whatever
/// else they hold or are.
pub proof fn law_only_members_are_members(role: Option<Role>)
    ensures
        standing_of(role).words() == SsoStanding::Member.words() <==> role == Some(Role::Member),
{
    reveal_strlit("member");
    reveal_strlit("dues_expired");
    reveal_strlit("unverified");
    reveal_strlit("not_in_guild");
    assert("member"@.len() == 6);
    assert("dues_expired"@.len() == 12);
    assert("unverified"@.len() == 10);
    assert("not_in_guild"@.len() == 12);
}

/// A minted token, ready to hand to the relay.
#[derive(Debug, Clone, PartialEq, Eq)]
pub struct PasetoToken(pub String);

/// How signing can fail. The caller is told none of this.
#[derive(Debug, Clone, Copy, PartialEq, Eq, Structural)]
pub enum AssertionError {
    /// The claims could not be built.
    Claims,
    /// The signing step failed.
    Sign,
    /// No random identifier could be drawn.
    Rng,
}

impl AssertionError {
    /// The error as a line of text.
    pub fn message(self) -> (r: &'static str)
        ensures
            r@ == (match self {
                AssertionError::Claims => "building the assertion claims failed"@,
                AssertionError::Sign => "signing the assertion failed"@,
                AssertionError::Rng => "the OS RNG failed while generating the jti"@,
            }),
    {
        match self {
            AssertionError::Claims => "building the assertion claims failed",
            AssertionError::Sign => "signing the assertion failed",
            AssertionError::Rng => "the OS RNG failed while generating the jti",
        }
    }
}

#[verifier::external_type_specification]
#[verifier::external_body]
pub struct ExV4(pasetors::version4::V4);

#[verifier::external_type_specification]
#[verifier::external_body]
#[verifier::reject_recursive_types(V)]
pub struct ExAsymmetricSecretKey<V>(pasetors::keys::AsymmetricSecretKey<V>);

#[verifier::external_type_specification]
#[verifier::external_body]
pub struct ExClaims(pasetors::claims::Claims);

#[verifier::external_type_specification]
#[verifier::external_body]
pub struct ExPasetoError(pasetors::errors::Error);

#[verifier::external_type_specification]
#[verifier::external_body]
pub struct ExGetrandomError(getrandom::Error);

#[verifier::external_type_specification]
#[verifier::external_body]
pub struct ExFromHexError(hex::FromHexError);

/// The bytes a signing key holds: the seed, then the public key.
pub uninterp spec fn key_bytes(key: AsymmetricSecretKey<V4>) -> Seq<u8>;

/// The claims a set of claims holds whose value is a text, by name.
pub uninterp spec fn claims_of(claims: Claims) -> Map<Seq<char>, Seq<char>>;

/// Whether `AsymmetricSecretKey::from` takes these bytes for a version 4 key: a seed and the
/// public key that belongs to it.
pub uninterp spec fn is_v4_key(bytes: Seq<u8>) -> bool;

/// Whether `Claims::expiration` takes this text for a point in time.
pub uninterp spec fn is_point_in_time(text: Seq<char>) -> bool;

/// The text claims that `pasetors::version4::PublicToken::verify`, without footer or implicit
/// assertion, finds in a token signed by the holder of this public key; nothing where the
/// token is not theirs.
pub uninterp spec fn authentic_claims(public_key: Seq<u8>, token: Seq<char>) -> Option<
    Map<Seq<char>, Seq<char>>,
>;

/// A point in time, from seconds and nanoseconds since 1970, as `DateTime::to_rfc3339` writes
/// it; nothing beyond the calendar.
pub uninterp spec fn rfc3339_words(secs: i64, nanos: u32) -> Option<Seq<char>>;

/// Whether the seed half of a key is all zeros. There is no key with such a seed.
pub open spec fn has_zero_seed(bytes: Seq<u8>) -> bool {
    bytes.len() == 64 && forall|i: int| 0 <= i < 32 ==> #[trigger] bytes[i] == 0
}

/// `AsymmetricSecretKey::<V4>::from`: succeeds exactly on the bytes of a key, which are 64,
/// and the key then holds those bytes. It panics on an all-zero seed, so that is left out.
#[verifier::external_body]
pub(crate) fn key_from(bytes: &Vec<u8>) -> (r: Result<AsymmetricSecretKey<V4>, pasetors::errors::Error>)
    requires
        !has_zero_seed(bytes@),
    ensures
        r is Ok <==> is_v4_key(bytes@),
        r matches Ok(key) ==> key_bytes(key) == bytes@ && bytes@.len() == 64,
{
    AsymmetricSecretKey::<V4>::from(bytes.as_slice())
}

/// `Claims::new`: on success the issue, not-before and expiry times are there, each a text,
/// and nothing else. The times depend on the clock.
#[verifier::external_body]
fn new_claims() -> (r: Result<Claims, pasetors::errors::Error>)
    ensures
        r matches Ok(c) ==> claims_of(c).dom() =~= set!["iat"@, "nbf"@, "exp"@],
{
    Claims::new()
}

/// `Claims::issuer`: sets `iss`, and refuses an empty text.
#[verifier::external_body]
fn set_issuer(claims: &mut Claims, iss: &str) -> (r: Result<(), pasetors::errors::Error>)
    ensures
        r is Ok <==> iss@.len() > 0,
        claims_of(*final(claims)) == (if iss@.len() > 0 {
            claims_of(*old(claims)).insert("iss"@, iss@)
        } else {
            claims_of(*old(claims))
        }),
{
    claims.issuer(iss)
}

/// `Claims::audience`: sets `aud`, and refuses an empty text.
#[verifier::external_body]
fn set_audience(claims: &mut Claims, aud: &str) -> (r: Result<(), pasetors::errors::Error>)
    ensures
        r is Ok <==> aud@.len() > 0,
        claims_of(*final(claims)) == (if aud@.len() > 0 {
            claims_of(*old(claims)).insert("aud"@, aud@)
        } else {
            claims_of(*old(claims))
        }),
{
    claims.audience(aud)
}

/// `Claims::subject`: sets `sub`, and refuses an empty text.
#[verifier::external_body]
fn set_subject(claims: &mut Claims, sub: &str) -> (r: Result<(), pasetors::errors::Error>)
    ensures
        r is Ok <==> sub@.len() > 0,
        claims_of(*final(claims)) == (if sub@.len() > 0 {
            claims_of(*old(claims)).insert("sub"@, sub@)
        } else {
            claims_of(*old(claims))
        }),
{
    claims.subject(sub)
}

/// `Claims::token_identifier`: sets `jti`, and refuses an empty text.
#[verifier::external_body]
fn set_token_identifier(claims: &mut Claims, jti: &str) -> (r: Result<(), pasetors::errors::Error>)
    ensures
        r is Ok <==> jti@.len() > 0,
        claims_of(*final(claims)) == (if jti@.len() > 0 {
            claims_of(*old(claims)).insert("jti"@, jti@)
        } else {
            claims_of(*old(claims))
        }),
{
    claims.token_identifier(jti)
}

/// `Claims::expiration`: sets `exp`, and refuses a text that is no point in time.
#[verifier::external_body]
fn set_expiration(claims: &mut Claims, exp: &str) -> (r: Result<(), pasetors::errors::Error>)
    ensures
        r is Ok <==> is_point_in_time(exp@),
        claims_of(*final(claims)) == (if is_point_in_time(exp@) {
            claims_of(*old(claims)).insert("exp"@, exp@)
        } else {
            claims_of(*old(claims))
        }),
{
    claims.expiration(exp)
}

/// The names that only their own setters set.
pub open spec fn is_registered(name: Seq<char>) -> bool {
    name == "iss"@ || name == "sub"@ || name == "aud"@ || name == "exp"@ || name == "nbf"@ || name
        == "iat"@ || name == "jti"@
}

/// `Claims::add_additional` with a text: sets the claim, and refuses a registered name.
#[verifier::external_body]
fn add_claim(claims: &mut Claims, name: &str, value: &str) -> (r: Result<
    (),
    pasetors::errors::Error,
>)
    ensures
        r is Ok <==> !is_registered(name@),
        claims_of(*final(claims)) == (if is_registered(name@) {
            claims_of(*old(claims))
        } else {
            claims_of(*old(claims)).insert(name@, value@)
        }),
{
    claims.add_additional(name, value)
}

/// `pasetors::public::sign` without footer or implicit assertion: it succeeds, since every
/// version 4 key was checked when it was made and claims are never written as an empty text,
/// and the token carries exactly these claims under this key. Its text is not fixed by them:
/// it also depends on the order in which a hash map is walked.
#[verifier::external_body]
fn sign_claims(key: &AsymmetricSecretKey<V4>, claims: &Claims) -> (r: Result<
    String,
    pasetors::errors::Error,
>)
    ensures
        r is Ok,
        r matches Ok(token) ==> authentic_claims(key_bytes(*key).skip(32), token@) == Some(
            claims_of(*claims),
        ),
{
    pasetors::public::sign(key, claims, None, None)
}

/// `getrandom::fill` on sixteen bytes. The bytes are random, so nothing is claimed of them.
#[verifier::external_body]
fn random_bytes() -> (r: Result<[u8; 16], getrandom::Error>) {
    let mut bytes = [0u8; 16];
    match getrandom::fill(&mut bytes) {
        Ok(()) => Ok(bytes),
        Err(e) => Err(e),
    }
}

/// `chrono::Utc::now`: the seconds and nanoseconds since 1970. Nothing is claimed of them.
#[verifier::external_body]
fn utc_now() -> (r: (i64, u32)) {
    let now = chrono::Utc::now();
    (now.timestamp(), now.timestamp_subsec_nanos())
}

/// `chrono::DateTime::to_rfc3339`, on the point this many seconds and nanoseconds after 1970:
/// a text that depends on them alone; nothing beyond the calendar.
#[verifier::external_body]
fn rfc3339(secs: i64, nanos: u32) -> (r: Option<String>)
    ensures
        opt_view(r) == rfc3339_words(secs, nanos),
{
    chrono::DateTime::from_timestamp(secs, nanos).map(|t| t.to_rfc3339())
}

/// The lower-case hex digit of a value below sixteen.
pub open spec fn hex_digit(v: nat) -> char {
    if v < 10 {
        (48 + v) as char
    } else {
        (87 + v) as char
    }
}

/// Bytes in hex: two lower-case digits each, the high one first.
pub open spec fn hex_words(bytes: Seq<u8>) -> Seq<char>
    decreases bytes.len(),
{
    if bytes.len() == 0 {
        Seq::empty()
    } else {
        hex_words(bytes.drop_last()).push(hex_digit((bytes.last() / 16) as nat)).push(
            hex_digit((bytes.last() % 16) as nat),
        )
    }
}

/// The bytes a hex text denotes, in either letter case; nothing where a character is no hex
/// digit or one is left over.
pub open spec fn hex_bytes(s: Seq<char>) -> Option<Seq<u8>>
    decreases s.len(),
{
    if s.len() == 0 {
        Some(Seq::empty())
    } else if s.len() == 1 {
        None
    } else {
        match (
            hex_bytes(s.drop_last().drop_last()),
            digit_value(s[s.len() - 2], 16),
            digit_value(s.last(), 16),
        ) {
            (Some(bytes), Some(high), Some(low)) => Some(bytes.push((high * 16 + low) as u8)),
            _ => None,
        }
    }
}

/// `hex::encode`: two lower-case digits for each byte.
#[verifier::external_body]
fn hex_encode(bytes: &[u8; 16]) -> (r: String)
    ensures
        r@ == hex_words(bytes@),
{
    hex::encode(bytes)
}

/// `hex::decode`: the bytes a text of hex digits in either case denotes; an error where it is
/// none.
#[verifier::external_body]
pub(crate) fn hex_decode(s: &str) -> (r: Result<Vec<u8>, hex::FromHexError>)
    ensures
        (match r {
            Ok(bytes) => hex_bytes(s@) == Some(bytes@),
            Err(_) => hex_bytes(s@) is None,
        }),
{
    hex::decode(s)
}

/// Writing bytes in hex and reading them back gives the same bytes: what a key generator
/// writes is the key that is loaded.
pub proof fn law_hex_round_trips(bytes: Seq<u8>)
    ensures
        hex_words(bytes).len() == 2 * bytes.len(),
        hex_bytes(hex_words(bytes)) == Some(bytes),
    decreases bytes.len(),
{
    if bytes.len() > 0 {
        let b = bytes.last();
        let words = hex_words(bytes);
        law_hex_round_trips(bytes.drop_last());
        assert(words.drop_last().drop_last() =~= hex_words(bytes.drop_last()));
        assert(digit_value(hex_digit((b / 16) as nat), 16) == Some((b / 16) as nat));
        assert(digit_value(hex_digit((b % 16) as nat), 16) == Some((b % 16) as nat));
        assert(bytes.drop_last().push(b) =~= bytes);
    }
}

/// Whether the random source gave these bytes when it was asked.
pub closed spec fn drawn(bytes: Seq<u8>) -> bool {
    exists|a: [u8; 16]|
        #![trigger a@]
        a@ == bytes && call_ensures(random_bytes, (), Ok::<[u8; 16], getrandom::Error>(a))
}

/// Whether the random source gave nothing when it was asked.
pub closed spec fn no_random_bytes() -> bool {
    exists|e: getrandom::Error| call_ensures(random_bytes, (), Err::<[u8; 16], getrandom::Error>(e))
}

/// Whether the clock showed this moment when it was read.
pub closed spec fn clock_showed(now: (i64, u32)) -> bool {
    call_ensures(utc_now, (), now)
}

/// Whether fresh claims could not be made when they were asked for.
pub closed spec fn no_fresh_claims() -> bool {
    exists|e: pasetors::errors::Error|
        call_ensures(new_claims, (), Err::<Claims, pasetors::errors::Error>(e))
}

/// Whether a token of this lifetime has no expiry at a moment the clock showed.
pub open spec fn no_expiry(ttl_secs: i64) -> bool {
    exists|now: (i64, u32)| #[trigger]
        clock_showed(now) && (match expiry_words(now, ttl_secs) {
            Some(exp) => !is_point_in_time(exp),
            None => true,
        })
}

/// Whether a signer can have failed to sign. Nothing about the person or the verdict enters
/// into it.
pub open spec fn signing_failed(signer: SignerView) -> bool {
    ||| signer.issuer.len() == 0
    ||| signer.audience.len() == 0
    ||| no_random_bytes()
    ||| no_fresh_claims()
    ||| no_expiry(signer.ttl_secs)
}

/// The identifier made of sixteen random bytes.
pub fn jti_of(bytes: &[u8; 16]) -> (r: String)
    ensures
        r@ == hex_words(bytes@),
        r@.len() == 32,
{
    proof {
        law_hex_round_trips(bytes@);
    }
    hex_encode(bytes)
}

/// Draw a fresh identifier: sixteen random bytes in hex.
pub fn random_jti() -> (r: Result<String, AssertionError>)
    ensures
        (match r {
            Ok(jti) => jti@.len() == 32 && exists|bytes: Seq<u8>|
                bytes.len() == 16 && drawn(bytes) && jti@ == #[trigger] hex_words(bytes),
            Err(e) => e == AssertionError::Rng && no_random_bytes(),
        }),
{
    match asked(random_bytes) {
        Ok(bytes) => {
            assert(bytes@.len() == 16);
            assert(drawn(bytes@));
            Ok(jti_of(&bytes))
        },
        Err(e) => {
            assert(call_ensures(random_bytes, (), Err::<[u8; 16], getrandom::Error>(e)));
            Err(AssertionError::Rng)
        },
    }
}

/// The expiry of a token minted at a moment, written out; nothing beyond the calendar.
pub open spec fn expiry_words(now: (i64, u32), ttl_secs: i64) -> Option<Seq<char>> {
    if i64::MIN <= now.0 + ttl_secs <= i64::MAX {
        rfc3339_words((now.0 + ttl_secs) as i64, now.1)
    } else {
        None
    }
}

/// Write out the expiry of a token minted at a moment.
pub fn expiry(now: (i64, u32), ttl_secs: i64) -> (r: Option<String>)
    ensures
        opt_view(r) == expiry_words(now, ttl_secs),
{
    match now.0.checked_add(ttl_secs) {
        Some(secs) => rfc3339(secs, now.1),
        None => None,
    }
}

/// Signs assertions with the bot's private key.
pub struct Signer {
    key: AsymmetricSecretKey<V4>,
    issuer: String,
    audience: String,
    guild: DiscordGuildId,
    kid: String,
    ttl_secs: i64,
}

/// What a signer puts into every token.
pub struct SignerView {
    /// The half of its key that the relay holds.
    pub public_key: Seq<u8>,
    pub issuer: Seq<char>,
    pub audience: Seq<char>,
    pub guild: u64,
    pub kid: Seq<char>,
    pub ttl_secs: i64,
}

/// The claims set on top of those there are: who says it, to whom, of whom, under which
/// identifier, until when, with which key, in which guild, and the verdict.
pub open spec fn asserted_claims(
    base: Map<Seq<char>, Seq<char>>,
    signer: SignerView,
    subject: DiscordUserId,
    standing: SsoStanding,
    jti: Seq<char>,
    exp: Seq<char>,
) -> Map<Seq<char>, Seq<char>> {
    base.insert("iss"@, signer.issuer).insert("aud"@, signer.audience).insert(
        "sub"@,
        decimal(subject.0 as nat),
    ).insert("jti"@, jti).insert("exp"@, exp).insert("kid"@, signer.kid).insert(
        "guild"@,
        decimal(signer.guild as nat),
    ).insert("standing"@, standing.words())
}

/// Whether claims can be made of these parts: none may be empty, and the expiry must be a
/// point in time.
pub open spec fn claimable(signer: SignerView, jti: Seq<char>, exp: Seq<char>) -> bool {
    signer.issuer.len() > 0 && signer.audience.len() > 0 && jti.len() > 0 && is_point_in_time(exp)
}

/// Whether a token answers for a signer about a subject: it is theirs, its claims are the
/// asserted ones on top of the issue and not-before times, and it expires one lifetime after
/// a moment the clock showed.
pub open spec fn answers(
    token: Seq<char>,
    signer: SignerView,
    subject: DiscordUserId,
    standing: SsoStanding,
    jti: Seq<char>,
) -> bool {
    exists|base: Map<Seq<char>, Seq<char>>, now: (i64, u32), exp: Seq<char>|
        base.dom() =~= set!["iat"@, "nbf"@, "exp"@] && clock_showed(now) && #[trigger] expiry_words(
            now,
            signer.ttl_secs,
        ) == Some(exp) && claimable(signer, jti, exp) && authentic_claims(signer.public_key, token)
            == Some(#[trigger] asserted_claims(base, signer, subject, standing, jti, exp))
}

proof fn lemma_decimal_nonempty(n: nat)
    ensures
        decimal(n).len() > 0,
{
}

proof fn lemma_own_names_are_free()
    ensures
        !is_registered("kid"@),
        !is_registered("guild"@),
        !is_registered("standing"@),
{
    reveal_strlit("kid");
    reveal_strlit("guild");
    reveal_strlit("standing");
    reveal_strlit("iss");
    reveal_strlit("sub");
    reveal_strlit("aud");
    reveal_strlit("exp");
    reveal_strlit("nbf");
    reveal_strlit("iat");
    reveal_strlit("jti");
    assert("kid"@[0] == 'k');
    assert("iss"@[0] == 'i' && "sub"@[0] == 's' && "aud"@[0] == 'a' && "exp"@[0] == 'e' && "nbf"@[0]
        == 'n' && "iat"@[0] == 'i' && "jti"@[0] == 'j');
    assert("guild"@.len() == 5 && "standing"@.len() == 8);
    assert("iss"@.len() == 3 && "sub"@.len() == 3 && "aud"@.len() == 3 && "exp"@.len() == 3
        && "nbf"@.len() == 3 && "iat"@.len() == 3 && "jti"@.len() == 3);
}

impl View for Signer {
    type V = SignerView;

    closed spec fn view(&self) -> SignerView {
        SignerView {
            public_key: key_bytes(self.key).skip(32),
            issuer: self.issuer@,
            audience: self.audience@,
            guild: self.guild.0,
            kid: self.kid@,
            ttl_secs: self.ttl_secs,
        }
    }
}

impl Signer {
    /// Build a signer from its parts. The lifetime is in seconds.
    pub fn new(
        key: AsymmetricSecretKey<V4>,
        issuer: String,
        audience: String,
        guild: DiscordGuildId,
        kid: String,
        ttl_secs: i64,
    ) -> (r: Signer)
        ensures
            r@ == (SignerView {
                public_key: key_bytes(key).skip(32),
                issuer: issuer@,
                audience: audience@,
                guild: guild.0,
                kid: kid@,
                ttl_secs,
            }),
    {
        Signer { key, issuer, audience, guild, kid, ttl_secs }
    }

    /// Set the asserted claims, given the identifier and the expiry.
    pub fn fill_claims(
        &self,
        claims: &mut Claims,
        subject: DiscordUserId,
        standing: SsoStanding,
        jti: &str,
        exp: &str,
    ) -> (r: Result<(), AssertionError>)
        ensures
            r is Ok <==> claimable(self@, jti@, exp@),
            r matches Err(e) ==> e == AssertionError::Claims,
            r is Ok ==> claims_of(*final(claims)) == asserted_claims(
                claims_of(*old(claims)),
                self@,
                subject,
                standing,
                jti@,
                exp@,
            ),
    {
        proof {
            lemma_own_names_are_free();
            lemma_decimal_nonempty(subject.0 as nat);
        }
        if set_issuer(claims, self.issuer.as_str()).is_err() {
            return Err(AssertionError::Claims);
        }
        if set_audience(claims, self.audience.as_str()).is_err() {
            return Err(AssertionError::Claims);
        }
        if set_subject(claims, number(subject.0).as_str()).is_err() {
            return Err(AssertionError::Claims);
        }
        if set_token_identifier(claims, jti).is_err() {
            return Err(AssertionError::Claims);
        }
        if set_expiration(claims, exp).is_err() {
            return Err(AssertionError::Claims);
        }
        if add_claim(claims, "kid", self.kid.as_str()).is_err() {
            return Err(AssertionError::Claims);
        }
        if add_claim(claims, "guild", number(self.guild.0).as_str()).is_err() {
            return Err(AssertionError::Claims);
        }
        if add_claim(claims, "standing", standing.as_str()).is_err() {
            return Err(AssertionError::Claims);
        }
        Ok(())
    }

    /// The claims of an assertion minted at a moment, on top of fresh ones where those could be
    /// made. An expiry beyond the calendar fails like any other unfit claim.
    pub fn claims_for(
        &self,
        subject: DiscordUserId,
        standing: SsoStanding,
        jti: &str,
        now: (i64, u32),
        fresh: Option<Claims>,
    ) -> (r: Result<Claims, AssertionError>)
        ensures
            (match (fresh, expiry_words(now, self@.ttl_secs)) {
                (Some(base), Some(exp)) => if claimable(self@, jti@, exp) {
                    r matches Ok(claims) && claims_of(claims) == asserted_claims(
                        claims_of(base),
                        self@,
                        subject,
                        standing,
                        jti@,
                        exp,
                    )
                } else {
                    r matches Err(e) && e == AssertionError::Claims
                },
                _ => r matches Err(e) && e == AssertionError::Claims,
            }),
    {
        let exp = match expiry(now, self.ttl_secs) {
            Some(exp) => exp,
            None => {
                return Err(AssertionError::Claims);
            },
        };
        let mut claims = match fresh {
            Some(c) => c,
            None => {
                return Err(AssertionError::Claims);
            },
        };
        match self.fill_claims(&mut claims, subject, standing, jti, exp.as_str()) {
            Ok(()) => Ok(claims),
            Err(e) => Err(e),
        }
    }

    /// Sign an assertion for `subject` carrying `standing`, and return it with its fresh
    /// identifier. Without an issuer or an audience there is none, and nothing is signed. Fit
    /// claims are always signed: only the identifier or the claims can fail.
    pub fn sign(&self, subject: DiscordUserId, standing: SsoStanding) -> (r: Result<
        (PasetoToken, String),
        AssertionError,
    >)
        ensures
            r matches Ok((token, jti)) ==> jti@.len() == 32 && answers(
                token.0@,
                self@,
                subject,
                standing,
                jti@,
            ),
            r matches Ok((_, jti)) ==> exists|bytes: Seq<u8>|
                bytes.len() == 16 && drawn(bytes) && jti@ == #[trigger] hex_words(bytes),
            r matches Err(e) ==> e == AssertionError::Claims || e == AssertionError::Rng,
            r is Err ==> signing_failed(self@),
            r matches Err(e) ==> (e == AssertionError::Rng ==> no_random_bytes()),
            r matches Err(e) ==> (e == AssertionError::Claims ==> self@.issuer.len() == 0
                || self@.audience.len() == 0 || no_fresh_claims() || no_expiry(self@.ttl_secs)),
            self@.issuer.len() == 0 || self@.audience.len() == 0 ==> r is Err,
    {
        let jti = match random_jti() {
            Ok(jti) => jti,
            Err(e) => {
                return Err(e);
            },
        };
        let now = asked(utc_now);
        let fresh = match asked(new_claims) {
            Ok(c) => Some(c),
            Err(e) => {
                assert(call_ensures(new_claims, (), Err::<Claims, pasetors::errors::Error>(e)));
                None
            },
        };
        assert(clock_showed(now));
        let claims = match self.claims_for(subject, standing, jti.as_str(), now, fresh) {
            Ok(c) => c,
            Err(e) => {
                return Err(e);
            },
        };
        match sign_claims(&self.key, &claims) {
            Ok(token) => {
                proof {
                    let exp = expiry_words(now, self@.ttl_secs)->0;
                    let base = claims_of(fresh->0);
                    let made = asserted_claims(base, self@, subject, standing, jti@, exp);
                    assert(authentic_claims(self@.public_key, token@) == Some(made));
                    assert(expiry_words(now, self@.ttl_secs) == Some(exp));
                }
                sealed(Some(token), jti)
            },
            Err(_) => sealed(None, jti),
        }
    }
}

/// The assertion with its identifier, once signing was tried.
pub fn sealed(signed: Option<String>, jti: String) -> (r: Result<(PasetoToken, String), AssertionError>)
    ensures
        r == (match signed {
            Some(token) => Ok((PasetoToken(token), jti)),
            None => Err(AssertionError::Sign),
        }),
{
    match signed {
        Some(token) => Ok((PasetoToken(token), jti)),
        None => Err(AssertionError::Sign),
    }
}

/// What the relay reads from a token it finds authentic: the verdict, the subject, the guild,
/// the key version, the identifier, who says so to whom, and until when.
pub proof fn law_a_token_says_what_was_signed(
    token: Seq<char>,
    signer: SignerView,
    subject: DiscordUserId,
    standing: SsoStanding,
    jti: Seq<char>,
)
    requires
        answers(token, signer, subject, standing, jti),
    ensures
        authentic_claims(signer.public_key, token) matches Some(m) && {
            &&& m["standing"@] == standing.words()
            &&& m["sub"@] == decimal(subject.0 as nat)
            &&& m["guild"@] == decimal(signer.guild as nat)
            &&& m["kid"@] == signer.kid
            &&& m["jti"@] == jti
            &&& m["iss"@] == signer.issuer
            &&& m["aud"@] == signer.audience
            &&& exists|now: (i64, u32)|
                clock_showed(now) && #[trigger] expiry_words(now, signer.ttl_secs) == Some(
                    m["exp"@],
                )
            &&& m.dom() == set![
                "iss"@,
                "aud"@,
                "sub"@,
                "jti"@,
                "exp"@,
                "kid"@,
                "guild"@,
                "standing"@,
                "iat"@,
                "nbf"@,
            ]
        },
{
    reveal_strlit("kid");
    reveal_strlit("guild");
    reveal_strlit("standing");
    reveal_strlit("iss");
    reveal_strlit("sub");
    reveal_strlit("aud");
    reveal_strlit("exp");
    reveal_strlit("jti");
    assert("guild"@.len() == 5 && "standing"@.len() == 8);
    assert("iss"@.len() == 3 && "sub"@.len() == 3 && "aud"@.len() == 3 && "exp"@.len() == 3
        && "jti"@.len() == 3 && "kid"@.len() == 3);
    assert("iss"@[0] == 'i' && "sub"@[0] == 's' && "aud"@[0] == 'a' && "exp"@[0] == 'e' && "jti"@[0]
        == 'j' && "kid"@[0] == 'k');
    let (base, now, exp) = choose|
        base: Map<Seq<char>, Seq<char>>,
        now: (i64, u32),
        exp: Seq<char>,
    |
        base.dom() =~= set!["iat"@, "nbf"@, "exp"@] && clock_showed(now) && #[trigger] expiry_words(
            now,
            signer.ttl_secs,
        ) == Some(exp) && claimable(signer, jti, exp) && authentic_claims(signer.public_key, token)
            == Some(#[trigger] asserted_claims(base, signer, subject, standing, jti, exp));
    assert(expiry_words(now, signer.ttl_secs) == Some(exp));
    let m = asserted_claims(base, signer, subject, standing, jti, exp);
    assert(m.dom() =~= set![
        "iss"@,
        "aud"@,
        "sub"@,
        "jti"@,
        "exp"@,
        "kid"@,
        "guild"@,
        "standing"@,
        "iat"@,
        "nbf"@,
    ]);
}

/// Each role gives its own standing, and not being in the server another; no two standings
/// read the same to the relay.
pub proof fn law_standings_are_told_apart(role: Option<Role>, a: SsoStanding, b: SsoStanding)
    ensures
        standing_of(role) == SsoStanding::NotInGuild <==> role is None,
        standing_of(role) == SsoStanding::Member <==> role == Some(Role::Member),
        standing_of(role) == SsoStanding::DuesExpired <==> role == Some(Role::DuesExpired),
        standing_of(role) == SsoStanding::Unverified <==> role == Some(Role::Unverified),
        SsoStanding::Member.words() == "member"@,
        SsoStanding::DuesExpired.words() == "dues_expired"@,
        SsoStanding::Unverified.words() == "unverified"@,
        SsoStanding::NotInGuild.words() == "not_in_guild"@,
        a != b ==> a.words() != b.words(),
{
    reveal_strlit("member");
    reveal_strlit("dues_expired");
    reveal_strlit("unverified");
    reveal_strlit("not_in_guild");
    assert("member"@[0] == 'm' && "dues_expired"@[0] == 'd' && "unverified"@[0] == 'u'
        && "not_in_guild"@[0] == 'n');
}

/// An expiry lies one lifetime after the moment it is counted from.
pub proof fn law_a_token_expires_one_lifetime_on(now: (i64, u32), ttl_secs: i64)
    requires
        i64::MIN <= now.0 + ttl_secs <= i64::MAX,
    ensures
        expiry_words(now, ttl_secs) == rfc3339_words((now.0 + ttl_secs) as i64, now.1),
{
}

/// How signing failed is told in words of its own.
pub proof fn law_signing_errors_say_what_failed(error: AssertionError, r: &'static str)
    requires
        call_ensures(AssertionError::message, (error,), r),
    ensures
        error == AssertionError::Claims ==> r@ == "building the assertion claims failed"@,
        error == AssertionError::Sign ==> r@ == "signing the assertion failed"@,
        error == AssertionError::Rng ==> r@ == "the OS RNG failed while generating the jti"@,
{
}

/// A signer puts in what it was made of.
pub proof fn law_a_signer_speaks_for_its_parts(
    key: AsymmetricSecretKey<V4>,
    issuer: String,
    audience: String,
    guild: DiscordGuildId,
    kid: String,
    ttl_secs: i64,
    r: Signer,
)
    requires
        call_ensures(Signer::new, (key, issuer, audience, guild, kid, ttl_secs), r),
    ensures
        r@.issuer == issuer@,
        r@.audience == audience@,
        r@.guild == guild.0,
        r@.kid == kid@,
        r@.ttl_secs == ttl_secs,
        r@.public_key == key_bytes(key).skip(32),
{
}

/// The claims made at a moment are about the person and the verdict given, and there are none
/// exactly where fresh ones could not be made or a part of them is unfit.
pub proof fn law_claims_are_about_the_person(
    signer: &Signer,
    subject: DiscordUserId,
    standing: SsoStanding,
    jti: &str,
    now: (i64, u32),
    fresh: Option<Claims>,
    r: Result<Claims, AssertionError>,
)
    requires
        call_ensures(Signer::claims_for, (signer, subject, standing, jti, now, fresh), r),
    ensures
        r is Ok <==> fresh is Some && (expiry_words(now, signer@.ttl_secs) matches Some(exp)
            && is_point_in_time(exp)) && signer@.issuer.len() > 0 && signer@.audience.len() > 0
            && jti@.len() > 0,
        (r matches Ok(c) ==> {
            let m = claims_of(c);
            &&& m["sub"@] == decimal(subject.0 as nat)
            &&& m["standing"@] == standing.words()
            &&& m["jti"@] == jti@
            &&& m["iss"@] == signer@.issuer
            &&& m["aud"@] == signer@.audience
            &&& m["kid"@] == signer@.kid
            &&& m["guild"@] == decimal(signer@.guild as nat)
            &&& Some(m["exp"@]) == expiry_words(now, signer@.ttl_secs)
        }),
        (r matches Err(e) ==> e == AssertionError::Claims),
{
    reveal_strlit("sub");
    reveal_strlit("standing");
    reveal_strlit("jti");
    reveal_strlit("iss");
    reveal_strlit("aud");
    reveal_strlit("kid");
    reveal_strlit("guild");
    reveal_strlit("exp");
    assert("standing"@.len() == 8 && "guild"@.len() == 5 && "sub"@.len() == 3 && "jti"@.len() == 3
        && "iss"@.len() == 3 && "aud"@.len() == 3 && "kid"@.len() == 3 && "exp"@.len() == 3);
    assert("sub"@[0] == 's' && "jti"@[0] == 'j' && "iss"@[0] == 'i' && "aud"@[0] == 'a' && "kid"@[0]
        == 'k' && "exp"@[0] == 'e');
}

/// A signed text becomes the token it is, under its identifier, and none is a failure to sign.
pub proof fn law_a_signature_is_sealed_as_it_is(
    signed: Option<String>,
    jti: String,
    r: Result<(PasetoToken, String), AssertionError>,
)
    requires
        call_ensures(sealed, (signed, jti), r),
    ensures
        (signed matches Some(text) ==> r == Ok::<(PasetoToken, String), AssertionError>(
            (PasetoToken(text), jti),
        )),
        signed is None ==> r == Err::<(PasetoToken, String), AssertionError>(AssertionError::Sign),
{
}

} // verus!
