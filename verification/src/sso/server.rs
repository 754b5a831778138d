//! The broker's two routes: who may call them, and what each is answered. Every denial is one
//! and the same answer.

use vstd::prelude::*;

use crate::clock::{Duration, Instant};
use crate::ids::DiscordUserId;
use crate::lookup::RateLimiter;
use crate::migs_status::quote;
use crate::sso::flow::{self, SsoDenial, SsoOutcome};
use crate::sso::store::{PendingAuthStore, PkceVerifier, State};
use crate::text::{parse_unsigned, same, split_once};

#[allow(unused_imports)]
use crate::clock::NANOS_PER_MILLI;
#[allow(unused_imports)]
use crate::lookup::spend;
#[allow(unused_imports)]
use crate::migs_status::quoted;
#[allow(unused_imports)]
use crate::sso::store::{living, Pending};
#[allow(unused_imports)]
use crate::text::{first_at, halves, unsigned_value};

#[allow(unused_imports)]
use crate::text::{decimal, law_number_round_trips, lemma_decimal_is_digits, lemma_halves_of_joined};

#[allow(unused_imports)]
use crate::text::law_halves_make_up_the_text;

verus! {

/// The one caller the begin route counts: there is one relay.
pub const SSO_CALLER_ID: u64 = 0;

/// Every completion takes at least this many milliseconds, so that how long one takes does
/// not tell how it ended.
pub const COMPLETE_FLOOR_MS: u64 = 800;

/// The socket's mode: its owner and group may use it, no one else.
pub const SOCKET_MODE: u32 = 0o660;

/// The SHA-256 digest of some bytes.
pub uninterp spec fn sha256_digest(bytes: Seq<u8>) -> Seq<u8>;

/// `sha2::Sha256::digest`: 32 bytes that depend on the bytes alone.
#[verifier::external_body]
fn sha256(bytes: &[u8]) -> (r: Vec<u8>)
    ensures
        r@ == sha256_digest(bytes@),
        r@.len() == 32,
{
    <sha2::Sha256 as sha2::Digest>::digest(bytes).to_vec()
}

/// `subtle::ConstantTimeEq::ct_eq` on bytes: whether they are equal.
#[verifier::external_body]
fn equal_in_constant_time(a: &Vec<u8>, b: &Vec<u8>) -> (r: bool)
    ensures
        r == (a@ == b@),
{
    subtle::ConstantTimeEq::ct_eq(a.as_slice(), b.as_slice()).into()
}

/// Whether a presented bearer's digest matches the configured one's. An unset bearer matches
/// nothing.
pub fn digests_match(configured: bool, presented: &Vec<u8>, expected: &Vec<u8>) -> (r: bool)
    ensures
        r == (configured && presented@ == expected@),
{
    configured && equal_in_constant_time(presented, expected)
}

/// Whether a bearer matches: the digests of the two are equal, and there is one to match.
pub open spec fn bearer_fits(presented: Seq<char>, expected: Seq<char>) -> bool {
    expected.len() > 0 && sha256_digest(vstd::utf8::encode_utf8(presented)) == sha256_digest(
        vstd::utf8::encode_utf8(expected),
    )
}

/// Check a bearer in constant time, whatever the length of what was presented. An empty
/// configured bearer matches nothing, not even an empty one.
pub fn bearer_matches(presented: &str, expected: &str) -> (r: bool)
    ensures
        r == bearer_fits(presented@, expected@),
{
    if expected.is_empty() {
        return false;
    }
    let p = sha256(presented.as_bytes());
    let e = sha256(expected.as_bytes());
    digests_match(true, &p, &e)
}

/// The right bearer always matches, and with none configured nothing does.
pub proof fn law_bearer(presented: Seq<char>, expected: Seq<char>)
    ensures
        expected.len() > 0 ==> bearer_fits(expected, expected),
        expected.len() == 0 ==> !bearer_fits(presented, expected),
{
}

/// What stands before the bearer in an authorization header.
pub const BEARER_PREFIX: &'static str = "Bearer ";

/// The bearer in an authorization header, where there is one.
pub open spec fn presented_bearer(header: Option<Seq<char>>) -> Option<Seq<char>> {
    match header {
        Some(h) => if BEARER_PREFIX@.is_prefix_of(h) {
            Some(h.skip(BEARER_PREFIX@.len() as int))
        } else {
            None
        },
        None => None,
    }
}

fn strip_prefix<'a>(s: &'a str, p: &str) -> (r: Option<&'a str>)
    ensures
        (match r {
            Some(rest) => p@.is_prefix_of(s@) && rest@ == s@.skip(p@.len() as int),
            None => !p@.is_prefix_of(s@),
        }),
{
    let n: usize = p.unicode_len();
    let len: usize = s.unicode_len();
    if len < n {
        return None;
    }
    let head = s.substring_char(0, n);
    if same(head, p) {
        let rest = s.substring_char(n, len);
        assert(rest@ =~= s@.skip(n as int));
        assert(p@ =~= s@.take(n as int));
        Some(rest)
    } else {
        proof {
            if p@.is_prefix_of(s@) {
                assert(head@ =~= p@);
            }
        }
        None
    }
}

/// The guard before both routes: whether a request may pass. A miss is answered like any
/// denial.
pub fn require_bearer(header: Option<&str>, expected: &str) -> (r: bool)
    ensures
        r == (match presented_bearer(crate::ui::opt_str_view(header)) {
            Some(p) => bearer_fits(p, expected@),
            None => false,
        }),
{
    match header {
        Some(h) => match strip_prefix(h, BEARER_PREFIX) {
            Some(p) => bearer_matches(p, expected),
            None => false,
        },
        None => false,
    }
}

/// What a route sends back.
#[derive(Debug, Clone, PartialEq, Eq)]
pub enum SsoResponse {
    /// A login began.
    Begun { authorize_url: String, state: String },
    /// A login was completed.
    Completed { assertion: String },
    /// A 403 with nothing in it.
    Forbidden,
}

/// An answer, and the abuse signal to log beside it.
#[derive(Debug, Clone, PartialEq, Eq)]
pub struct SsoReply {
    pub response: SsoResponse,
    pub alert: Option<SsoDenial>,
}

/// A denial, with its reason as the abuse signal.
pub open spec fn denial(reason: SsoDenial) -> SsoReply {
    SsoReply { response: SsoResponse::Forbidden, alert: Some(reason) }
}

/// A refusal that is no sign of abuse.
pub open spec fn quiet_refusal() -> SsoReply {
    SsoReply { response: SsoResponse::Forbidden, alert: None }
}

/// Render any denial as the one 403, with its reason as the abuse signal.
pub fn deny_response(reason: SsoDenial) -> (r: SsoReply)
    ensures
        r == denial(reason),
{
    SsoReply { response: SsoResponse::Forbidden, alert: Some(reason) }
}

/// The answer while sign-in is switched off for the guild: the same 403, but no sign of
/// abuse.
pub fn forbidden_quiet() -> (r: SsoReply)
    ensures
        r == quiet_refusal(),
{
    SsoReply { response: SsoResponse::Forbidden, alert: None }
}

/// Whatever the reason, a denial looks the same from outside, and the same as a refusal while
/// sign-in is switched off.
pub proof fn law_denials_are_uniform(a: SsoDenial, b: SsoDenial)
    ensures
        denial(a).response == denial(b).response,
        denial(a).response == quiet_refusal().response,
{
}

/// A login ready to begin.
#[derive(Debug, Clone, PartialEq, Eq)]
pub struct Login {
    pub authorize_url: String,
    pub state: State,
    pub verifier: PkceVerifier,
}

/// The guard before a login: refused quietly while switched off, denied past the rate limit.
/// The limiter is asked only while switched on. With no refusal the login may be prepared.
pub fn begin_gate(sso_enabled: bool, limiter: &mut RateLimiter, now: Instant) -> (r: Option<SsoReply>)
    ensures
        ({
            let allowed = spend(old(limiter).limit(), old(limiter).window(SSO_CALLER_ID), now);
            &&& final(limiter).limit() == old(limiter).limit()
            &&& final(limiter).windows() == (if sso_enabled {
                old(limiter).windows().insert(SSO_CALLER_ID, allowed.1)
            } else {
                old(limiter).windows()
            })
            &&& r == (if !sso_enabled {
                Some(quiet_refusal())
            } else if !allowed.0 {
                Some(denial(SsoDenial::RateLimited))
            } else {
                None
            })
        }),
{
    if !sso_enabled {
        return Some(forbidden_quiet());
    }
    if !limiter.check(DiscordUserId(SSO_CALLER_ID), now) {
        return Some(deny_response(SsoDenial::RateLimited));
    }
    None
}

/// Begin a login that passed the guard: denied with a full store.
pub fn begin_login(store: &mut PendingAuthStore, login: Login, now: Instant) -> (r: SsoReply)
    ensures
        ({
            let live = living(old(store).pending(), now, old(store).ttl());
            &&& final(store).cap() == old(store).cap()
            &&& final(store).ttl() == old(store).ttl()
            &&& if live.dom().len() >= old(store).cap() {
                r == denial(SsoDenial::StoreFull) && final(store).pending() == live
            } else {
                &&& r.alert is None
                &&& (r.response matches SsoResponse::Begun { authorize_url, state }
                    && authorize_url == login.authorize_url && state@ == login.state.0@)
                &&& final(store).pending() == live.insert(
                    login.state.0@,
                    Pending { verifier: login.verifier@, created: now },
                )
            }
        }),
{
    match flow::begin(store, login.authorize_url, login.state, login.verifier, now) {
        Ok(b) => SsoReply {
            response: SsoResponse::Begun { authorize_url: b.authorize_url, state: b.state },
            alert: None,
        },
        Err(reason) => deny_response(reason),
    }
}

/// Begin a login: refused quietly while switched off, denied past the rate limit or with a
/// full store. The limiter is asked only while switched on, and the store touched only past
/// the limiter.
pub fn begin(
    sso_enabled: bool,
    limiter: &mut RateLimiter,
    store: &mut PendingAuthStore,
    login: Login,
    now: Instant,
) -> (r: SsoReply)
    ensures
        ({
            let allowed = spend(old(limiter).limit(), old(limiter).window(SSO_CALLER_ID), now);
            let live = living(old(store).pending(), now, old(store).ttl());
            &&& final(limiter).limit() == old(limiter).limit()
            &&& final(limiter).windows() == (if sso_enabled {
                old(limiter).windows().insert(SSO_CALLER_ID, allowed.1)
            } else {
                old(limiter).windows()
            })
            &&& final(store).cap() == old(store).cap()
            &&& final(store).ttl() == old(store).ttl()
            &&& if !sso_enabled {
                r == quiet_refusal() && final(store).pending() == old(store).pending()
            } else if !allowed.0 {
                r == denial(SsoDenial::RateLimited) && final(store).pending() == old(
                    store,
                ).pending()
            } else if live.dom().len() >= old(store).cap() {
                r == denial(SsoDenial::StoreFull) && final(store).pending() == live
            } else {
                &&& r.alert is None
                &&& (r.response matches SsoResponse::Begun { authorize_url, state }
                    && authorize_url == login.authorize_url && state@ == login.state.0@)
                &&& final(store).pending() == live.insert(
                    login.state.0@,
                    Pending { verifier: login.verifier@, created: now },
                )
            }
        }),
{
    match begin_gate(sso_enabled, limiter, now) {
        Some(refusal) => refusal,
        None => begin_login(store, login, now),
    }
}

/// The guard before a completion: the refusal, where sign-in is switched off or the managed
/// roles are not set. Both are read from the live configuration.
pub fn complete_gate(sso_enabled: bool, roles_configured: bool) -> (r: Option<SsoReply>)
    ensures
        r == (if !sso_enabled {
            Some(quiet_refusal())
        } else if !roles_configured {
            Some(denial(SsoDenial::GuildReadFailed))
        } else {
            None
        }),
{
    if !sso_enabled {
        return Some(forbidden_quiet());
    }
    if !roles_configured {
        return Some(deny_response(SsoDenial::GuildReadFailed));
    }
    None
}

/// Answer a completion.
pub fn complete(outcome: SsoOutcome) -> (r: SsoReply)
    ensures
        (match outcome {
            SsoOutcome::Asserted(token) => r == (SsoReply {
                response: SsoResponse::Completed { assertion: token.0 },
                alert: None,
            }),
            SsoOutcome::Denied(reason) => r == denial(reason),
        }),
{
    match outcome {
        SsoOutcome::Asserted(token) => SsoReply {
            response: SsoResponse::Completed { assertion: token.0 },
            alert: None,
        },
        SsoOutcome::Denied(reason) => deny_response(reason),
    }
}

/// How long to hold a completion's answer back.
pub fn padding(elapsed: Duration) -> (r: Duration)
    ensures
        r.nanos == (if elapsed.nanos < COMPLETE_FLOOR_MS * NANOS_PER_MILLI {
            COMPLETE_FLOOR_MS * NANOS_PER_MILLI - elapsed.nanos
        } else {
            0
        }),
{
    let floor = Duration::from_millis(COMPLETE_FLOOR_MS);
    if elapsed.nanos < floor.nanos {
        Duration { nanos: floor.nanos - elapsed.nanos }
    } else {
        Duration { nanos: 0 }
    }
}

/// What to do about a socket path before binding.
#[derive(Debug, Clone, Copy, PartialEq, Eq, Structural)]
pub enum SocketPlan {
    /// Nothing is there: bind.
    Bind,
    /// A crash left it behind: remove it, then bind.
    RemoveAndBind,
    /// Someone serves it: give up.
    InUse,
}

/// Decide about a socket path: a live instance is never clobbered.
pub fn socket_plan(exists: bool, answers: bool) -> (r: SocketPlan)
    ensures
        r == (if !exists {
            SocketPlan::Bind
        } else if answers {
            SocketPlan::InUse
        } else {
            SocketPlan::RemoveAndBind
        }),
{
    if !exists {
        SocketPlan::Bind
    } else if answers {
        SocketPlan::InUse
    } else {
        SocketPlan::RemoveAndBind
    }
}

/// A line without the carriage return it may end in.
pub open spec fn without_cr(s: Seq<char>) -> Seq<char> {
    if s.len() > 0 && s.last() == '\r' {
        s.drop_last()
    } else {
        s
    }
}

/// The lines of a text, each ended by a newline, with or without a carriage return before it;
/// the last may lack it.
pub open spec fn text_lines(s: Seq<char>) -> Seq<Seq<char>>
    decreases s.len(),
    via text_lines_decreases
{
    if s.len() == 0 {
        Seq::empty()
    } else {
        match halves(s, '\n') {
            Some((line, rest)) => seq![without_cr(line)] + text_lines(rest),
            None => seq![s],
        }
    }
}

#[via_fn]
proof fn text_lines_decreases(s: Seq<char>) {
    lemma_rest_is_shorter(s, '\n');
}

proof fn lemma_rest_is_shorter(s: Seq<char>, c: char)
    ensures
        halves(s, c) matches Some((a, b)) ==> b.len() < s.len(),
    decreases s.len(),
{
    lemma_first_at_is_index(s, c);
}

proof fn lemma_first_at_is_index(s: Seq<char>, c: char)
    ensures
        0 <= first_at(s, c) <= s.len(),
    decreases s.len(),
{
    if s.len() > 0 && s[0] != c {
        lemma_first_at_is_index(s.drop_first(), c);
    }
}

/// The field at a position of a colon-separated line.
pub open spec fn line_field(line: Seq<char>, at: nat) -> Option<Seq<char>>
    decreases at,
{
    match halves(line, ':') {
        Some((field, rest)) => if at == 0 {
            Some(field)
        } else {
            line_field(rest, (at - 1) as nat)
        },
        None => if at == 0 {
            Some(line)
        } else {
            None
        },
    }
}

/// The group id a line gives a group: the line is `name:password:gid:members`.
pub open spec fn line_gid(line: Seq<char>, name: Seq<char>) -> Option<u32> {
    if line_field(line, 0) == Some(name) {
        match line_field(line, 2) {
            Some(field) => match unsigned_value(field, 10, u32::MAX as nat) {
                Ok(gid) => Some(gid as u32),
                Err(_) => None,
            },
            None => None,
        }
    } else {
        None
    }
}

/// The group id the first fitting line gives a group.
pub open spec fn first_gid(lines: Seq<Seq<char>>, name: Seq<char>) -> Option<u32>
    decreases lines.len(),
{
    if lines.len() == 0 {
        None
    } else {
        match line_gid(lines[0], name) {
            Some(gid) => Some(gid),
            None => first_gid(lines.drop_first(), name),
        }
    }
}

fn field_at(line: &str, at: usize) -> (r: Option<&str>)
    ensures
        crate::ui::opt_str_view(r) == line_field(line@, at as nat),
    decreases at,
{
    match split_once(line, ':') {
        Some((field, rest)) => {
            if at == 0 {
                Some(field)
            } else {
                field_at(rest, at - 1)
            }
        },
        None => {
            if at == 0 {
                Some(line)
            } else {
                None
            }
        },
    }
}

fn gid_of_line(line: &str, name: &str) -> (r: Option<u32>)
    ensures
        r == line_gid(line@, name@),
{
    match field_at(line, 0) {
        Some(first) => {
            if !same(first, name) {
                return None;
            }
        },
        None => {
            return None;
        },
    }
    match field_at(line, 2) {
        Some(field) => match parse_unsigned(field, 10, 0xffff_ffff) {
            Ok(gid) => Some(gid as u32),
            Err(_) => None,
        },
        None => None,
    }
}

fn drop_cr(line: &str) -> (r: &str)
    ensures
        r@ == without_cr(line@),
{
    let n: usize = line.unicode_len();
    if n > 0 && line.get_char(n - 1) == '\r' {
        let r = line.substring_char(0, n - 1);
        assert(r@ =~= line@.drop_last());
        r
    } else {
        line
    }
}

/// Find a group's id in the system's group file.
pub fn parse_group_gid(contents: &str, name: &str) -> (r: Option<u32>)
    ensures
        r == first_gid(text_lines(contents@), name@),
    decreases contents@.len(),
{
    if contents.is_empty() {
        return None;
    }
    match split_once(contents, '\n') {
        Some((line, rest)) => {
            proof {
                lemma_rest_is_shorter(contents@, '\n');
                assert(text_lines(contents@).drop_first() =~= text_lines(rest@));
            }
            match gid_of_line(drop_cr(line), name) {
                Some(gid) => Some(gid),
                None => parse_group_gid(rest, name),
            }
        },
        None => {
            assert(text_lines(contents@).drop_first() =~= Seq::<Seq<char>>::empty());
            assert(first_gid(Seq::<Seq<char>>::empty(), name@) is None);
            gid_of_line(contents, name)
        },
    }
}

/// Why the socket cannot be handed to a group, given its quoted name.
pub open spec fn no_group_words(quoted_group: Seq<char>) -> Seq<char> {
    "SSO socket group "@ + quoted_group + " not found in /etc/group"@
}

/// Say why the socket cannot be handed to a group.
pub fn no_group(quoted_group: &str) -> (r: String)
    ensures
        r@ == no_group_words(quoted_group@),
{
    "SSO socket group ".to_owned().concat(quoted_group).concat(" not found in /etc/group")
}

/// The group to hand the socket to: none where none is configured, and an error where it is
/// not in the group file or that cannot be read.
pub fn socket_gid(group: Option<&str>, group_file: Option<&str>) -> (r: Result<
    Option<u32>,
    String,
>)
    ensures
        (match group {
            None => r == Ok::<Option<u32>, String>(None),
            Some(name) => {
                let found = match group_file {
                    Some(contents) => first_gid(text_lines(contents@), name@),
                    None => None,
                };
                match found {
                    Some(gid) => r == Ok::<Option<u32>, String>(Some(gid)),
                    None => r matches Err(why) && why@ == no_group_words(quoted(name@)),
                }
            },
        }),
{
    match group {
        None => Ok(None),
        Some(name) => {
            let found = match group_file {
                Some(contents) => parse_group_gid(contents, name),
                None => None,
            };
            match found {
                Some(gid) => Ok(Some(gid)),
                None => Err(no_group(quote(name).as_str())),
            }
        },
    }
}

/// A request passes exactly with a header that is `Bearer` and a blank before a bearer that
/// fits.
pub proof fn law_only_the_bearer_passes(header: Option<&str>, expected: &str, r: bool)
    requires
        call_ensures(require_bearer, (header, expected), r),
    ensures
        header is None ==> !r,
        expected@.len() == 0 ==> !r,
        header is Some && header->0@ == "Bearer "@ + expected@ && expected@.len() > 0 ==> r,
        r ==> header is Some && "Bearer "@.is_prefix_of(header->0@) && bearer_fits(
            header->0@.skip("Bearer "@.len() as int),
            expected@,
        ),
{
    if header is Some && header->0@ == "Bearer "@ + expected@ {
        assert(("Bearer "@ + expected@).skip("Bearer "@.len() as int) =~= expected@);
        assert("Bearer "@.is_prefix_of("Bearer "@ + expected@)) by {
            assert(("Bearer "@ + expected@).take("Bearer "@.len() as int) =~= "Bearer "@);
        }
    }
}

/// A login is begun in this order: switched off it is refused quietly and counts nothing;
/// past the limit it is denied; with a full store it is denied; and otherwise its own address
/// and state are handed out and it is pending under its own secret.
pub proof fn law_a_login_begins_past_every_guard(
    sso_enabled: bool,
    limiter: &mut RateLimiter,
    store: &mut PendingAuthStore,
    login: Login,
    now: Instant,
    r: SsoReply,
)
    requires
        call_ensures(begin, (sso_enabled, limiter, store, login, now), r),
    ensures
        ({
            let allowed = spend(old(limiter).limit(), old(limiter).window(SSO_CALLER_ID), now).0;
            let room = living(old(store).pending(), now, old(store).ttl()).dom().len() < old(
                store,
            ).cap();
            &&& r.response is Begun <==> sso_enabled && allowed && room
            &&& r.response is Begun || r.response is Forbidden
            &&& (r.response matches SsoResponse::Begun { authorize_url, state } ==> authorize_url
                == login.authorize_url && state@ == login.state.0@ && r.alert is None && final(store).pending().dom().contains(login.state.0@) && final(store).pending()[login.state.0@].verifier == login.verifier@)
            &&& !sso_enabled ==> r.alert is None && final(limiter).windows() == old(
                limiter,
            ).windows() && final(store).pending() == old(store).pending()
            &&& sso_enabled && !allowed ==> r.alert == Some(SsoDenial::RateLimited) && final(store).pending() == old(store).pending()
            &&& sso_enabled && allowed && !room ==> r.alert == Some(SsoDenial::StoreFull)
        }),
{
}

/// The guard alone decides as the whole does, and counts only what it is asked while switched
/// on.
pub proof fn law_the_guard_counts_while_switched_on(
    sso_enabled: bool,
    limiter: &mut RateLimiter,
    now: Instant,
    r: Option<SsoReply>,
)
    requires
        call_ensures(begin_gate, (sso_enabled, limiter, now), r),
    ensures
        r is None <==> sso_enabled && spend(
            old(limiter).limit(),
            old(limiter).window(SSO_CALLER_ID),
            now,
        ).0,
        (r matches Some(reply) ==> reply.response is Forbidden && (reply.alert is None
            <==> !sso_enabled) && (reply.alert is Some ==> reply.alert == Some(
            SsoDenial::RateLimited,
        ))),
        !sso_enabled ==> final(limiter).windows() == old(limiter).windows(),
        sso_enabled ==> final(limiter).window(SSO_CALLER_ID) == Some(
            spend(old(limiter).limit(), old(limiter).window(SSO_CALLER_ID), now).1,
        ),
{
}

/// A completion hands its own token out and answers every denial alike, its reason kept for
/// the log; it is not even tried while switched off or before the roles are set.
pub proof fn law_a_completion_hands_out_its_token(
    outcome: SsoOutcome,
    r: SsoReply,
    sso_enabled: bool,
    roles_configured: bool,
    refusal: Option<SsoReply>,
)
    requires
        call_ensures(complete, (outcome,), r),
        call_ensures(complete_gate, (sso_enabled, roles_configured), refusal),
    ensures
        (outcome matches SsoOutcome::Asserted(token) ==> (
        r.response matches SsoResponse::Completed { assertion } && assertion == token.0)
            && r.alert is None),
        (outcome matches SsoOutcome::Denied(reason) ==> r.response is Forbidden && r.alert == Some(
            reason,
        )),
        refusal is None <==> sso_enabled && roles_configured,
        (refusal matches Some(reply) ==> reply.response is Forbidden && (reply.alert is None
            <==> !sso_enabled) && (reply.alert is Some ==> reply.alert == Some(
            SsoDenial::GuildReadFailed,
        ))),
{
}

/// However long a completion took, with its padding it took the floor, and no more where it
/// was past it.
pub proof fn law_completions_take_the_floor(spent: Duration, r: Duration)
    requires
        call_ensures(padding, (spent,), r),
    ensures
        spent.nanos + r.nanos >= 800_000_000,
        spent.nanos <= 800_000_000 ==> spent.nanos + r.nanos == 800_000_000,
        spent.nanos >= 800_000_000 ==> r.nanos == 0,
{
}

/// A socket that someone serves is left alone, one that nobody serves is replaced, and one
/// that is not there is simply bound.
pub proof fn law_a_live_socket_is_left_alone(exists: bool, answers: bool, r: SocketPlan)
    requires
        call_ensures(socket_plan, (exists, answers), r),
    ensures
        r == SocketPlan::InUse <==> exists && answers,
        r == SocketPlan::RemoveAndBind <==> exists && !answers,
        r == SocketPlan::Bind <==> !exists,
{
}

/// The socket goes to the group named, with the id the group file's first fitting line gives
/// it; no name is no group, and a name that is not there is an error that quotes it.
pub proof fn law_the_socket_goes_to_its_group(
    group: Option<&str>,
    group_file: Option<&str>,
    r: Result<Option<u32>, String>,
)
    requires
        call_ensures(socket_gid, (group, group_file), r),
    ensures
        group is None <==> r == Ok::<Option<u32>, String>(None),
        group is Some && group_file is None ==> r is Err,
        group is Some && group_file is Some ==> (match first_gid(
            text_lines(group_file->0@),
            group->0@,
        ) {
            Some(gid) => r == Ok::<Option<u32>, String>(Some(gid)),
            None => r is Err,
        }),
        (r matches Err(why) ==> why@ == "SSO socket group "@ + quoted(group->0@)
            + " not found in /etc/group"@),
{
}

/// A line of the group file gives its own group its own id, and a group of another name none.
pub proof fn law_a_group_line_names_its_group(
    name: Seq<char>,
    password: Seq<char>,
    gid: u32,
    members: Seq<char>,
    other: Seq<char>,
)
    requires
        !name.contains(':'),
        !password.contains(':'),
        other != name,
    ensures
        ({
            let line = name + seq![':'] + (password + seq![':'] + (decimal(gid as nat) + seq![':']
                + members));
            &&& line_gid(line, name) == Some(gid)
            &&& line_gid(line, other) is None
        }),
{
    let d = decimal(gid as nat);
    let tail2 = d + seq![':'] + members;
    let tail1 = password + seq![':'] + tail2;
    law_number_round_trips(gid as nat, u32::MAX as nat);
    lemma_decimal_is_digits(gid as nat);
    lemma_halves_of_joined(name, ':', tail1);
    lemma_halves_of_joined(password, ':', tail2);
    lemma_halves_of_joined(d, ':', members);
    reveal_with_fuel(line_field, 4);
}

/// The first line that gives a group an id decides, whatever follows it.
pub proof fn law_the_first_fitting_line_decides(lines: Seq<Seq<char>>, name: Seq<char>, i: int)
    requires
        0 <= i < lines.len(),
        line_gid(lines[i], name) is Some,
        forall|j: int| 0 <= j < i ==> line_gid(#[trigger] lines[j], name) is None,
    ensures
        first_gid(lines, name) == line_gid(lines[i], name),
    decreases i,
{
    if i > 0 {
        let rest = lines.drop_first();
        assert forall|j: int| 0 <= j < i - 1 implies line_gid(#[trigger] rest[j], name) is None by {
            assert(rest[j] == lines[j + 1]);
        }
        law_the_first_fitting_line_decides(rest, name, i - 1);
    }
}

/// A line and a newline before a text are one line more, its carriage return aside.
pub proof fn law_lines_end_in_newlines(line: Seq<char>, rest: Seq<char>)
    requires
        !line.contains('\n'),
    ensures
        text_lines(line + seq!['\n'] + rest) == seq![without_cr(line)] + text_lines(rest),
        line.len() > 0 ==> text_lines(line) == seq![line],
        without_cr(line.push('\r')) == line,
        line.len() > 0 && line.last() != '\r' ==> without_cr(line) == line,
{
    lemma_halves_of_joined(line, '\n', rest);
    law_halves_make_up_the_text(line, '\n');
    assert(line.push('\r').drop_last() =~= line);
}

/// A login that passed the guard begins unless the store is full.
pub proof fn law_a_guarded_login_begins(
    store: &mut PendingAuthStore,
    login: Login,
    now: Instant,
    r: SsoReply,
)
    requires
        call_ensures(begin_login, (store, login, now), r),
    ensures
        ({
            let room = living(old(store).pending(), now, old(store).ttl()).dom().len() < old(
                store,
            ).cap();
            &&& r.response is Begun <==> room
            &&& (r.response matches SsoResponse::Begun { authorize_url, state } ==> authorize_url
                == login.authorize_url && state@ == login.state.0@ && r.alert is None
                && final(store).pending().dom().contains(login.state.0@)
                && final(store).pending()[login.state.0@].verifier == login.verifier@)
            &&& !room ==> r.response is Forbidden && r.alert == Some(SsoDenial::StoreFull)
        }),
{
}

} // verus!
