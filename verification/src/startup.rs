//! What startup decides: whether to migrate or serve, whether and where the stand-in source
//! listens, whether single sign-on is served, and whether there is a roster to serve.

use vstd::prelude::*;

use crate::migs_status::quote;
use crate::text::{chars_of, parse_unsigned, same, same_ignoring_case, split_once, trim};
use crate::ui::as_opt_str;

#[allow(unused_imports)]
use crate::migs_status::quoted;
#[allow(unused_imports)]
use crate::text::{ascii_lower, first_at, halves, trimmed, unsigned_value};
#[allow(unused_imports)]
use crate::ui::opt_view;

#[allow(unused_imports)]
use crate::text::{begins_ignoring_case, law_halves_make_up_the_text, lemma_halves_of_joined};

verus! {

/// Whether the process was asked to migrate rather than serve.
pub fn is_migrate(first_argument: Option<&str>) -> (r: bool)
    ensures
        r == (first_argument matches Some(s) && s@ == "migrate"@),
{
    match first_argument {
        Some(s) => same(s, "migrate"),
        None => false,
    }
}

/// Whether two texts are equal but for ASCII case.
pub open spec fn equal_ignoring_case(a: Seq<char>, b: Seq<char>) -> bool {
    a.len() == b.len() && forall|i: int|
        0 <= i < a.len() ==> ascii_lower(#[trigger] a[i]) == ascii_lower(b[i])
}

/// Whether a setting asks for the stand-in source: set, and not blank, `0` or `false`.
pub open spec fn asks_for_mock(raw: Option<&str>) -> bool {
    match raw {
        Some(s) => {
            let v = trimmed(s@);
            v.len() > 0 && v != "0"@ && !equal_ignoring_case(v, "false"@)
        },
        None => false,
    }
}

/// Whether the stand-in source is asked for.
pub fn mock_enabled(raw: Option<&str>) -> (r: bool)
    ensures
        r == asks_for_mock(raw),
{
    match raw {
        Some(s) => {
            let v = trim(s);
            !v.is_empty() && !same(v, "0") && !same_ignoring_case(v, "false")
        },
        None => false,
    }
}

/// Where `://` first stands; the length where it does not.
pub open spec fn scheme_at(s: Seq<char>) -> int
    decreases s.len(),
{
    if s.len() == 0 {
        0
    } else if s.len() >= 3 && s[0] == ':' && s[1] == '/' && s[2] == '/' {
        0
    } else {
        1 + scheme_at(s.drop_first())
    }
}

/// The text after the first `://`; the whole text where there is none.
pub open spec fn after_scheme(s: Seq<char>) -> Seq<char> {
    if scheme_at(s) < s.len() {
        s.skip(scheme_at(s) + 3)
    } else {
        s
    }
}

/// The host and port of a base URL: what stands between the scheme and the first slash.
pub open spec fn authority_of(base: Seq<char>) -> Seq<char> {
    let rest = after_scheme(base);
    match halves(rest, '/') {
        Some((a, _)) => a,
        None => rest,
    }
}

spec fn scheme_here(s: Seq<char>, j: int) -> bool {
    j + 3 <= s.len() && s[j] == ':' && s[j + 1] == '/' && s[j + 2] == '/'
}

proof fn lemma_scheme_at(s: Seq<char>, i: int)
    requires
        0 <= i <= s.len(),
        i < s.len() ==> scheme_here(s, i),
        forall|j: int| 0 <= j < i ==> !#[trigger] scheme_here(s, j),
    ensures
        scheme_at(s) == i,
    decreases s.len(),
{
    if i > 0 {
        let t = s.drop_first();
        assert(!scheme_here(s, 0));
        assert forall|j: int| 0 <= j < i - 1 implies !#[trigger] scheme_here(t, j) by {
            assert(!scheme_here(s, j + 1));
        }
        lemma_scheme_at(t, i - 1);
    }
}

fn skip_scheme(s: &str) -> (r: &str)
    ensures
        r@ == after_scheme(s@),
{
    let cs = chars_of(s);
    let n: usize = cs.len();
    let mut i: usize = 0;
    while i < n
        invariant
            i <= n == cs.len(),
            cs@ == s@,
            forall|j: int| 0 <= j < i ==> !#[trigger] scheme_here(s@, j),
        decreases n - i,
    {
        if n - i >= 3 && cs[i] == ':' && cs[i + 1] == '/' && cs[i + 2] == '/' {
            let rest = s.substring_char(i + 3, n);
            proof {
                assert(scheme_here(s@, i as int));
                lemma_scheme_at(s@, i as int);
                assert(rest@ =~= s@.skip(i + 3));
            }
            return rest;
        }
        assert(!scheme_here(s@, i as int));
        i += 1;
    }
    proof {
        lemma_scheme_at(s@, n as int);
    }
    s
}

/// Where the stand-in source listens: the host and port of the base URL, so that it cannot
/// drift from the address the client calls. A base without an explicit port is refused.
pub fn mock_authority(base: &str) -> (r: Result<String, String>)
    ensures
        (match r {
            Ok(authority) => authority@ == authority_of(base@) && authority@.contains(':'),
            Err(why) => !authority_of(base@).contains(':') && why@ == "SOLIDARITY_TECH_BASE_URL ("@
                + base@ + ") must include an explicit host:port for the mock to bind"@,
        }),
{
    let rest = skip_scheme(base);
    let authority = match split_once(rest, '/') {
        Some((a, _)) => a,
        None => rest,
    };
    assert(authority@ == authority_of(base@));
    proof {
        lemma_contains(authority@, ':');
    }
    match split_once(authority, ':') {
        Some(_) => Ok(authority.to_owned()),
        None => Err(
            "SOLIDARITY_TECH_BASE_URL (".to_owned().concat(base).concat(
                ") must include an explicit host:port for the mock to bind",
            ),
        ),
    }
}

proof fn lemma_contains(s: Seq<char>, c: char)
    ensures
        s.contains(c) <==> halves(s, c) is Some,
    decreases s.len(),
{
    if s.len() > 0 {
        lemma_contains(s.drop_first(), c);
        if s[0] == c {
            assert(s.contains(s[0]));
        } else {
            if s.contains(c) {
                let i = choose|i: int| 0 <= i < s.len() && s[i] == c;
                assert(s.drop_first()[i - 1] == c);
            }
            if s.drop_first().contains(c) {
                let i = choose|i: int| 0 <= i < s.drop_first().len() && s.drop_first()[i] == c;
                assert(s[i + 1] == c);
            }
        }
    }
}

/// The stand-in source's address, where it is asked for: an error where it is and the base
/// URL is unset or has no port.
pub fn mock_address(mock: Option<&str>, base: Option<&str>) -> (r: Result<Option<String>, String>)
    ensures
        (match r {
            Ok(None) => !asks_for_mock(mock),
            Ok(Some(authority)) => asks_for_mock(mock) && (base matches Some(b) && authority@
                == authority_of(b@) && authority@.contains(':')),
            Err(why) => asks_for_mock(mock) && why@ == (match base {
                None => "SOLIDARITY_TECH_MOCK is set but SOLIDARITY_TECH_BASE_URL is not"@,
                Some(b) => "SOLIDARITY_TECH_BASE_URL ("@ + b@
                    + ") must include an explicit host:port for the mock to bind"@,
            }) && (base matches Some(b) ==> !authority_of(b@).contains(':')),
        }),
{
    if !mock_enabled(mock) {
        return Ok(None);
    }
    match base {
        None => Err("SOLIDARITY_TECH_MOCK is set but SOLIDARITY_TECH_BASE_URL is not".to_owned()),
        Some(b) => match mock_authority(b) {
            Ok(authority) => Ok(Some(authority)),
            Err(why) => Err(why),
        },
    }
}

/// The settings of a migration run, each absent where unset.
#[derive(Debug, Clone, PartialEq, Eq)]
pub struct MigrateEnv {
    pub db_name: Option<String>,
    pub password: Option<String>,
    pub host: Option<String>,
    pub port: Option<String>,
}

/// Where a migration run connects.
#[derive(Debug, Clone, PartialEq, Eq)]
pub struct MigrateTarget {
    pub db_name: String,
    pub password: String,
    pub host: String,
    pub port: u16,
}

pub const NO_DB_NAME: &'static str = "DB_NAME must be set for the `migrate` subcommand";

pub const NO_PASSWORD: &'static str = "migration password not found (credential db_migration_password / env DB_MIGRATION_PASSWORD)";

pub const DEFAULT_DB_PORT: u16 = 5432;

/// Why a text is no port, given its quoted form.
pub open spec fn bad_port_words(quoted_port: Seq<char>) -> Seq<char> {
    "DB_MIGRATE_PORT must be a u16 port number, got "@ + quoted_port
}

/// Say why a text is no port.
pub fn bad_port(quoted_port: &str) -> (r: String)
    ensures
        r@ == bad_port_words(quoted_port@),
{
    "DB_MIGRATE_PORT must be a u16 port number, got ".to_owned().concat(quoted_port)
}

/// Where a migration run connects, or the first thing missing or wrong. Host and port
/// default to loopback; a port that is set but is none fails loudly.
pub fn migrate_target(env: MigrateEnv) -> (r: Result<MigrateTarget, String>)
    ensures
        (match r {
            Ok(t) => {
                &&& env.db_name == Some(t.db_name)
                &&& env.password == Some(t.password)
                &&& t.host@ == (match env.host {
                    Some(h) => h@,
                    None => "127.0.0.1"@,
                })
                &&& (match env.port {
                    Some(p) => unsigned_value(p@, 10, u16::MAX as nat) == Ok::<
                        nat,
                        crate::text::IntError,
                    >(t.port as nat),
                    None => t.port == DEFAULT_DB_PORT,
                })
            },
            Err(why) => if env.db_name is None {
                why@ == NO_DB_NAME@
            } else if env.password is None {
                why@ == NO_PASSWORD@
            } else {
                env.port matches Some(p) && unsigned_value(p@, 10, u16::MAX as nat) is Err && why@
                    == bad_port_words(quoted(p@))
            },
        }),
{
    let db_name = match env.db_name {
        Some(s) => s,
        None => {
            return Err(NO_DB_NAME.to_owned());
        },
    };
    let password = match env.password {
        Some(s) => s,
        None => {
            return Err(NO_PASSWORD.to_owned());
        },
    };
    let host = match env.host {
        Some(s) => s,
        None => "127.0.0.1".to_owned(),
    };
    let port: u16 = match as_opt_str(&env.port) {
        Some(p) => match parse_unsigned(p, 10, 65535) {
            Ok(v) => v as u16,
            Err(_) => {
                return Err(bad_port(quote(p).as_str()));
            },
        },
        None => DEFAULT_DB_PORT,
    };
    Ok(MigrateTarget { db_name, password, host, port })
}

/// Whether to serve single sign-on: only where the deployment asks for it and the managed
/// roles it answers from were set when the bot came up.
pub fn serves_sso(enabled: bool, roles_configured: bool) -> (r: bool)
    ensures
        r == (enabled && roles_configured),
{
    enabled && roles_configured
}

pub const NO_ROSTER: &'static str = "no member roster available: the initial sweep produced nothing and the cache is empty";

/// Whether to start serving: a failed or empty first sweep does not matter while the durable
/// cache holds a roster, but with nothing to serve at all the start fails.
pub fn serve_roster(cache_is_populated: bool) -> (r: Result<(), &'static str>)
    ensures
        r is Ok <==> cache_is_populated,
        r matches Err(why) ==> why@ == NO_ROSTER@,
{
    if cache_is_populated {
        Ok(())
    } else {
        Err(NO_ROSTER)
    }
}

/// Only the word itself asks for a migration.
pub proof fn law_only_migrate_migrates(first: Option<&str>, r: bool)
    requires
        call_ensures(is_migrate, (first,), r),
    ensures
        r <==> first is Some && first->0@ == "migrate"@,
{
}

/// The stand-in source is used only where it is asked for, and is then bound at the host and
/// port of the very address the client calls; an address without a port, or none, is an
/// error.
pub proof fn law_the_stand_in_listens_where_it_is_called(
    mock: Option<&str>,
    base: Option<&str>,
    r: Result<Option<String>, String>,
)
    requires
        call_ensures(mock_address, (mock, base), r),
    ensures
        r == Ok::<Option<String>, String>(None) <==> !asks_for_mock(mock),
        asks_for_mock(mock) ==> (r is Ok <==> base is Some && authority_of(base->0@).contains(':')),
        (r matches Ok(Some(at)) ==> base is Some && at@ == authority_of(base->0@)),
        asks_for_mock(mock) && base is None ==> (r matches Err(why) && why@
            == "SOLIDARITY_TECH_MOCK is set but SOLIDARITY_TECH_BASE_URL is not"@),
        asks_for_mock(None) == false,
{
}

/// A migration connects where it was told to, at the loopback address and the usual port
/// where it was not, and never without a database and a password.
pub proof fn law_a_migration_connects_where_told(
    env: MigrateEnv,
    r: Result<MigrateTarget, String>,
)
    requires
        call_ensures(migrate_target, (env,), r),
    ensures
        r is Ok <==> env.db_name is Some && env.password is Some && (env.port matches Some(p)
            ==> unsigned_value(p@, 10, u16::MAX as nat) is Ok),
        (r matches Ok(t) ==> env.db_name == Some(t.db_name) && env.password == Some(t.password) && (
        env.host is None ==> t.host@ == "127.0.0.1"@) && (env.host matches Some(h) ==> t.host@
            == h@) && (env.port is None ==> t.port == 5432) && (env.port matches Some(p)
            ==> unsigned_value(p@, 10, u16::MAX as nat) == Ok::<nat, crate::text::IntError>(
            t.port as nat,
        ))),
        env.db_name is None ==> (r matches Err(why) && why@ == NO_DB_NAME@),
        env.db_name is Some && env.password is None ==> (r matches Err(why) && why@
            == NO_PASSWORD@),
        env.db_name is Some && env.password is Some && r is Err ==> (env.port matches Some(p)
            && r->Err_0@ == "DB_MIGRATE_PORT must be a u16 port number, got "@ + quoted(p@)),
{
}

/// Single sign-on is served only where it is asked for and can be answered, and the bot
/// serves only with a roster.
pub proof fn law_serving_needs_what_it_serves(
    enabled: bool,
    roles_configured: bool,
    sso: bool,
    populated: bool,
    start: Result<(), &'static str>,
)
    requires
        call_ensures(serves_sso, (enabled, roles_configured), sso),
        call_ensures(serve_roster, (populated,), start),
    ensures
        sso <==> enabled && roles_configured,
        start is Ok <==> populated,
        (start matches Err(why) ==> why@ == NO_ROSTER@),
{
}

/// The stand-in source is asked for by anything set but a blank, `0`, or `false` in any
/// letter case.
pub proof fn law_only_a_refusal_refuses_the_stand_in(raw: &str)
    ensures
        asks_for_mock(Some(raw)) <==> trimmed(raw@).len() > 0 && trimmed(raw@) != "0"@ && !(
        trimmed(raw@).len() == "false"@.len() && begins_ignoring_case(trimmed(raw@), "false"@)),
        !asks_for_mock(None),
{
}

/// The address of a base URL is what stands between its scheme and the path.
pub proof fn law_the_address_stands_between_scheme_and_path(
    scheme: Seq<char>,
    address: Seq<char>,
    path: Seq<char>,
)
    requires
        !scheme.contains(':'),
        !address.contains('/'),
    ensures
        authority_of(scheme + seq![':', '/', '/'] + address) == address,
        authority_of(scheme + seq![':', '/', '/'] + address + seq!['/'] + path) == address,
{
    let mark = seq![':', '/', '/'];
    let bare = scheme + mark + address;
    let full = bare + seq!['/'] + path;
    let at = scheme.len() as int;
    assert forall|j: int| 0 <= j < at implies !#[trigger] scheme_here(bare, j) by {
        assert(bare[j] == scheme[j]);
    }
    assert forall|j: int| 0 <= j < at implies !#[trigger] scheme_here(full, j) by {
        assert(full[j] == scheme[j]);
    }
    assert(scheme_here(bare, at));
    assert(scheme_here(full, at));
    lemma_scheme_at(bare, at);
    lemma_scheme_at(full, at);
    assert(bare.skip(at + 3) =~= address);
    assert(full.skip(at + 3) =~= address + seq!['/'] + path);
    law_halves_make_up_the_text(address, '/');
    lemma_halves_of_joined(address, '/', path);
}

} // verus!
