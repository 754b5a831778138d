//! Beginning and completing a login, fail-closed. A person who is no member is not denied:
//! once their identity is known they get a signed negative, so a member and a non-member are
//! one shape.

use vstd::prelude::*;

use crate::clock::Instant;
use crate::ids::DiscordUserId;
use crate::role::Role;
use crate::sso::assertion::{AssertionError, PasetoToken, Signer, SsoStanding};
use crate::sso::store::{PendingAuthStore, PkceVerifier, State};

#[allow(unused_imports)]
use crate::sso::assertion::{
    answers, authentic_claims, law_a_token_says_what_was_signed, signing_failed, standing_of,
    SignerView,
};
#[allow(unused_imports)]
use crate::text::decimal;
#[allow(unused_imports)]
use crate::sso::store::{lives, living, Pending};

#[allow(unused_imports)]
use crate::clock::elapsed;

verus! {

/// What a begun login hands the relay.
#[derive(Debug, Clone, PartialEq, Eq)]
pub struct BeginResponse {
    /// Where to send the person.
    pub authorize_url: String,
    /// What the callback must bring back.
    pub state: String,
}

/// Why a login was denied. All of them look the same from outside.
#[derive(Debug, Clone, Copy, PartialEq, Eq, Structural)]
pub enum SsoDenial {
    /// Too many logins were begun.
    RateLimited,
    /// The state is unknown, past its time, or already used.
    StateInvalid,
    /// The code could not be exchanged.
    CodeExchangeFailed,
    /// The person behind the token could not be read.
    UserReadFailed,
    /// Their role could not be read.
    GuildReadFailed,
    SignFailed,
    /// The audit row could not be written: no credential leaves unlogged.
    AuditUnavailable,
    /// No more logins can be pending.
    StoreFull,
}

/// How a completed login ends.
#[derive(Debug, Clone, PartialEq, Eq)]
pub enum SsoOutcome {
    Asserted(PasetoToken),
    Denied(SsoDenial),
}

/// Remember a login that is about to begin, and hand out its address and state.
pub fn begin(
    store: &mut PendingAuthStore,
    authorize_url: String,
    state: State,
    verifier: PkceVerifier,
    now: Instant,
) -> (r: Result<BeginResponse, SsoDenial>)
    ensures
        (match r {
            Ok(b) => b.authorize_url == authorize_url && b.state@ == state.0@,
            Err(reason) => reason == SsoDenial::StoreFull,
        }),
        r is Ok <==> living(old(store).pending(), now, old(store).ttl()).dom().len() < old(
            store,
        ).cap(),
        final(store).pending() == (if r is Ok {
            living(old(store).pending(), now, old(store).ttl()).insert(
                state.0@,
                Pending { verifier: verifier@, created: now },
            )
        } else {
            living(old(store).pending(), now, old(store).ttl())
        }),
        final(store).cap() == old(store).cap(),
        final(store).ttl() == old(store).ttl(),
{
    let shown = state.0.clone();
    match store.begin(state, verifier, now) {
        Ok(()) => Ok(BeginResponse { authorize_url, state: shown }),
        Err(_) => Err(SsoDenial::StoreFull),
    }
}

/// The audit action of a completed login.
pub const SSO_ACTION: &'static str = "sso_check";

/// The audit row of a completed login. Negatives are recorded too.
#[derive(Debug, Clone, PartialEq, Eq)]
pub struct SsoAuditRow {
    pub actor: DiscordUserId,
    pub subject: DiscordUserId,
    pub standing: SsoStanding,
    pub audience: String,
    pub jti: String,
}

/// Where the completion of a login stands.
#[derive(Debug, Clone, PartialEq, Eq)]
pub enum CompletePhase {
    Start,
    Exchanging,
    ReadingUser,
    ReadingRole(DiscordUserId),
    /// Writing the audit row before this token is handed out.
    Auditing(PasetoToken),
    Done,
}

/// What just happened to it.
#[derive(Debug, Clone, PartialEq, Eq)]
pub enum CompleteEvent {
    /// The callback came in with this state.
    Called { state: String, now: Instant },
    /// The code was exchanged for a token, or could not be.
    Exchanged(bool),
    /// The person behind the token was read, or could not be.
    UserRead(Option<DiscordUserId>),
    /// Their role in the guild was read, and is none where they are not in it; absent where
    /// it could not be read.
    RoleRead(Option<Option<Role>>),
    /// The audit row was written, or could not be.
    Audited(bool),
}

/// What it does next.
#[derive(Debug, Clone, PartialEq, Eq)]
pub enum CompleteAction {
    /// Exchange the code, proved with this.
    Exchange(PkceVerifier),
    /// Read the person behind the token.
    ReadUser,
    /// Read this person's role in the guild.
    ReadRole(DiscordUserId),
    /// Write this audit row.
    Audit(SsoAuditRow),
    /// End like this.
    Finish(SsoOutcome),
    /// Nothing: the event does not belong to this phase.
    Ignore,
}

/// Denied for this reason.
pub open spec fn denied(reason: SsoDenial) -> (CompletePhase, CompleteAction) {
    (CompletePhase::Done, CompleteAction::Finish(SsoOutcome::Denied(reason)))
}

fn deny(reason: SsoDenial) -> (r: (CompletePhase, CompleteAction))
    ensures
        r == denied(reason),
{
    (CompletePhase::Done, CompleteAction::Finish(SsoOutcome::Denied(reason)))
}

/// Whether an audit row says this.
pub open spec fn row_says(
    row: SsoAuditRow,
    actor: DiscordUserId,
    subject: DiscordUserId,
    standing: SsoStanding,
    audience: Seq<char>,
    jti: Seq<char>,
) -> bool {
    row.actor == actor && row.subject == subject && row.standing == standing && row.audience@
        == audience && row.jti@ == jti
}

/// Go on once the assertion was signed, or could not be: its audit row is written before
/// anyone sees it.
pub fn after_signing(
    signed: Result<(PasetoToken, String), AssertionError>,
    bot_id: DiscordUserId,
    subject: DiscordUserId,
    standing: SsoStanding,
    audience: &str,
) -> (r: (CompletePhase, CompleteAction))
    ensures
        (match signed {
            Ok((token, jti)) => r.0 == CompletePhase::Auditing(token) && (
            r.1 matches CompleteAction::Audit(row) && row_says(
                row,
                bot_id,
                subject,
                standing,
                audience@,
                jti@,
            )),
            Err(_) => r == denied(SsoDenial::SignFailed),
        }),
{
    match signed {
        Ok((token, jti)) => {
            let row = SsoAuditRow {
                actor: bot_id,
                subject,
                standing,
                audience: audience.to_owned(),
                jti,
            };
            (CompletePhase::Auditing(token), CompleteAction::Audit(row))
        },
        Err(_) => deny(SsoDenial::SignFailed),
    }
}

/// Whether a step that does not read the store is the one it must be.
pub open spec fn completes(
    signer: SignerView,
    bot_id: DiscordUserId,
    audience: Seq<char>,
    phase: CompletePhase,
    event: CompleteEvent,
    r: (CompletePhase, CompleteAction),
) -> bool {
    match (phase, event) {
        (CompletePhase::Exchanging, CompleteEvent::Exchanged(ok)) => if ok {
            r == (CompletePhase::ReadingUser, CompleteAction::ReadUser)
        } else {
            r == denied(SsoDenial::CodeExchangeFailed)
        },
        (CompletePhase::ReadingUser, CompleteEvent::UserRead(user)) => match user {
            Some(subject) => r == (
                CompletePhase::ReadingRole(subject),
                CompleteAction::ReadRole(subject),
            ),
            None => r == denied(SsoDenial::UserReadFailed),
        },
        (CompletePhase::ReadingRole(subject), CompleteEvent::RoleRead(read)) => match read {
            Some(role) => {
                ||| r == denied(SsoDenial::SignFailed) && signing_failed(signer)
                ||| r.0 matches CompletePhase::Auditing(token) && r.1 matches CompleteAction::Audit(
                    row,
                ) && row_says(row, bot_id, subject, standing_of(role), audience, row.jti@)
                    && answers(token.0@, signer, subject, standing_of(role), row.jti@)
            },
            None => r == denied(SsoDenial::GuildReadFailed),
        },
        (CompletePhase::Auditing(token), CompleteEvent::Audited(ok)) => if ok {
            r == (CompletePhase::Done, CompleteAction::Finish(SsoOutcome::Asserted(token)))
        } else {
            r == denied(SsoDenial::AuditUnavailable)
        },
        _ => r == (phase, CompleteAction::Ignore),
    }
}

/// Carry the completion of a login one step on: use up the state, exchange the code, read the
/// person, read their role, sign the verdict, write the audit row, and only then hand the
/// assertion out.
pub fn complete(
    store: &mut PendingAuthStore,
    signer: &Signer,
    bot_id: DiscordUserId,
    audience: &str,
    phase: CompletePhase,
    event: CompleteEvent,
) -> (r: (CompletePhase, CompleteAction))
    ensures
        (match (phase, event) {
            (CompletePhase::Start, CompleteEvent::Called { state, now }) => {
                &&& final(store).pending() == old(store).pending().remove(state@)
                &&& if old(store).pending().dom().contains(state@) && lives(
                    old(store).pending()[state@],
                    now,
                    old(store).ttl(),
                ) {
                    r.0 is Exchanging && (r.1 matches CompleteAction::Exchange(v) && v@ == old(
                        store,
                    ).pending()[state@].verifier)
                } else {
                    r == denied(SsoDenial::StateInvalid)
                }
            },
            _ => final(store).pending() == old(store).pending() && completes(
                signer@,
                bot_id,
                audience@,
                phase,
                event,
                r,
            ),
        }),
        final(store).cap() == old(store).cap(),
        final(store).ttl() == old(store).ttl(),
{
    match (phase, event) {
        (CompletePhase::Start, CompleteEvent::Called { state, now }) => match store.take(
            state.as_str(),
            now,
        ) {
            Some(verifier) => (CompletePhase::Exchanging, CompleteAction::Exchange(verifier)),
            None => deny(SsoDenial::StateInvalid),
        },
        (CompletePhase::Exchanging, CompleteEvent::Exchanged(ok)) => {
            if ok {
                (CompletePhase::ReadingUser, CompleteAction::ReadUser)
            } else {
                deny(SsoDenial::CodeExchangeFailed)
            }
        },
        (CompletePhase::ReadingUser, CompleteEvent::UserRead(user)) => match user {
            Some(subject) => (
                CompletePhase::ReadingRole(subject),
                CompleteAction::ReadRole(subject),
            ),
            None => deny(SsoDenial::UserReadFailed),
        },
        (CompletePhase::ReadingRole(subject), CompleteEvent::RoleRead(read)) => match read {
            Some(role) => {
                let standing = SsoStanding::from(role);
                let signed = signer.sign(subject, standing);
                after_signing(signed, bot_id, subject, standing, audience)
            },
            None => deny(SsoDenial::GuildReadFailed),
        },
        (CompletePhase::Auditing(token), CompleteEvent::Audited(ok)) => {
            if ok {
                (CompletePhase::Done, CompleteAction::Finish(SsoOutcome::Asserted(token)))
            } else {
                deny(SsoDenial::AuditUnavailable)
            }
        },
        (phase, _) => (phase, CompleteAction::Ignore),
    }
}

/// An assertion is handed out only right after its audit row was written.
pub proof fn law_no_assertion_without_an_audit_row(
    signer: SignerView,
    bot_id: DiscordUserId,
    audience: Seq<char>,
    phase: CompletePhase,
    event: CompleteEvent,
    r: (CompletePhase, CompleteAction),
)
    requires
        completes(signer, bot_id, audience, phase, event, r),
    ensures
        r.1 matches CompleteAction::Finish(SsoOutcome::Asserted(token)) ==> phase
            == CompletePhase::Auditing(token) && event == CompleteEvent::Audited(true),
{
}

/// The token waiting for its audit row is the one that row names, about the same person and
/// with the same standing: the one their role in the guild earns, also where they have none.
pub proof fn law_the_audit_row_names_the_token(
    signer: SignerView,
    bot_id: DiscordUserId,
    audience: Seq<char>,
    phase: CompletePhase,
    event: CompleteEvent,
    r: (CompletePhase, CompleteAction),
)
    requires
        completes(signer, bot_id, audience, phase, event, r),
        r.0 is Auditing,
        r.0 != phase,
    ensures
        phase matches CompletePhase::ReadingRole(subject) && event matches CompleteEvent::RoleRead(
            Some(role),
        ) && r.1 matches CompleteAction::Audit(row) && row.subject == subject && row.standing
            == standing_of(role) && row.audience@ == audience && row.actor == bot_id && answers(
            r.0->Auditing_0.0@,
            signer,
            subject,
            standing_of(role),
            row.jti@,
        ),
{
}

/// Everyone whose role was read gets a signed verdict, member or not, in the guild or not:
/// unless signing itself failed, for a reason that has nothing to do with them, the token
/// that goes to audit says of exactly this person what their role is.
pub proof fn law_every_verdict_is_signed(
    signer: SignerView,
    bot_id: DiscordUserId,
    audience: Seq<char>,
    subject: DiscordUserId,
    role: Option<Role>,
    r: (CompletePhase, CompleteAction),
)
    requires
        completes(
            signer,
            bot_id,
            audience,
            CompletePhase::ReadingRole(subject),
            CompleteEvent::RoleRead(Some(role)),
            r,
        ),
    ensures
        !signing_failed(signer) ==> r.0 is Auditing && r.1 is Audit,
        r.0 is Auditing || r.0 is Done,
        (r.0 matches CompletePhase::Auditing(token) ==> (authentic_claims(
            signer.public_key,
            token.0@,
        ) matches Some(m) && m["sub"@] == decimal(subject.0 as nat) && m["standing"@] == (
        match role {
            Some(Role::Member) => "member"@,
            Some(Role::DuesExpired) => "dues_expired"@,
            Some(Role::Unverified) => "unverified"@,
            None => "not_in_guild"@,
        }))),
        (r.1 matches CompleteAction::Audit(row) ==> row.subject == subject && row.actor == bot_id
            && row.audience@ == audience && row.standing == (match role {
            Some(Role::Member) => SsoStanding::Member,
            Some(Role::DuesExpired) => SsoStanding::DuesExpired,
            Some(Role::Unverified) => SsoStanding::Unverified,
            None => SsoStanding::NotInGuild,
        })),
        (r.1 matches CompleteAction::Finish(outcome) ==> outcome == SsoOutcome::Denied(
            SsoDenial::SignFailed,
        ) && signing_failed(signer)),
        r.1 is Audit || r.1 is Finish,
{
    if let (CompletePhase::Auditing(token), CompleteAction::Audit(row)) = r {
        law_a_token_says_what_was_signed(
            token.0@,
            signer,
            subject,
            standing_of(role),
            row.jti@,
        );
    }
}

/// A login that meets no failure is walked from the exchange to the handed-out token, each
/// step asking for what the next one needs and about the same person; every failure on the
/// way ends it with its own reason.
pub proof fn law_a_login_is_walked_to_its_end(
    signer: SignerView,
    bot_id: DiscordUserId,
    audience: Seq<char>,
    subject: DiscordUserId,
    token: PasetoToken,
    r: (CompletePhase, CompleteAction),
)
    ensures
        completes(
            signer,
            bot_id,
            audience,
            CompletePhase::Exchanging,
            CompleteEvent::Exchanged(true),
            r,
        ) ==> r == (CompletePhase::ReadingUser, CompleteAction::ReadUser),
        completes(
            signer,
            bot_id,
            audience,
            CompletePhase::Exchanging,
            CompleteEvent::Exchanged(false),
            r,
        ) ==> r.0 is Done && r.1 == CompleteAction::Finish(
            SsoOutcome::Denied(SsoDenial::CodeExchangeFailed),
        ),
        completes(
            signer,
            bot_id,
            audience,
            CompletePhase::ReadingUser,
            CompleteEvent::UserRead(Some(subject)),
            r,
        ) ==> r == (CompletePhase::ReadingRole(subject), CompleteAction::ReadRole(subject)),
        completes(
            signer,
            bot_id,
            audience,
            CompletePhase::ReadingUser,
            CompleteEvent::UserRead(None),
            r,
        ) ==> r.0 is Done && r.1 == CompleteAction::Finish(
            SsoOutcome::Denied(SsoDenial::UserReadFailed),
        ),
        completes(
            signer,
            bot_id,
            audience,
            CompletePhase::ReadingRole(subject),
            CompleteEvent::RoleRead(None),
            r,
        ) ==> r.0 is Done && r.1 == CompleteAction::Finish(
            SsoOutcome::Denied(SsoDenial::GuildReadFailed),
        ),
        completes(
            signer,
            bot_id,
            audience,
            CompletePhase::Auditing(token),
            CompleteEvent::Audited(true),
            r,
        ) ==> r.0 is Done && r.1 == CompleteAction::Finish(SsoOutcome::Asserted(token)),
        completes(
            signer,
            bot_id,
            audience,
            CompletePhase::Auditing(token),
            CompleteEvent::Audited(false),
            r,
        ) ==> r.0 is Done && r.1 == CompleteAction::Finish(
            SsoOutcome::Denied(SsoDenial::AuditUnavailable),
        ),
{
}

/// A login that begins hands out its own address and state and is pending from then on, with
/// its own secret; it is refused exactly when as many as may be are in flight, and then
/// nothing is added.
pub proof fn law_a_begun_login_is_pending(
    store: &mut PendingAuthStore,
    authorize_url: String,
    state: State,
    verifier: PkceVerifier,
    now: Instant,
    r: Result<BeginResponse, SsoDenial>,
)
    requires
        call_ensures(begin, (store, authorize_url, state, verifier, now), r),
    ensures
        r is Ok <==> living(old(store).pending(), now, old(store).ttl()).dom().len() < old(
            store,
        ).cap(),
        (r matches Ok(b) ==> b.authorize_url == authorize_url && b.state@ == state.0@ && final(store).pending().dom().contains(state.0@) && final(store).pending()[state.0@].verifier
            == verifier@ && final(store).pending()[state.0@].created == now),
        (r matches Err(why) ==> why == SsoDenial::StoreFull && (forall|s: Seq<char>| #[trigger]
            final(store).pending().dom().contains(s) ==> old(store).pending().dom().contains(s))),
{
}

/// A callback uses its state up, whatever comes of it: with a live login its own secret goes
/// into the exchange, and with none the login is denied as unknown. No other login is
/// touched.
pub proof fn law_a_callback_uses_its_state_up(
    store: &mut PendingAuthStore,
    signer: &Signer,
    bot_id: DiscordUserId,
    audience: &str,
    state: String,
    now: Instant,
    other: Seq<char>,
    r: (CompletePhase, CompleteAction),
)
    requires
        call_ensures(
            complete,
            (
                store,
                signer,
                bot_id,
                audience,
                CompletePhase::Start,
                CompleteEvent::Called { state, now },
            ),
            r,
        ),
    ensures
        !final(store).pending().dom().contains(state@),
        other != state@ ==> (final(store).pending().dom().contains(other) <==> old(
            store,
        ).pending().dom().contains(other)),
        ({
            let live = old(store).pending().dom().contains(state@) && elapsed(
                now,
                old(store).pending()[state@].created,
            ) < old(store).ttl().nanos;
            &&& live ==> r.0 is Exchanging && (r.1 matches CompleteAction::Exchange(v) && v@ == old(
                store,
            ).pending()[state@].verifier)
            &&& !live ==> r.0 is Done && r.1 == CompleteAction::Finish(
                SsoOutcome::Denied(SsoDenial::StateInvalid),
            )
        }),
{
}

/// Every later step leaves the logins in flight as they are.
pub proof fn law_only_a_callback_touches_the_store(
    store: &mut PendingAuthStore,
    signer: &Signer,
    bot_id: DiscordUserId,
    audience: &str,
    phase: CompletePhase,
    event: CompleteEvent,
    r: (CompletePhase, CompleteAction),
)
    requires
        call_ensures(complete, (store, signer, bot_id, audience, phase, event), r),
        !(phase is Start) || !(event is Called),
    ensures
        final(store).pending() == old(store).pending(),
        completes(signer@, bot_id, audience@, phase, event, r),
{
}

/// A signed token is audited under its own id before it is handed on, and a failure to sign
/// is denied as one.
pub proof fn law_a_signed_token_is_audited_first(
    signed: Result<(PasetoToken, String), AssertionError>,
    bot_id: DiscordUserId,
    subject: DiscordUserId,
    standing: SsoStanding,
    audience: &str,
    r: (CompletePhase, CompleteAction),
)
    requires
        call_ensures(after_signing, (signed, bot_id, subject, standing, audience), r),
    ensures
        (signed matches Ok((token, jti)) ==> r.0 == CompletePhase::Auditing(token) && (
        r.1 matches CompleteAction::Audit(row) && row.actor == bot_id && row.subject == subject
            && row.standing == standing && row.audience@ == audience@ && row.jti@ == jti@)),
        signed is Err ==> r.0 is Done && r.1 == CompleteAction::Finish(
            SsoOutcome::Denied(SsoDenial::SignFailed),
        ),
{
}

/// A login that was answered is over, and what does not belong to where it stands changes
/// nothing.
pub proof fn law_an_answered_login_is_over(
    signer: SignerView,
    bot_id: DiscordUserId,
    audience: Seq<char>,
    phase: CompletePhase,
    event: CompleteEvent,
    r: (CompletePhase, CompleteAction),
)
    requires
        completes(signer, bot_id, audience, phase, event, r),
    ensures
        r.1 is Finish ==> r.0 is Done,
        r.1 is Ignore ==> r.0 == phase,
        phase is Done ==> r.1 is Ignore,
        r.1 is Audit ==> r.0 is Auditing && phase is ReadingRole,
{
}

} // verus!
