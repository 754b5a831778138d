//! `/channels`: inspect and manage channel-permission snapshots. `check` reports channels
//! out of step with their category, `save` takes a snapshot, `restore` rolls back to the
//! latest one.

use vstd::prelude::*;

use crate::dates::{format_stamp, SNAPSHOT_TIME};
use crate::ids::{DiscordChannelId, DiscordRoleId, DiscordUserId};
use crate::store::GuildConfig;
use crate::text::{number, same};
use crate::ui::{join_lines, press, row2, Row, Style};

#[allow(unused_imports)]
use crate::dates::stamp_words;
#[allow(unused_imports)]
use crate::render::bulk_verify::plural;
#[allow(unused_imports)]
use crate::store::GuildConfigView;
#[allow(unused_imports)]
use crate::text::decimal;
#[allow(unused_imports)]
use crate::ui::{lines_text, opt_view, press_view, views, RowView};

verus! {

pub const RESTORE_CONFIRM_ID: &'static str = "channels_restore_confirm";

pub const RESTORE_CANCEL_ID: &'static str = "channels_restore_cancel";

/// How long the restore prompt waits, in seconds.
pub const CONFIRM_TIMEOUT_SECS: u64 = 60;

/// What a channel sweep is run with. Each set of channels is in ascending order without
/// repetition.
#[derive(Debug, Clone, PartialEq, Eq)]
pub struct SetupConfig {
    pub everyone: DiscordRoleId,
    pub member_role: DiscordRoleId,
    pub dues_expired_role: DiscordRoleId,
    pub unverified_role: DiscordRoleId,
    pub moderator_role: DiscordRoleId,
    pub bot_user: DiscordUserId,
    pub unverified_channels: Vec<DiscordChannelId>,
    pub dues_expired_channels: Vec<DiscordChannelId>,
    pub exclude_channels: Vec<DiscordChannelId>,
}

/// A set of channels as a list: ascending, hence without repetition.
pub open spec fn ascending(cs: Seq<DiscordChannelId>) -> bool {
    forall|i: int, j: int| 0 <= i < j < cs.len() ==> #[trigger] cs[i].0 < #[trigger] cs[j].0
}

/// Whether a list holds exactly the given channels, as a set.
pub open spec fn holds_exactly(
    cs: Seq<DiscordChannelId>,
    a: Option<DiscordChannelId>,
    b: Option<DiscordChannelId>,
) -> bool {
    &&& ascending(cs)
    &&& forall|c: DiscordChannelId| #[trigger] cs.contains(c) <==> (a == Some(c) || b == Some(c))
}

fn channel_set(a: Option<DiscordChannelId>, b: Option<DiscordChannelId>) -> (r: Vec<
    DiscordChannelId,
>)
    ensures
        holds_exactly(r@, a, b),
{
    let mut r: Vec<DiscordChannelId> = Vec::new();
    match (a, b) {
        (None, None) => {},
        (Some(x), None) => {
            r.push(x);
            assert(r@[0] == x);
        },
        (None, Some(y)) => {
            r.push(y);
            assert(r@[0] == y);
        },
        (Some(x), Some(y)) => {
            if x.0 < y.0 {
                r.push(x);
                r.push(y);
                assert(r@[0] == x && r@[1] == y);
            } else if y.0 < x.0 {
                r.push(y);
                r.push(x);
                assert(r@[0] == y && r@[1] == x);
            } else {
                r.push(x);
                assert(r@[0] == x && x == y);
            }
        },
    }
    r
}

pub const NO_MEMBER_ROLE: &'static str = "The Member role is not configured - run /setup first.";

pub const NO_DUES_ROLE: &'static str = "The Dues-expired role is not configured - run /setup first.";

pub const NO_UNVERIFIED_ROLE: &'static str = "The Unverified role is not configured - run /setup first.";

pub const NO_MODERATOR_ROLE: &'static str = "The Moderator role is not configured - run /setup first.";

/// The first required role that is not set, in words.
pub open spec fn missing_role(cfg: GuildConfigView) -> Option<Seq<char>> {
    if cfg.member_role is None {
        Some(NO_MEMBER_ROLE@)
    } else if cfg.dues_expired_role is None {
        Some(NO_DUES_ROLE@)
    } else if cfg.unverified_role is None {
        Some(NO_UNVERIFIED_ROLE@)
    } else if cfg.moderator_role is None {
        Some(NO_MODERATOR_ROLE@)
    } else {
        None
    }
}

/// Build the sweep's configuration from the guild's. Fails, in words, on the first of the
/// four required roles that is unset. The moderators' own channels are excluded, so the
/// sweep never touches them.
pub fn build_setup_config(cfg: &GuildConfig, guild_id: u64, bot_user: DiscordUserId) -> (r: Result<
    SetupConfig,
    &'static str,
>)
    ensures
        r is Ok <==> missing_role(cfg@) is None,
        r matches Err(e) ==> missing_role(cfg@) == Some(e@),
        r matches Ok(s) ==> {
            &&& s.everyone == DiscordRoleId(guild_id)
            &&& cfg@.member_role == Some(s.member_role)
            &&& cfg@.dues_expired_role == Some(s.dues_expired_role)
            &&& cfg@.unverified_role == Some(s.unverified_role)
            &&& cfg@.moderator_role == Some(s.moderator_role)
            &&& s.bot_user == bot_user
            &&& holds_exactly(s.unverified_channels@, cfg@.unverified_channel, None)
            &&& holds_exactly(s.dues_expired_channels@, cfg@.dues_expired_channel, None)
            &&& holds_exactly(
                s.exclude_channels@,
                cfg@.mod_approval_channel,
                cfg@.verification_log_channel,
            )
        },
{
    let member_role = match cfg.member_role {
        Some(r) => r,
        None => {
            return Err(NO_MEMBER_ROLE);
        },
    };
    let dues_expired_role = match cfg.dues_expired_role {
        Some(r) => r,
        None => {
            return Err(NO_DUES_ROLE);
        },
    };
    let unverified_role = match cfg.unverified_role {
        Some(r) => r,
        None => {
            return Err(NO_UNVERIFIED_ROLE);
        },
    };
    let moderator_role = match cfg.moderator_role {
        Some(r) => r,
        None => {
            return Err(NO_MODERATOR_ROLE);
        },
    };
    Ok(
        SetupConfig {
            everyone: DiscordRoleId(guild_id),
            member_role,
            dues_expired_role,
            unverified_role,
            moderator_role,
            bot_user,
            unverified_channels: channel_set(cfg.unverified_channel, None),
            dues_expired_channels: channel_set(cfg.dues_expired_channel, None),
            exclude_channels: channel_set(cfg.mod_approval_channel, cfg.verification_log_channel),
        },
    )
}

/// Why a channel operation failed.
#[derive(Debug, Clone, Copy, PartialEq, Eq, Structural)]
pub enum ChannelsError {
    NoUnverifiedChannel,
    ChannelSetsOverlap,
    VerificationBreach,
    PlanChanged,
    CircuitBreaker,
    NoSnapshot,
    Discord,
    Snapshot,
}

/// A failure in one sentence.
pub open spec fn error_words(e: ChannelsError) -> Seq<char> {
    match e {
        ChannelsError::NoUnverifiedChannel => "No verification channel is configured - run /setup first."@,
        ChannelsError::ChannelSetsOverlap => "The unverified and dues-expired channels overlap - fix /setup before running this."@,
        ChannelsError::VerificationBreach => "The plan would hide the verification channel from new members - aborting."@,
        ChannelsError::PlanChanged => "The server changed between the preview and the apply - please try again."@,
        ChannelsError::CircuitBreaker => "Aborted after repeated write failures; the pre-run snapshot is intact."@,
        ChannelsError::NoSnapshot => "No saved snapshot to restore from."@,
        ChannelsError::Discord => "Something went wrong talking to Discord."@,
        ChannelsError::Snapshot => "Something went wrong with the database."@,
    }
}

/// Map a failure to a one-sentence message that exposes no internals.
pub fn channels_err_msg(e: ChannelsError) -> (r: &'static str)
    ensures
        r@ == error_words(e),
{
    match e {
        ChannelsError::NoUnverifiedChannel => "No verification channel is configured - run /setup first.",
        ChannelsError::ChannelSetsOverlap => "The unverified and dues-expired channels overlap - fix /setup before running this.",
        ChannelsError::VerificationBreach => "The plan would hide the verification channel from new members - aborting.",
        ChannelsError::PlanChanged => "The server changed between the preview and the apply - please try again.",
        ChannelsError::CircuitBreaker => "Aborted after repeated write failures; the pre-run snapshot is intact.",
        ChannelsError::NoSnapshot => "No saved snapshot to restore from.",
        ChannelsError::Discord => "Something went wrong talking to Discord.",
        ChannelsError::Snapshot => "Something went wrong with the database.",
    }
}

/// A channel whose permissions differ from its category's.
#[derive(Debug, Clone, PartialEq, Eq)]
pub struct Desync {
    pub child: DiscordChannelId,
    pub name: String,
    pub parent: DiscordChannelId,
}

pub const ALL_IN_SYNC: &'static str = "All channels are in sync with their category overwrites.";

/// One channel's line of the report.
pub open spec fn desync_line(d: Desync) -> Seq<char> {
    "- #"@ + d.name@ + " ("@ + decimal(d.child.0 as nat) + ") -> category "@ + decimal(
        d.parent.0 as nat,
    )
}

/// The report: a head line with the count, then one line per channel.
pub open spec fn desync_words(out_of_sync: Seq<Desync>) -> Seq<char> {
    if out_of_sync.len() == 0 {
        ALL_IN_SYNC@
    } else {
        lines_text(
            seq![decimal(out_of_sync.len()) + " channel(s) out of sync with their category:"@]
                + out_of_sync.map_values(|d: Desync| desync_line(d)),
        )
    }
}

/// Write out the report.
pub fn format_desync_report(out_of_sync: &Vec<Desync>) -> (r: String)
    ensures
        r@ == desync_words(out_of_sync@),
{
    if out_of_sync.len() == 0 {
        return ALL_IN_SYNC.to_owned();
    }
    let mut lines: Vec<String> = Vec::new();
    lines.push(
        number(out_of_sync.len() as u64).concat(" channel(s) out of sync with their category:"),
    );
    let ghost head = lines@[0]@;
    let ghost body = out_of_sync@.map_values(|d: Desync| desync_line(d));
    let mut i: usize = 0;
    assert(views(lines@) =~= seq![head] + body.take(0));
    while i < out_of_sync.len()
        invariant
            i <= out_of_sync.len(),
            body == out_of_sync@.map_values(|d: Desync| desync_line(d)),
            views(lines@) == seq![head] + body.take(i as int),
        decreases out_of_sync.len() - i,
    {
        let d = &out_of_sync[i];
        let ghost before = views(lines@);
        let line = "- #".to_owned().concat(d.name.as_str()).concat(" (").concat(
            number(d.child.0).as_str(),
        ).concat(") -> category ").concat(number(d.parent.0).as_str());
        assert(line@ == body[i as int]);
        lines.push(line);
        assert(views(lines@) =~= before.push(line@));
        assert(seq![head] + body.take(i + 1) =~= (seq![head] + body.take(i as int)).push(
            body[i as int],
        ));
        i += 1;
    }
    assert(body.take(body.len() as int) =~= body);
    join_lines(&lines)
}

/// `/channels check`: the report, or why there is none.
pub fn check(result: &Result<Vec<Desync>, ChannelsError>) -> (r: String)
    ensures
        r@ == (match result {
            Ok(out_of_sync) => desync_words(out_of_sync@),
            Err(e) => error_words(*e),
        }),
{
    match result {
        Ok(out_of_sync) => format_desync_report(out_of_sync),
        Err(e) => channels_err_msg(*e).to_owned(),
    }
}

/// A saved snapshot: how many channels, and when, in microseconds since the Unix epoch.
#[derive(Debug, Clone, Copy, PartialEq, Eq, Structural)]
pub struct SavedSnapshot {
    pub channels: usize,
    pub saved_at: i64,
}

/// The confirmation of a snapshot taken at a written-out time.
pub open spec fn saved_words(channels: int, when: Seq<char>) -> Seq<char> {
    "Snapshot saved: "@ + decimal(channels as nat) + " channel"@ + plural(channels) + " at "@ + when
        + "."@
}

/// Confirm a snapshot taken at a written-out time.
pub fn saved_text(channels: usize, when: &str) -> (r: String)
    ensures
        r@ == saved_words(channels as int, when@),
{
    let s = if channels == 1 {
        ""
    } else {
        "s"
    };
    "Snapshot saved: ".to_owned().concat(number(channels as u64).as_str()).concat(
        " channel",
    ).concat(s).concat(" at ").concat(when).concat(".")
}

/// `/channels save`: the confirmation, or why nothing was saved. Nothing is said of a
/// snapshot whose time is outside the representable dates.
pub fn save(result: Result<SavedSnapshot, ChannelsError>) -> (r: Option<String>)
    ensures
        opt_view(r) == (match result {
            Ok(snap) => match stamp_words(snap.saved_at) {
                Some(when) => Some(saved_words(snap.channels as int, when)),
                None => None,
            },
            Err(e) => Some(error_words(e)),
        }),
{
    match result {
        Ok(snap) => match format_stamp(snap.saved_at, SNAPSHOT_TIME) {
            Some(when) => Some(saved_text(snap.channels, when.as_str())),
            None => None,
        },
        Err(e) => Some(channels_err_msg(e).to_owned()),
    }
}

/// What a restore did.
#[derive(Debug, Clone, Copy, PartialEq, Eq, Structural)]
pub struct RestoreOutcome {
    pub written: usize,
    pub skipped_no_op: usize,
    pub failed: usize,
}

pub const RESTORE_PROMPT: &'static str = "This will overwrite every channel's permissions with the last saved snapshot.\nAre you sure?";

pub const RESTORE_TIMED_OUT: &'static str = "Restore cancelled (timed out).";

pub const RESTORE_CANCELLED: &'static str = "Restore cancelled.";

/// The report of a restore.
pub open spec fn restore_words(outcome: RestoreOutcome) -> Seq<char> {
    let base = "Restored "@ + decimal(outcome.written as nat) + " channel"@ + plural(
        outcome.written as int,
    ) + ", skipped "@ + decimal(outcome.skipped_no_op as nat) + " (already matching)"@;
    if outcome.failed > 0 {
        base + ", "@ + decimal(outcome.failed as nat) + " failed - see the logs."@
    } else {
        base + "."@
    }
}

fn restore_summary(outcome: RestoreOutcome) -> (r: String)
    ensures
        r@ == restore_words(outcome),
{
    let s = if outcome.written == 1 {
        ""
    } else {
        "s"
    };
    let base = "Restored ".to_owned().concat(number(outcome.written as u64).as_str()).concat(
        " channel",
    ).concat(s).concat(", skipped ").concat(number(outcome.skipped_no_op as u64).as_str()).concat(
        " (already matching)",
    );
    if outcome.failed > 0 {
        base.concat(", ").concat(number(outcome.failed as u64).as_str()).concat(
            " failed - see the logs.",
        )
    } else {
        base.concat(".")
    }
}

/// Where a restore stands.
#[derive(Debug, Clone, Copy, PartialEq, Eq, Structural)]
pub enum RestorePhase {
    /// Not begun.
    Start,
    /// Waiting for the confirmation.
    Confirming,
    /// Loading the latest snapshot.
    Loading,
    /// Applying it.
    Applying,
    /// Over.
    Done,
}

/// What just happened to a restore.
#[derive(Debug, PartialEq, Eq)]
pub enum RestoreEvent {
    Invoked,
    /// Nothing was pressed in time.
    Idle,
    /// A button with this id was pressed.
    Pressed(String),
    /// The snapshot was loaded, or could not be.
    Loaded(Result<(), ChannelsError>),
    /// The snapshot was applied, or could not be.
    Applied(Result<RestoreOutcome, ChannelsError>),
}

/// A [`RestoreEvent`] over characters.
pub enum RestoreEventView {
    Invoked,
    Idle,
    Pressed(Seq<char>),
    Loaded(Result<(), ChannelsError>),
    Applied(Result<RestoreOutcome, ChannelsError>),
}

impl View for RestoreEvent {
    type V = RestoreEventView;

    open spec fn view(&self) -> RestoreEventView {
        match self {
            RestoreEvent::Invoked => RestoreEventView::Invoked,
            RestoreEvent::Idle => RestoreEventView::Idle,
            RestoreEvent::Pressed(id) => RestoreEventView::Pressed(id@),
            RestoreEvent::Loaded(x) => RestoreEventView::Loaded(*x),
            RestoreEvent::Applied(x) => RestoreEventView::Applied(*x),
        }
    }
}

/// What a restore does next.
#[derive(Debug, Clone, PartialEq, Eq)]
pub enum RestoreAction {
    /// Ask for confirmation.
    Prompt(String, Row),
    /// Load the latest snapshot.
    Load,
    /// Apply it.
    Apply,
    /// Replace the prompt with this line, drop its controls, and stop.
    Say(String),
    /// Nothing: the event does not belong to this phase.
    Ignore,
}

/// A [`RestoreAction`] over characters.
pub enum RestoreActionView {
    Prompt(Seq<char>, RowView),
    Load,
    Apply,
    Say(Seq<char>),
    Ignore,
}

impl View for RestoreAction {
    type V = RestoreActionView;

    open spec fn view(&self) -> RestoreActionView {
        match self {
            RestoreAction::Prompt(s, row) => RestoreActionView::Prompt(s@, row@),
            RestoreAction::Load => RestoreActionView::Load,
            RestoreAction::Apply => RestoreActionView::Apply,
            RestoreAction::Say(s) => RestoreActionView::Say(s@),
            RestoreAction::Ignore => RestoreActionView::Ignore,
        }
    }
}

/// The controls of the restore prompt.
pub open spec fn restore_row() -> RowView {
    RowView::Buttons(
        seq![
            press_view(RESTORE_CONFIRM_ID@, "Yes, restore"@, Style::Danger),
            press_view(RESTORE_CANCEL_ID@, "Cancel"@, Style::Secondary),
        ],
    )
}

/// A restore, one event at a time.
pub open spec fn restore_next(phase: RestorePhase, event: RestoreEventView) -> (
    RestorePhase,
    RestoreActionView,
) {
    match (phase, event) {
        (RestorePhase::Start, RestoreEventView::Invoked) => (
            RestorePhase::Confirming,
            RestoreActionView::Prompt(RESTORE_PROMPT@, restore_row()),
        ),
        (RestorePhase::Confirming, RestoreEventView::Idle) => (
            RestorePhase::Done,
            RestoreActionView::Say(RESTORE_TIMED_OUT@),
        ),
        (RestorePhase::Confirming, RestoreEventView::Pressed(id)) => if id == RESTORE_CANCEL_ID@ {
            (RestorePhase::Done, RestoreActionView::Say(RESTORE_CANCELLED@))
        } else {
            (RestorePhase::Loading, RestoreActionView::Load)
        },
        (RestorePhase::Loading, RestoreEventView::Loaded(Ok(()))) => (
            RestorePhase::Applying,
            RestoreActionView::Apply,
        ),
        (RestorePhase::Loading, RestoreEventView::Loaded(Err(e))) => (
            RestorePhase::Done,
            RestoreActionView::Say(error_words(e)),
        ),
        (RestorePhase::Applying, RestoreEventView::Applied(Ok(outcome))) => (
            RestorePhase::Done,
            RestoreActionView::Say(restore_words(outcome)),
        ),
        (RestorePhase::Applying, RestoreEventView::Applied(Err(e))) => (
            RestorePhase::Done,
            RestoreActionView::Say(error_words(e)),
        ),
        _ => (phase, RestoreActionView::Ignore),
    }
}

/// Restore channel overwrites from the latest snapshot, once confirmed.
pub fn restore(phase: RestorePhase, event: &RestoreEvent) -> (r: (RestorePhase, RestoreAction))
    ensures
        (r.0, r.1@) == restore_next(phase, event@),
{
    match (phase, event) {
        (RestorePhase::Start, RestoreEvent::Invoked) => {
            let row = row2(
                press(RESTORE_CONFIRM_ID, "Yes, restore", Style::Danger),
                press(RESTORE_CANCEL_ID, "Cancel", Style::Secondary),
            );
            (RestorePhase::Confirming, RestoreAction::Prompt(RESTORE_PROMPT.to_owned(), row))
        },
        (RestorePhase::Confirming, RestoreEvent::Idle) => (
            RestorePhase::Done,
            RestoreAction::Say(RESTORE_TIMED_OUT.to_owned()),
        ),
        (RestorePhase::Confirming, RestoreEvent::Pressed(id)) => {
            if same(id.as_str(), RESTORE_CANCEL_ID) {
                (RestorePhase::Done, RestoreAction::Say(RESTORE_CANCELLED.to_owned()))
            } else {
                (RestorePhase::Loading, RestoreAction::Load)
            }
        },
        (RestorePhase::Loading, RestoreEvent::Loaded(loaded)) => match loaded {
            Ok(()) => (RestorePhase::Applying, RestoreAction::Apply),
            Err(e) => (RestorePhase::Done, RestoreAction::Say(channels_err_msg(*e).to_owned())),
        },
        (RestorePhase::Applying, RestoreEvent::Applied(applied)) => match applied {
            Ok(outcome) => (RestorePhase::Done, RestoreAction::Say(restore_summary(*outcome))),
            Err(e) => (RestorePhase::Done, RestoreAction::Say(channels_err_msg(*e).to_owned())),
        },
        _ => (phase, RestoreAction::Ignore),
    }
}

/// Overwrites are only touched after a press that was not the cancel button and a snapshot
/// that loaded; silence and cancel end the restore.
pub proof fn law_restore_needs_confirmation(phase: RestorePhase, event: RestoreEventView)
    ensures
        restore_next(phase, event).1 == RestoreActionView::Load ==> (event matches RestoreEventView::Pressed(
            id,
        ) && id != RESTORE_CANCEL_ID@),
        restore_next(phase, event).1 == RestoreActionView::Apply ==> (phase == RestorePhase::Loading
            && (event matches RestoreEventView::Loaded(loaded) && loaded is Ok)),
{
}

/// Each failure has words of its own.
pub proof fn law_failures_have_their_own_words(a: ChannelsError, b: ChannelsError)
    ensures
        a != b ==> error_words(a) != error_words(b),
        error_words(ChannelsError::NoSnapshot) == "No saved snapshot to restore from."@,
        error_words(ChannelsError::PlanChanged)
            == "The server changed between the preview and the apply - please try again."@,
        error_words(ChannelsError::CircuitBreaker)
            == "Aborted after repeated write failures; the pre-run snapshot is intact."@,
        error_words(ChannelsError::Discord) == "Something went wrong talking to Discord."@,
        error_words(ChannelsError::Snapshot) == "Something went wrong with the database."@,
        error_words(ChannelsError::NoUnverifiedChannel)
            == "No verification channel is configured - run /setup first."@,
        error_words(ChannelsError::ChannelSetsOverlap)
            == "The unverified and dues-expired channels overlap - fix /setup before running this."@,
        error_words(ChannelsError::VerificationBreach)
            == "The plan would hide the verification channel from new members - aborting."@,
{
    reveal_strlit("No verification channel is configured - run /setup first.");
    reveal_strlit(
        "The unverified and dues-expired channels overlap - fix /setup before running this.",
    );
    reveal_strlit("The plan would hide the verification channel from new members - aborting.");
    reveal_strlit("The server changed between the preview and the apply - please try again.");
    reveal_strlit("Aborted after repeated write failures; the pre-run snapshot is intact.");
    reveal_strlit("No saved snapshot to restore from.");
    reveal_strlit("Something went wrong talking to Discord.");
    reveal_strlit("Something went wrong with the database.");
    assert(error_words(ChannelsError::NoUnverifiedChannel)[3] == 'v');
    assert(error_words(ChannelsError::NoSnapshot)[3] == 's');
    assert(error_words(ChannelsError::NoUnverifiedChannel)[0] == 'N');
    assert(error_words(ChannelsError::NoSnapshot)[0] == 'N');
    assert(error_words(ChannelsError::ChannelSetsOverlap)[0] == 'T');
    assert(error_words(ChannelsError::VerificationBreach)[0] == 'T');
    assert(error_words(ChannelsError::PlanChanged)[0] == 'T');
    assert(error_words(ChannelsError::ChannelSetsOverlap)[4] == 'u');
    assert(error_words(ChannelsError::VerificationBreach)[4] == 'p');
    assert(error_words(ChannelsError::PlanChanged)[4] == 's');
    assert(error_words(ChannelsError::CircuitBreaker)[0] == 'A');
    assert(error_words(ChannelsError::Discord)[0] == 'S');
    assert(error_words(ChannelsError::Snapshot)[0] == 'S');
    assert(error_words(ChannelsError::Discord)[21] == 't');
    assert(error_words(ChannelsError::Snapshot)[21] == 'w');
}

/// A sweep is set up from the roles and channels configured, each in its place, and the
/// moderators' own channels are left out of it; the first role missing is named instead.
pub proof fn law_a_sweep_uses_what_is_configured(
    cfg: &GuildConfig,
    guild_id: u64,
    bot_user: DiscordUserId,
    channel: DiscordChannelId,
    r: Result<SetupConfig, &'static str>,
)
    requires
        call_ensures(build_setup_config, (cfg, guild_id, bot_user), r),
    ensures
        r is Ok <==> cfg.member_role is Some && cfg.dues_expired_role is Some
            && cfg.unverified_role is Some && cfg.moderator_role is Some,
        (r matches Ok(s) ==> cfg.member_role == Some(s.member_role) && cfg.dues_expired_role
            == Some(s.dues_expired_role) && cfg.unverified_role == Some(s.unverified_role)
            && cfg.moderator_role == Some(s.moderator_role) && s.everyone.0 == guild_id
            && s.bot_user == bot_user),
        (r matches Ok(s) ==> (s.unverified_channels@.contains(channel) <==> cfg.unverified_channel
            == Some(channel)) && (s.dues_expired_channels@.contains(channel)
            <==> cfg.dues_expired_channel == Some(channel)) && (s.exclude_channels@.contains(
            channel,
        ) <==> cfg.mod_approval_channel == Some(channel) || cfg.verification_log_channel == Some(
            channel,
        ))),
        (r matches Ok(s) ==> (forall|i: int, j: int|
            0 <= i < j < s.exclude_channels@.len() ==> #[trigger] s.exclude_channels@[i].0
                < #[trigger] s.exclude_channels@[j].0)),
        cfg.member_role is None ==> (r matches Err(e) && e@ == NO_MEMBER_ROLE@),
        cfg.member_role is Some && cfg.dues_expired_role is None ==> (r matches Err(e) && e@
            == NO_DUES_ROLE@),
        cfg.member_role is Some && cfg.dues_expired_role is Some && cfg.unverified_role is None
            ==> (r matches Err(e) && e@ == NO_UNVERIFIED_ROLE@),
        cfg.member_role is Some && cfg.dues_expired_role is Some && cfg.unverified_role is Some
            && cfg.moderator_role is None ==> (r matches Err(e) && e@ == NO_MODERATOR_ROLE@),
{
}

/// The report has a line for every channel that is out of step, in order, under a head that
/// counts them; with none it says so.
pub proof fn law_the_report_lists_every_channel(out_of_sync: Seq<Desync>, i: int)
    ensures
        out_of_sync.len() == 0 ==> desync_words(out_of_sync) == ALL_IN_SYNC@,
        out_of_sync.len() > 0 ==> exists|lines: Seq<Seq<char>>|
            desync_words(out_of_sync) == #[trigger] lines_text(lines) && lines.len()
                == out_of_sync.len() + 1 && lines[0] == decimal(out_of_sync.len())
                + " channel(s) out of sync with their category:"@ && (0 <= i < out_of_sync.len()
                ==> lines[i + 1] == "- #"@ + out_of_sync[i].name@ + " ("@ + decimal(
                out_of_sync[i].child.0 as nat,
            ) + ") -> category "@ + decimal(out_of_sync[i].parent.0 as nat)),
{
    if out_of_sync.len() > 0 {
        let lines = seq![
            decimal(out_of_sync.len()) + " channel(s) out of sync with their category:"@,
        ] + out_of_sync.map_values(|d: Desync| desync_line(d));
        assert(desync_words(out_of_sync) == lines_text(lines));
        assert(lines[0] == decimal(out_of_sync.len())
            + " channel(s) out of sync with their category:"@);
    }
}

/// A check answers with the report or the failure, and a save with the count and the time or
/// the failure.
pub proof fn law_channel_commands_answer_with_what_happened(
    report: &Result<Vec<Desync>, ChannelsError>,
    told: String,
    result: Result<SavedSnapshot, ChannelsError>,
    saved: Option<String>,
)
    requires
        call_ensures(check, (report,), told),
        call_ensures(save, (result,), saved),
    ensures
        (*report matches Ok(list) ==> told@ == desync_words(list@)),
        (*report matches Err(e) ==> told@ == error_words(e)),
        (result matches Err(e) ==> (saved matches Some(s) && s@ == error_words(e))),
        (result matches Ok(snap) ==> (saved is Some <==> stamp_words(snap.saved_at) is Some) && (
        saved matches Some(s) ==> s@ == "Snapshot saved: "@ + decimal(snap.channels as nat)
            + " channel"@ + plural(snap.channels as int) + " at "@ + stamp_words(snap.saved_at)->0
            + "."@)),
{
}

/// A restore walked through: it asks first, a press of anything but the cancel button loads
/// the snapshot, a loaded one is applied, and the answer tells what was written, skipped and
/// failed, or why nothing was.
pub proof fn law_a_restore_is_walked_to_its_end(
    id: Seq<char>,
    outcome: RestoreOutcome,
    e: ChannelsError,
)
    ensures
        ({
            let asked = restore_next(RestorePhase::Start, RestoreEventView::Invoked);
            let pressed = restore_next(asked.0, RestoreEventView::Pressed(id));
            let loaded = restore_next(pressed.0, RestoreEventView::Loaded(Ok(())));
            let applied = restore_next(loaded.0, RestoreEventView::Applied(Ok(outcome)));
            let told = "Restored "@ + decimal(outcome.written as nat) + " channel"@ + plural(
                outcome.written as int,
            ) + ", skipped "@ + decimal(outcome.skipped_no_op as nat) + " (already matching)"@;
            &&& (asked.1 matches RestoreActionView::Prompt(words, row) && words == RESTORE_PROMPT@
                && (row matches RowView::Buttons(bs) && bs.len() == 2 && bs[0] == press_view(
                RESTORE_CONFIRM_ID@,
                "Yes, restore"@,
                Style::Danger,
            ) && bs[1] == press_view(RESTORE_CANCEL_ID@, "Cancel"@, Style::Secondary)))
            &&& restore_next(asked.0, RestoreEventView::Idle) == (
                RestorePhase::Done,
                RestoreActionView::Say(RESTORE_TIMED_OUT@),
            )
            &&& id == RESTORE_CANCEL_ID@ ==> pressed == (
                RestorePhase::Done,
                RestoreActionView::Say(RESTORE_CANCELLED@),
            )
            &&& id != RESTORE_CANCEL_ID@ ==> {
                &&& pressed.1 == RestoreActionView::Load
                &&& loaded.1 == RestoreActionView::Apply
                &&& restore_next(pressed.0, RestoreEventView::Loaded(Err(e))) == (
                    RestorePhase::Done,
                    RestoreActionView::Say(error_words(e)),
                )
                &&& restore_next(loaded.0, RestoreEventView::Applied(Err(e))) == (
                    RestorePhase::Done,
                    RestoreActionView::Say(error_words(e)),
                )
                &&& applied.0 == RestorePhase::Done
                &&& outcome.failed == 0 ==> applied.1 == RestoreActionView::Say(told + "."@)
                &&& outcome.failed > 0 ==> applied.1 == RestoreActionView::Say(
                    told + ", "@ + decimal(outcome.failed as nat) + " failed - see the logs."@,
                )
            }
        }),
{
}

/// A restore that was answered is over, and what does not belong to where it stands changes
/// nothing.
pub proof fn law_an_answered_restore_is_over(phase: RestorePhase, event: RestoreEventView)
    ensures
        restore_next(phase, event).1 is Say ==> restore_next(phase, event).0 == RestorePhase::Done,
        restore_next(phase, event).1 is Ignore ==> restore_next(phase, event).0 == phase,
        phase == RestorePhase::Done ==> restore_next(phase, event) == (
            RestorePhase::Done,
            RestoreActionView::Ignore,
        ),
        restore_next(phase, event).1 is Prompt ==> restore_next(phase, event).0
            == RestorePhase::Confirming,
{
}

} // verus!
