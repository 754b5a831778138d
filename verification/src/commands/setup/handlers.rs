//! The work a control triggers: the feature toggles, the posting actions, and applying one
//! role or channel selection.
//!
//! Each change is proposed as a whole new configuration with its audit entry. It goes live
//! only once it has been saved.

use vstd::prelude::*;

use crate::commands::setup::ids::{
    DUES_CHAN_ID, DUES_EXPIRING_ROLE_ID, DUES_ROLE_ID, MEMBER_ROLE_ID, MOD_CHAN_ID, MOD_ROLE_ID,
    OVERRIDE_ROLE_ID, UNVERIFIED_CHAN_ID, UNVERIFIED_ROLE_ID, VERIFY_LOG_CHAN_ID,
};
use crate::commands::setup::pages::Page;
use crate::ids::{DiscordChannelId, DiscordMessageId, DiscordRoleId};
use crate::render::self_verify::{verify_prompt, verify_prompt_edit};
use crate::store::{GuildConfig, MessageRef};
use crate::text::same;
use crate::ui::{same_opt, Embed, Row};

#[allow(unused_imports)]
use crate::render::self_verify::{prompt_row, prompt_view};
#[allow(unused_imports)]
use crate::store::GuildConfigView;
#[allow(unused_imports)]
use crate::ui::opt_view;

verus! {

/// The note for a change that could not be saved.
pub const SAVE_FAILED: &'static str = "Something went wrong saving that - please try again.";

pub const SCAN_WITHOUT_CHANNEL: &'static str = "Automatic membership checks on. Note: no mod-approval channel is set, so the safety alert can't be posted if a check is paused - set one under Verification.";

pub const REMINDERS_WITHOUT_CHANNEL: &'static str = "Dues reminders on. Note: no dues-expired channel is set - set one on this page so reminder threads have a home.";

pub const REMINDERS_OFF: &'static str = "Dues reminders off. Cleared the Dues Expiring marker from any held members.";

pub const SSO_DISABLED: &'static str = "SSO disabled.";

pub const DUPLICATE_ROLE: &'static str = "That role is already assigned to another setting - pick a distinct role for each.";

pub const SAME_LINK: &'static str = "That's already the dues sign-up URL - nothing changed.";

pub const LINK_UPDATED: &'static str = "Updated the dues sign-up URL.";

/// A setting that names a role.
#[derive(Debug, Clone, Copy, PartialEq, Eq, Structural)]
pub enum RoleSetting {
    Moderator,
    Member,
    DuesExpired,
    DuesExpiring,
    Unverified,
    ManualOverride,
}

/// A setting that names a channel.
#[derive(Debug, Clone, Copy, PartialEq, Eq, Structural)]
pub enum ChannelSetting {
    ModApproval,
    Unverified,
    DuesExpired,
    VerificationLog,
}

/// The role setting a select menu stands for.
pub open spec fn role_setting(id: Seq<char>) -> Option<RoleSetting> {
    if id == MOD_ROLE_ID@ {
        Some(RoleSetting::Moderator)
    } else if id == MEMBER_ROLE_ID@ {
        Some(RoleSetting::Member)
    } else if id == DUES_ROLE_ID@ {
        Some(RoleSetting::DuesExpired)
    } else if id == DUES_EXPIRING_ROLE_ID@ {
        Some(RoleSetting::DuesExpiring)
    } else if id == UNVERIFIED_ROLE_ID@ {
        Some(RoleSetting::Unverified)
    } else if id == OVERRIDE_ROLE_ID@ {
        Some(RoleSetting::ManualOverride)
    } else {
        None
    }
}

/// The channel setting a select menu stands for.
pub open spec fn channel_setting(id: Seq<char>) -> Option<ChannelSetting> {
    if id == MOD_CHAN_ID@ {
        Some(ChannelSetting::ModApproval)
    } else if id == UNVERIFIED_CHAN_ID@ {
        Some(ChannelSetting::Unverified)
    } else if id == DUES_CHAN_ID@ {
        Some(ChannelSetting::DuesExpired)
    } else if id == VERIFY_LOG_CHAN_ID@ {
        Some(ChannelSetting::VerificationLog)
    } else {
        None
    }
}

impl RoleSetting {
    /// The words a change of this setting is reported with.
    pub open spec fn words(self) -> Seq<char> {
        match self {
            RoleSetting::Moderator => "moderator role"@,
            RoleSetting::Member => "member role"@,
            RoleSetting::DuesExpired => "dues-expired role"@,
            RoleSetting::DuesExpiring => "dues-expiring role"@,
            RoleSetting::Unverified => "unverified role"@,
            RoleSetting::ManualOverride => "manual override role"@,
        }
    }

    /// The role this setting holds.
    pub open spec fn get(self, cfg: GuildConfigView) -> Option<DiscordRoleId> {
        match self {
            RoleSetting::Moderator => cfg.moderator_role,
            RoleSetting::Member => cfg.member_role,
            RoleSetting::DuesExpired => cfg.dues_expired_role,
            RoleSetting::DuesExpiring => cfg.dues_expiring_role,
            RoleSetting::Unverified => cfg.unverified_role,
            RoleSetting::ManualOverride => cfg.manual_override_role,
        }
    }

    /// The configuration with this setting pointed at `role`, and nothing else changed.
    pub open spec fn put(self, cfg: GuildConfigView, role: DiscordRoleId) -> GuildConfigView {
        match self {
            RoleSetting::Moderator => GuildConfigView { moderator_role: Some(role), ..cfg },
            RoleSetting::Member => GuildConfigView { member_role: Some(role), ..cfg },
            RoleSetting::DuesExpired => GuildConfigView { dues_expired_role: Some(role), ..cfg },
            RoleSetting::DuesExpiring => GuildConfigView { dues_expiring_role: Some(role), ..cfg },
            RoleSetting::Unverified => GuildConfigView { unverified_role: Some(role), ..cfg },
            RoleSetting::ManualOverride => GuildConfigView {
                manual_override_role: Some(role),
                ..cfg
            },
        }
    }
}

impl ChannelSetting {
    /// The words a change of this setting is reported with.
    pub open spec fn words(self) -> Seq<char> {
        match self {
            ChannelSetting::ModApproval => "mod-approval channel"@,
            ChannelSetting::Unverified => "unverified channel"@,
            ChannelSetting::DuesExpired => "dues-expired channel"@,
            ChannelSetting::VerificationLog => "verification-log channel"@,
        }
    }

    /// The channel this setting holds.
    pub open spec fn get(self, cfg: GuildConfigView) -> Option<DiscordChannelId> {
        match self {
            ChannelSetting::ModApproval => cfg.mod_approval_channel,
            ChannelSetting::Unverified => cfg.unverified_channel,
            ChannelSetting::DuesExpired => cfg.dues_expired_channel,
            ChannelSetting::VerificationLog => cfg.verification_log_channel,
        }
    }

    /// The configuration with this setting pointed at `channel`, and nothing else changed.
    pub open spec fn put(self, cfg: GuildConfigView, channel: DiscordChannelId) -> GuildConfigView {
        match self {
            ChannelSetting::ModApproval => GuildConfigView {
                mod_approval_channel: Some(channel),
                ..cfg
            },
            ChannelSetting::Unverified => GuildConfigView {
                unverified_channel: Some(channel),
                ..cfg
            },
            ChannelSetting::DuesExpired => GuildConfigView {
                dues_expired_channel: Some(channel),
                ..cfg
            },
            ChannelSetting::VerificationLog => GuildConfigView {
                verification_log_channel: Some(channel),
                ..cfg
            },
        }
    }
}

fn role_setting_of(id: &str) -> (r: Option<RoleSetting>)
    ensures
        r == role_setting(id@),
{
    if same(id, MOD_ROLE_ID) {
        Some(RoleSetting::Moderator)
    } else if same(id, MEMBER_ROLE_ID) {
        Some(RoleSetting::Member)
    } else if same(id, DUES_ROLE_ID) {
        Some(RoleSetting::DuesExpired)
    } else if same(id, DUES_EXPIRING_ROLE_ID) {
        Some(RoleSetting::DuesExpiring)
    } else if same(id, UNVERIFIED_ROLE_ID) {
        Some(RoleSetting::Unverified)
    } else if same(id, OVERRIDE_ROLE_ID) {
        Some(RoleSetting::ManualOverride)
    } else {
        None
    }
}

fn channel_setting_of(id: &str) -> (r: Option<ChannelSetting>)
    ensures
        r == channel_setting(id@),
{
    if same(id, MOD_CHAN_ID) {
        Some(ChannelSetting::ModApproval)
    } else if same(id, UNVERIFIED_CHAN_ID) {
        Some(ChannelSetting::Unverified)
    } else if same(id, DUES_CHAN_ID) {
        Some(ChannelSetting::DuesExpired)
    } else if same(id, VERIFY_LOG_CHAN_ID) {
        Some(ChannelSetting::VerificationLog)
    } else {
        None
    }
}

/// The raw id of an optional role.
pub open spec fn role_number(role: Option<DiscordRoleId>) -> Option<u64> {
    match role {
        Some(r) => Some(r.0),
        None => None,
    }
}

/// The raw id of an optional channel.
pub open spec fn channel_number(channel: Option<DiscordChannelId>) -> Option<u64> {
    match channel {
        Some(c) => Some(c.0),
        None => None,
    }
}

fn put_role(slot: &mut Option<DiscordRoleId>, rid: DiscordRoleId) -> (old_id: Option<u64>)
    ensures
        *final(slot) == Some(rid),
        old_id == role_number(*old(slot)),
{
    let before = match *slot {
        Some(r) => Some(r.0),
        None => None,
    };
    *slot = Some(rid);
    before
}

fn put_channel(slot: &mut Option<DiscordChannelId>, cid: DiscordChannelId) -> (old_id: Option<u64>)
    ensures
        *final(slot) == Some(cid),
        old_id == channel_number(*old(slot)),
{
    let before = match *slot {
        Some(c) => Some(c.0),
        None => None,
    };
    *slot = Some(cid);
    before
}

/// Set the role field named by `id`, returning its display label and the previous id.
pub fn set_role_field(cfg: &mut GuildConfig, id: &str, rid: DiscordRoleId) -> (r: Option<
    (&'static str, Option<u64>),
>)
    ensures
        (match role_setting(id@) {
            None => r is None && final(cfg)@ == old(cfg)@,
            Some(setting) => {
                &&& r matches Some((label, before)) && label@ == setting.words() && before
                    == role_number(setting.get(old(cfg)@))
                &&& final(cfg)@ == setting.put(old(cfg)@, rid)
            },
        }),
{
    match role_setting_of(id) {
        None => None,
        Some(RoleSetting::Moderator) => Some(
            ("moderator role", put_role(&mut cfg.moderator_role, rid)),
        ),
        Some(RoleSetting::Member) => Some(("member role", put_role(&mut cfg.member_role, rid))),
        Some(RoleSetting::DuesExpired) => Some(
            ("dues-expired role", put_role(&mut cfg.dues_expired_role, rid)),
        ),
        Some(RoleSetting::DuesExpiring) => Some(
            ("dues-expiring role", put_role(&mut cfg.dues_expiring_role, rid)),
        ),
        Some(RoleSetting::Unverified) => Some(
            ("unverified role", put_role(&mut cfg.unverified_role, rid)),
        ),
        Some(RoleSetting::ManualOverride) => Some(
            ("manual override role", put_role(&mut cfg.manual_override_role, rid)),
        ),
    }
}

/// Set the channel field named by `id`, returning its display label and the previous id.
pub fn set_channel_field(cfg: &mut GuildConfig, id: &str, cid: DiscordChannelId) -> (r: Option<
    (&'static str, Option<u64>),
>)
    ensures
        (match channel_setting(id@) {
            None => r is None && final(cfg)@ == old(cfg)@,
            Some(setting) => {
                &&& r matches Some((label, before)) && label@ == setting.words() && before
                    == channel_number(setting.get(old(cfg)@))
                &&& final(cfg)@ == setting.put(old(cfg)@, cid)
            },
        }),
{
    match channel_setting_of(id) {
        None => None,
        Some(ChannelSetting::ModApproval) => Some(
            ("mod-approval channel", put_channel(&mut cfg.mod_approval_channel, cid)),
        ),
        Some(ChannelSetting::Unverified) => Some(
            ("unverified channel", put_channel(&mut cfg.unverified_channel, cid)),
        ),
        Some(ChannelSetting::DuesExpired) => Some(
            ("dues-expired channel", put_channel(&mut cfg.dues_expired_channel, cid)),
        ),
        Some(ChannelSetting::VerificationLog) => Some(
            ("verification-log channel", put_channel(&mut cfg.verification_log_channel, cid)),
        ),
    }
}

/// Every configured role is held by one setting only.
pub open spec fn distinct_roles(cfg: GuildConfigView) -> bool {
    forall|a: RoleSetting, b: RoleSetting|
        a != b && #[trigger] a.get(cfg) is Some && #[trigger] b.get(cfg) is Some ==> a.get(cfg)
            != b.get(cfg)
}

fn clash(a: Option<DiscordRoleId>, b: Option<DiscordRoleId>) -> (r: bool)
    ensures
        r == (a is Some && a == b),
{
    match (a, b) {
        (Some(x), Some(y)) => x.0 == y.0,
        _ => false,
    }
}

/// Every configured role must be distinct, the moderator role included: letting a managed
/// status role double as the moderator role would hand moderator access to anyone verified
/// as a member.
pub fn roles_are_distinct(cfg: &GuildConfig) -> (r: bool)
    ensures
        r == distinct_roles(cfg@),
{
    let m = cfg.moderator_role;
    let e = cfg.member_role;
    let d = cfg.dues_expired_role;
    let x = cfg.dues_expiring_role;
    let u = cfg.unverified_role;
    let o = cfg.manual_override_role;
    let r = !(clash(m, e) || clash(m, d) || clash(m, x) || clash(m, u) || clash(m, o) || clash(e, d)
        || clash(e, x) || clash(e, u) || clash(e, o) || clash(d, x) || clash(d, u) || clash(d, o)
        || clash(x, u) || clash(x, o) || clash(u, o));
    proof {
        let v = cfg@;
        assert(RoleSetting::Moderator.get(v) == m && RoleSetting::Member.get(v) == e
            && RoleSetting::DuesExpired.get(v) == d && RoleSetting::DuesExpiring.get(v) == x
            && RoleSetting::Unverified.get(v) == u && RoleSetting::ManualOverride.get(v) == o);
    }
    r
}

/// What an audit row records of a change.
#[derive(Debug, Clone, PartialEq, Eq)]
pub enum AuditEntry {
    /// A feature was switched.
    Switch { action: &'static str, field: &'static str, before: bool, after: bool },
    /// A role or channel was chosen.
    Choice { action: &'static str, field: &'static str, previous: Option<u64>, chosen: u64 },
    /// The sign-up link was set.
    Link { old_url: Option<String>, new_url: Option<String> },
}

/// The action an audit row for a sign-up link carries.
pub const SET_DUES_URL: &'static str = "config.set_dues_url";

/// The field an audit row for a sign-up link names.
pub const DUES_URL_FIELD: &'static str = "dues sign-up URL";

/// An [`AuditEntry`] over characters.
pub enum AuditEntryView {
    Switch { action: Seq<char>, field: Seq<char>, before: bool, after: bool },
    Choice { action: Seq<char>, field: Seq<char>, previous: Option<u64>, chosen: u64 },
    Link { old_url: Option<Seq<char>>, new_url: Option<Seq<char>> },
}

impl View for AuditEntry {
    type V = AuditEntryView;

    open spec fn view(&self) -> AuditEntryView {
        match self {
            AuditEntry::Switch { action, field, before, after } => AuditEntryView::Switch {
                action: action@,
                field: field@,
                before: *before,
                after: *after,
            },
            AuditEntry::Choice { action, field, previous, chosen } => AuditEntryView::Choice {
                action: action@,
                field: field@,
                previous: *previous,
                chosen: *chosen,
            },
            AuditEntry::Link { old_url, new_url } => AuditEntryView::Link {
                old_url: opt_view(*old_url),
                new_url: opt_view(*new_url),
            },
        }
    }
}

/// What a change is, for the words that follow it.
#[derive(Debug, Clone, Copy, PartialEq, Eq)]
pub enum ChangeKind {
    Scan,
    Reminders,
    /// SSO, and whether it was a confirmed disable.
    Sso { confirmed_disable: bool },
    /// A selection, and the page it was made on.
    Selection { page: Page },
    DuesUrl,
}

/// A proposed change: the whole next configuration and its audit row.
#[derive(Debug, Clone, PartialEq, Eq)]
pub struct Change {
    pub kind: ChangeKind,
    pub next: GuildConfig,
    pub audit: AuditEntry,
}

/// A [`Change`] over characters.
pub struct ChangeView {
    pub kind: ChangeKind,
    pub next: GuildConfigView,
    pub audit: AuditEntryView,
}

impl View for Change {
    type V = ChangeView;

    open spec fn view(&self) -> ChangeView {
        ChangeView { kind: self.kind, next: self.next@, audit: self.audit@ }
    }
}

/// What follows the attempt to save a change.
#[derive(Debug, Clone, PartialEq, Eq)]
pub struct Settled {
    /// The configuration to make live.
    pub live: Option<GuildConfig>,
    /// The audit row to write.
    pub audit: Option<AuditEntry>,
    /// Whether to take the Dues Expiring marker off every member that holds it.
    pub clear_markers: bool,
    /// The page to redraw.
    pub page: Page,
    /// The note to show on it.
    pub note: Option<String>,
}

/// The page a change is redrawn on.
pub open spec fn change_page(kind: ChangeKind) -> Page {
    match kind {
        ChangeKind::Scan | ChangeKind::Sso { .. } => Page::Moderation,
        ChangeKind::Reminders | ChangeKind::DuesUrl => Page::Dues,
        ChangeKind::Selection { page } => page,
    }
}

/// The note a saved change is reported with.
pub open spec fn saved_note(change: ChangeView) -> Option<Seq<char>> {
    match change.kind {
        ChangeKind::Scan => if change.next.scan_enabled && change.next.mod_approval_channel is None {
            Some(SCAN_WITHOUT_CHANNEL@)
        } else {
            None
        },
        ChangeKind::Reminders => if !change.next.reminders_enabled {
            Some(REMINDERS_OFF@)
        } else if change.next.dues_expired_channel is None {
            Some(REMINDERS_WITHOUT_CHANNEL@)
        } else {
            None
        },
        ChangeKind::Sso { confirmed_disable } => if confirmed_disable {
            Some(SSO_DISABLED@)
        } else {
            None
        },
        ChangeKind::Selection { .. } => match change.audit {
            AuditEntryView::Choice { field, .. } => Some("Updated the "@ + field + "."@),
            _ => None,
        },
        ChangeKind::DuesUrl => match change.audit {
            AuditEntryView::Link { old_url, new_url } => if old_url == new_url {
                Some(SAME_LINK@)
            } else {
                Some(LINK_UPDATED@)
            },
            _ => None,
        },
    }
}

fn note_for(change: &Change) -> (r: Option<String>)
    ensures
        opt_view(r) == saved_note(change@),
{
    match change.kind {
        ChangeKind::Scan => if change.next.scan_enabled
            && change.next.mod_approval_channel.is_none() {
            Some(SCAN_WITHOUT_CHANNEL.to_owned())
        } else {
            None
        },
        ChangeKind::Reminders => if !change.next.reminders_enabled {
            Some(REMINDERS_OFF.to_owned())
        } else if change.next.dues_expired_channel.is_none() {
            Some(REMINDERS_WITHOUT_CHANNEL.to_owned())
        } else {
            None
        },
        ChangeKind::Sso { confirmed_disable } => if confirmed_disable {
            Some(SSO_DISABLED.to_owned())
        } else {
            None
        },
        ChangeKind::Selection { .. } => match &change.audit {
            AuditEntry::Choice { field, .. } => Some(
                "Updated the ".to_owned().concat(field).concat("."),
            ),
            _ => None,
        },
        ChangeKind::DuesUrl => match &change.audit {
            AuditEntry::Link { old_url, new_url } => if same_opt(old_url, new_url) {
                Some(SAME_LINK.to_owned())
            } else {
                Some(LINK_UPDATED.to_owned())
            },
            _ => None,
        },
    }
}

/// Settle a change once saving it was tried. A saved change goes live and is audited; one
/// that could not be saved leaves everything as it was. Turning reminders off also clears
/// the Dues Expiring marker, so it does not linger once nothing reconciles it.
pub fn settle(change: Change, saved: bool) -> (r: Settled)
    ensures
        r.page == change_page(change.kind),
        saved ==> {
            &&& r.live matches Some(live) && live@ == change@.next
            &&& r.audit matches Some(audit) && audit@ == change@.audit
            &&& opt_view(r.note) == saved_note(change@)
            &&& r.clear_markers == (change.kind is Reminders && !change.next.reminders_enabled)
        },
        !saved ==> {
            &&& r.live is None
            &&& r.audit is None
            &&& !r.clear_markers
            &&& opt_view(r.note) == Some(SAVE_FAILED@)
        },
{
    let page = match change.kind {
        ChangeKind::Scan | ChangeKind::Sso { .. } => Page::Moderation,
        ChangeKind::Reminders | ChangeKind::DuesUrl => Page::Dues,
        ChangeKind::Selection { page } => page,
    };
    if !saved {
        return Settled {
            live: None,
            audit: None,
            clear_markers: false,
            page,
            note: Some(SAVE_FAILED.to_owned()),
        };
    }
    let note = note_for(&change);
    let clear_markers = matches!(change.kind, ChangeKind::Reminders)
        && !change.next.reminders_enabled;
    Settled { live: Some(change.next), audit: Some(change.audit), clear_markers, page, note }
}

/// The change that flips the scheduled scan.
pub open spec fn scan_change(cfg: GuildConfigView) -> ChangeView {
    ChangeView {
        kind: ChangeKind::Scan,
        next: GuildConfigView { scan_enabled: !cfg.scan_enabled, ..cfg },
        audit: AuditEntryView::Switch {
            action: "config.set_scan"@,
            field: "automatic membership checks"@,
            before: cfg.scan_enabled,
            after: !cfg.scan_enabled,
        },
    }
}

/// Flip the scheduled scan.
pub fn toggle_scan(cfg: &GuildConfig) -> (r: Change)
    ensures
        r@ == scan_change(cfg@),
{
    let mut next = cfg.copy();
    next.scan_enabled = !cfg.scan_enabled;
    Change {
        kind: ChangeKind::Scan,
        next,
        audit: AuditEntry::Switch {
            action: "config.set_scan",
            field: "automatic membership checks",
            before: cfg.scan_enabled,
            after: !cfg.scan_enabled,
        },
    }
}

/// The change that flips the dues reminders.
pub open spec fn reminders_change(cfg: GuildConfigView) -> ChangeView {
    ChangeView {
        kind: ChangeKind::Reminders,
        next: GuildConfigView { reminders_enabled: !cfg.reminders_enabled, ..cfg },
        audit: AuditEntryView::Switch {
            action: "config.set_reminders"@,
            field: "dues reminders"@,
            before: cfg.reminders_enabled,
            after: !cfg.reminders_enabled,
        },
    }
}

/// Flip the dues reminders.
pub fn toggle_reminders(cfg: &GuildConfig) -> (r: Change)
    ensures
        r@ == reminders_change(cfg@),
{
    let mut next = cfg.copy();
    next.reminders_enabled = !cfg.reminders_enabled;
    Change {
        kind: ChangeKind::Reminders,
        next,
        audit: AuditEntry::Switch {
            action: "config.set_reminders",
            field: "dues reminders",
            before: cfg.reminders_enabled,
            after: !cfg.reminders_enabled,
        },
    }
}

/// The change that sets SSO.
pub open spec fn sso_change(cfg: GuildConfigView, on: bool, confirmed_disable: bool) -> ChangeView {
    ChangeView {
        kind: ChangeKind::Sso { confirmed_disable },
        next: GuildConfigView { sso_enabled: on, ..cfg },
        audit: AuditEntryView::Switch {
            action: "config.set_sso"@,
            field: "sso"@,
            before: cfg.sso_enabled,
            after: on,
        },
    }
}

/// Set SSO on or off.
pub fn set_sso_enabled(cfg: &GuildConfig, on: bool, confirmed_disable: bool) -> (r: Change)
    ensures
        r@ == sso_change(cfg@, on, confirmed_disable),
{
    let mut next = cfg.copy();
    next.sso_enabled = on;
    Change {
        kind: ChangeKind::Sso { confirmed_disable },
        next,
        audit: AuditEntry::Switch {
            action: "config.set_sso",
            field: "sso",
            before: cfg.sso_enabled,
            after: on,
        },
    }
}

/// The SSO toggle. Enabling is proposed at once; disabling removes the admin-panel login
/// path, so it proposes nothing until it has been confirmed.
pub fn toggle_sso(cfg: &GuildConfig) -> (r: Option<Change>)
    ensures
        r is None <==> cfg@.sso_enabled,
        r matches Some(change) ==> change@ == sso_change(cfg@, true, false),
{
    if cfg.sso_enabled {
        None
    } else {
        Some(set_sso_enabled(cfg, true, false))
    }
}

/// The confirmed disable.
pub fn confirm_disable_sso(cfg: &GuildConfig) -> (r: Change)
    ensures
        r@ == sso_change(cfg@, false, true),
{
    set_sso_enabled(cfg, false, true)
}

/// What was picked in a select menu.
#[derive(Debug, Clone, Copy, PartialEq, Eq, Structural)]
pub enum Picked {
    /// The first role picked, if any.
    Role(Option<u64>),
    /// The first channel picked, if any.
    Channel(Option<u64>),
    /// Some other kind of control.
    Other,
}

/// What a selection comes to.
#[derive(Debug, Clone, PartialEq, Eq)]
pub enum Selected {
    /// Not a setting: nothing to do and nothing to say.
    Nothing,
    /// Refused, with a note; nothing changes.
    Refused(String),
    /// Proposed.
    Proposed(Change),
}

/// The change a role pick proposes.
pub open spec fn role_change(
    cfg: GuildConfigView,
    setting: RoleSetting,
    rid: u64,
    page: Page,
) -> ChangeView {
    ChangeView {
        kind: ChangeKind::Selection { page },
        next: setting.put(cfg, DiscordRoleId(rid)),
        audit: AuditEntryView::Choice {
            action: "config.set_role"@,
            field: setting.words(),
            previous: role_number(setting.get(cfg)),
            chosen: rid,
        },
    }
}

/// The change a channel pick proposes.
pub open spec fn channel_change(
    cfg: GuildConfigView,
    setting: ChannelSetting,
    cid: u64,
    page: Page,
) -> ChangeView {
    ChangeView {
        kind: ChangeKind::Selection { page },
        next: setting.put(cfg, DiscordChannelId(cid)),
        audit: AuditEntryView::Choice {
            action: "config.set_channel"@,
            field: setting.words(),
            previous: channel_number(setting.get(cfg)),
            chosen: cid,
        },
    }
}

/// The change a selection asks for, before the roles are checked for clashes.
pub open spec fn selection_change(
    cfg: GuildConfigView,
    id: Seq<char>,
    picked: Picked,
    page: Page,
) -> Option<ChangeView> {
    match picked {
        Picked::Role(Some(rid)) => match role_setting(id) {
            Some(setting) => Some(role_change(cfg, setting, rid, page)),
            None => None,
        },
        Picked::Channel(Some(cid)) => match channel_setting(id) {
            Some(setting) => Some(channel_change(cfg, setting, cid, page)),
            None => None,
        },
        _ => None,
    }
}

/// Apply one role or channel selection to a copy of the configuration, refusing it where
/// two settings would share a role.
pub fn apply_selection(cfg: &GuildConfig, id: &str, picked: Picked, page: Page) -> (r: Selected)
    ensures
        (match selection_change(cfg@, id@, picked, page) {
            None => r is Nothing,
            Some(change) => if distinct_roles(change.next) {
                r matches Selected::Proposed(c) && c@ == change
            } else {
                r matches Selected::Refused(note) && note@ == DUPLICATE_ROLE@
            },
        }),
{
    let mut next = cfg.copy();
    let audit = match picked {
        Picked::Role(Some(rid)) => match set_role_field(&mut next, id, DiscordRoleId(rid)) {
            None => {
                return Selected::Nothing;
            },
            Some((field, previous)) => AuditEntry::Choice {
                action: "config.set_role",
                field,
                previous,
                chosen: rid,
            },
        },
        Picked::Channel(Some(cid)) => match set_channel_field(
            &mut next,
            id,
            DiscordChannelId(cid),
        ) {
            None => {
                return Selected::Nothing;
            },
            Some((field, previous)) => AuditEntry::Choice {
                action: "config.set_channel",
                field,
                previous,
                chosen: cid,
            },
        },
        _ => {
            return Selected::Nothing;
        },
    };
    if !roles_are_distinct(&next) {
        return Selected::Refused(DUPLICATE_ROLE.to_owned());
    }
    Selected::Proposed(Change { kind: ChangeKind::Selection { page }, next, audit })
}

/// Two configurations that agree on every role are distinct in their roles alike.
proof fn lemma_distinct_by_roles(a: GuildConfigView, b: GuildConfigView)
    requires
        forall|s: RoleSetting| #[trigger] s.get(a) == s.get(b),
        distinct_roles(a),
    ensures
        distinct_roles(b),
{
    assert forall|x: RoleSetting, y: RoleSetting|
        x != y && #[trigger] x.get(b) is Some && #[trigger] y.get(b) is Some implies x.get(b)
        != y.get(b) by {
        assert(x.get(a) == x.get(b));
        assert(y.get(a) == y.get(b));
    }
}

/// A switch flipped twice leaves the configuration as it was, and no switch makes two
/// settings share a role.
pub proof fn law_switches_undo_themselves(cfg: GuildConfigView)
    ensures
        scan_change(scan_change(cfg).next).next == cfg,
        reminders_change(reminders_change(cfg).next).next == cfg,
        !cfg.sso_enabled ==> sso_change(sso_change(cfg, true, false).next, false, true).next == cfg,
        distinct_roles(cfg) ==> distinct_roles(scan_change(cfg).next) && distinct_roles(
            reminders_change(cfg).next,
        ) && distinct_roles(sso_change(cfg, true, false).next) && distinct_roles(
            sso_change(cfg, false, true).next,
        ),
{
    if distinct_roles(cfg) {
        lemma_distinct_by_roles(cfg, scan_change(cfg).next);
        lemma_distinct_by_roles(cfg, reminders_change(cfg).next);
        lemma_distinct_by_roles(cfg, sso_change(cfg, true, false).next);
        lemma_distinct_by_roles(cfg, sso_change(cfg, false, true).next);
    }
}

/// No selection touches a switch, a standing message or the sign-up link, and picking a
/// channel never makes two settings share a role.
pub proof fn law_selections_stay_in_their_lane(
    cfg: GuildConfigView,
    id: Seq<char>,
    picked: Picked,
    page: Page,
)
    ensures
        selection_change(cfg, id, picked, page) matches Some(change) ==> {
            &&& change.next.scan_enabled == cfg.scan_enabled
            &&& change.next.reminders_enabled == cfg.reminders_enabled
            &&& change.next.sso_enabled == cfg.sso_enabled
            &&& change.next.unverified_prompt == cfg.unverified_prompt
            &&& change.next.dues_banner == cfg.dues_banner
            &&& change.next.dues_signup_url == cfg.dues_signup_url
            &&& picked is Channel && distinct_roles(cfg) ==> distinct_roles(change.next)
        },
{
    if let Some(change) = selection_change(cfg, id, picked, page) {
        if picked is Channel && distinct_roles(cfg) {
            lemma_distinct_by_roles(cfg, change.next);
        }
    }
}

/// Which standing message a posted reference belongs to.
#[derive(Debug, Clone, Copy, PartialEq, Eq, Structural)]
pub enum PostedMessage {
    Prompt,
    Banner,
}

/// The configuration that remembers where a standing message was posted.
pub open spec fn remembering(
    cfg: GuildConfigView,
    which: PostedMessage,
    at: MessageRef,
) -> GuildConfigView {
    match which {
        PostedMessage::Prompt => GuildConfigView { unverified_prompt: Some(at), ..cfg },
        PostedMessage::Banner => GuildConfigView { dues_banner: Some(at), ..cfg },
    }
}

/// Remember where a standing message was just posted, so the next publish edits it in
/// place.
pub fn save_message_ref(cfg: &GuildConfig, which: PostedMessage, at: MessageRef) -> (r: GuildConfig)
    ensures
        r@ == remembering(cfg@, which, at),
{
    let mut next = cfg.copy();
    match which {
        PostedMessage::Prompt => {
            next.unverified_prompt = Some(at);
        },
        PostedMessage::Banner => {
            next.dues_banner = Some(at);
        },
    }
    next
}

/// The configuration that goes live once saving a reference was tried: an unsaved one never
/// does, so the next publish posts afresh.
pub fn settle_message_ref(next: GuildConfig, saved: bool) -> (r: Option<GuildConfig>)
    ensures
        r == (if saved {
            Some(next)
        } else {
            None
        }),
{
    if saved {
        Some(next)
    } else {
        None
    }
}

/// What just happened to a publish.
#[derive(Debug, Clone, Copy, PartialEq, Eq, Structural)]
pub enum PostEvent {
    /// It was asked for.
    Asked,
    /// The standing message was edited, or could not be.
    Edited(bool),
    /// A fresh message was posted to this channel, or could not be.
    Posted(DiscordChannelId, Option<DiscordMessageId>),
}

/// What a publish does next.
#[derive(Debug, Clone, Copy, PartialEq, Eq, Structural)]
pub enum PostAction {
    /// Edit the standing message in place.
    EditInPlace(MessageRef),
    /// Post a fresh message to this channel.
    PostTo(DiscordChannelId),
    /// Remember the fresh message and report it posted.
    Remember(MessageRef),
    /// Report that the standing message was updated.
    Updated,
    /// Ask for a channel first.
    NeedsChannel,
    /// Report that posting failed.
    Failed,
}

/// The standing message and the channel it goes to.
pub open spec fn posting_of(cfg: GuildConfigView, which: PostedMessage) -> (
    Option<MessageRef>,
    Option<DiscordChannelId>,
) {
    match which {
        PostedMessage::Prompt => (cfg.unverified_prompt, cfg.unverified_channel),
        PostedMessage::Banner => (cfg.dues_banner, cfg.dues_expired_channel),
    }
}

/// A publish, one event at a time: edit what stands, else post afresh where a channel is
/// configured. An edit that fails falls back to a fresh post.
pub open spec fn post_next(cfg: GuildConfigView, which: PostedMessage, event: PostEvent) -> PostAction {
    let (existing, channel) = posting_of(cfg, which);
    let afresh = match channel {
        Some(c) => PostAction::PostTo(c),
        None => PostAction::NeedsChannel,
    };
    match event {
        PostEvent::Asked => match existing {
            Some(at) => PostAction::EditInPlace(at),
            None => afresh,
        },
        PostEvent::Edited(true) => PostAction::Updated,
        PostEvent::Edited(false) => afresh,
        PostEvent::Posted(channel, Some(message)) => PostAction::Remember(
            MessageRef { channel, message },
        ),
        PostEvent::Posted(_, None) => PostAction::Failed,
    }
}

fn post(cfg: &GuildConfig, which: PostedMessage, event: PostEvent) -> (r: PostAction)
    ensures
        r == post_next(cfg@, which, event),
{
    let (existing, channel) = match which {
        PostedMessage::Prompt => (cfg.unverified_prompt, cfg.unverified_channel),
        PostedMessage::Banner => (cfg.dues_banner, cfg.dues_expired_channel),
    };
    let afresh = match channel {
        Some(c) => PostAction::PostTo(c),
        None => PostAction::NeedsChannel,
    };
    match event {
        PostEvent::Asked => match existing {
            Some(at) => PostAction::EditInPlace(at),
            None => afresh,
        },
        PostEvent::Edited(ok) => if ok {
            PostAction::Updated
        } else {
            afresh
        },
        PostEvent::Posted(channel, Some(message)) => PostAction::Remember(
            MessageRef { channel, message },
        ),
        PostEvent::Posted(_, None) => PostAction::Failed,
    }
}

/// Whether a publish is about to write its message.
pub open spec fn writes_message(action: PostAction) -> bool {
    action is EditInPlace || action is PostTo
}

/// Publish the verification prompt, with this body. A step that writes the message says
/// what it shows; an edit shows what a fresh post would.
pub fn post_prompt(cfg: &GuildConfig, body: &str, accent: u32, event: PostEvent) -> (r: (
    PostAction,
    Option<(Embed, Row)>,
))
    ensures
        r.0 == post_next(cfg@, PostedMessage::Prompt, event),
        r.1 is Some <==> writes_message(r.0),
        r.1 matches Some((embed, row)) ==> embed@ == prompt_view(body@, accent) && row@
            == prompt_row(),
{
    let action = post(cfg, PostedMessage::Prompt, event);
    let shown = match action {
        PostAction::EditInPlace(_) => Some(verify_prompt_edit(body, accent)),
        PostAction::PostTo(_) => Some(verify_prompt(body, accent)),
        _ => None,
    };
    (action, shown)
}

/// Publish the dues-expiring banner. What it shows is the caller's.
pub fn post_banner(cfg: &GuildConfig, event: PostEvent) -> (r: PostAction)
    ensures
        r == post_next(cfg@, PostedMessage::Banner, event),
{
    post(cfg, PostedMessage::Banner, event)
}

pub const PROMPT_UPDATED: &'static str = "Updated the verification prompt in place.";

pub const PROMPT_POSTED: &'static str = "Posted the verification prompt to the unverified channel.";

pub const PROMPT_NEEDS_CHANNEL: &'static str = "Set an unverified channel first (on this page), then post the prompt.";

pub const PROMPT_FAILED: &'static str = "Couldn't post the prompt there - check my permissions on that channel.";

pub const BANNER_UPDATED: &'static str = "Updated the dues-expiring message in place.";

pub const BANNER_POSTED: &'static str = "Posted the dues-expiring message to the dues-expired channel.";

pub const BANNER_NEEDS_CHANNEL: &'static str = "Set a dues-expired channel first (on this page), then post the channel message.";

pub const BANNER_FAILED: &'static str = "Couldn't post the message there - check my permissions on that channel.";

/// The note a publish ends with; none while it is still under way.
pub open spec fn post_words(which: PostedMessage, action: PostAction) -> Option<Seq<char>> {
    match (which, action) {
        (PostedMessage::Prompt, PostAction::Updated) => Some(PROMPT_UPDATED@),
        (PostedMessage::Prompt, PostAction::Remember(_)) => Some(PROMPT_POSTED@),
        (PostedMessage::Prompt, PostAction::NeedsChannel) => Some(PROMPT_NEEDS_CHANNEL@),
        (PostedMessage::Prompt, PostAction::Failed) => Some(PROMPT_FAILED@),
        (PostedMessage::Banner, PostAction::Updated) => Some(BANNER_UPDATED@),
        (PostedMessage::Banner, PostAction::Remember(_)) => Some(BANNER_POSTED@),
        (PostedMessage::Banner, PostAction::NeedsChannel) => Some(BANNER_NEEDS_CHANNEL@),
        (PostedMessage::Banner, PostAction::Failed) => Some(BANNER_FAILED@),
        _ => None,
    }
}

/// The note a publish ends with; none while it is still under way.
pub fn post_note(which: PostedMessage, action: PostAction) -> (r: Option<&'static str>)
    ensures
        crate::ui::opt_str_view(r) == post_words(which, action),
{
    match (which, action) {
        (PostedMessage::Prompt, PostAction::Updated) => Some(PROMPT_UPDATED),
        (PostedMessage::Prompt, PostAction::Remember(_)) => Some(PROMPT_POSTED),
        (PostedMessage::Prompt, PostAction::NeedsChannel) => Some(PROMPT_NEEDS_CHANNEL),
        (PostedMessage::Prompt, PostAction::Failed) => Some(PROMPT_FAILED),
        (PostedMessage::Banner, PostAction::Updated) => Some(BANNER_UPDATED),
        (PostedMessage::Banner, PostAction::Remember(_)) => Some(BANNER_POSTED),
        (PostedMessage::Banner, PostAction::NeedsChannel) => Some(BANNER_NEEDS_CHANNEL),
        (PostedMessage::Banner, PostAction::Failed) => Some(BANNER_FAILED),
        _ => None,
    }
}

/// Once a message was posted and remembered, the next publish edits that very message
/// rather than posting a duplicate.
pub proof fn law_publish_edits_in_place(
    cfg: GuildConfigView,
    which: PostedMessage,
    channel: DiscordChannelId,
    message: DiscordMessageId,
)
    ensures
        post_next(cfg, which, PostEvent::Posted(channel, Some(message))) matches PostAction::Remember(
            at,
        ) && post_next(remembering(cfg, which, at), which, PostEvent::Asked)
            == PostAction::EditInPlace(at) && at == (MessageRef { channel, message }),
{
}

/// A picked role lands in the very setting its menu stands for, and a picked channel in its
/// own; everything else stays as it was, and the audit row tells what was there before and
/// what was chosen.
pub proof fn law_a_pick_lands_in_its_setting(cfg: GuildConfigView, id: Seq<char>, n: u64, page: Page)
    ensures
        ({
            let role = selection_change(cfg, id, Picked::Role(Some(n)), page);
            let next = role->0.next;
            &&& id == "setup_role_moderator"@ ==> role is Some && next == (GuildConfigView {
                moderator_role: Some(DiscordRoleId(n)),
                ..cfg
            })
            &&& id == "setup_role_member"@ ==> role is Some && next == (GuildConfigView {
                member_role: Some(DiscordRoleId(n)),
                ..cfg
            })
            &&& id == "setup_role_dues_expired"@ ==> role is Some && next == (GuildConfigView {
                dues_expired_role: Some(DiscordRoleId(n)),
                ..cfg
            })
            &&& id == "setup_role_dues_expiring"@ ==> role is Some && next == (GuildConfigView {
                dues_expiring_role: Some(DiscordRoleId(n)),
                ..cfg
            })
            &&& id == "setup_role_unverified"@ ==> role is Some && next == (GuildConfigView {
                unverified_role: Some(DiscordRoleId(n)),
                ..cfg
            })
            &&& id == "setup_role_manual_override"@ ==> role is Some && next == (GuildConfigView {
                manual_override_role: Some(DiscordRoleId(n)),
                ..cfg
            })
            &&& role is Some ==> (role->0.audit matches AuditEntryView::Choice {
                action,
                field,
                previous,
                chosen,
            } && action == "config.set_role"@ && chosen == n && (role_setting(id) matches Some(s)
                && previous == role_number(s.get(cfg)) && field == s.words()))
        }),
        ({
            let channel = selection_change(cfg, id, Picked::Channel(Some(n)), page);
            let next = channel->0.next;
            &&& id == "setup_chan_mod_approval"@ ==> channel is Some && next == (GuildConfigView {
                mod_approval_channel: Some(DiscordChannelId(n)),
                ..cfg
            })
            &&& id == "setup_chan_unverified"@ ==> channel is Some && next == (GuildConfigView {
                unverified_channel: Some(DiscordChannelId(n)),
                ..cfg
            })
            &&& id == "setup_chan_verify_log"@ ==> channel is Some && next == (GuildConfigView {
                verification_log_channel: Some(DiscordChannelId(n)),
                ..cfg
            })
            &&& id == "setup_chan_dues_expired"@ ==> channel is Some && next == (GuildConfigView {
                dues_expired_channel: Some(DiscordChannelId(n)),
                ..cfg
            })
            &&& channel is Some ==> (channel->0.audit matches AuditEntryView::Choice {
                action,
                field,
                previous,
                chosen,
            } && action == "config.set_channel"@ && chosen == n && (
            channel_setting(id) matches Some(s) && previous == channel_number(s.get(cfg)) && field
                == s.words()))
        }),
        selection_change(cfg, id, Picked::Role(None), page) is None,
        selection_change(cfg, id, Picked::Channel(None), page) is None,
        selection_change(cfg, id, Picked::Other, page) is None,
{
    reveal_strlit("setup_role_moderator");
    reveal_strlit("setup_role_member");
    reveal_strlit("setup_role_dues_expired");
    reveal_strlit("setup_role_dues_expiring");
    reveal_strlit("setup_role_unverified");
    reveal_strlit("setup_role_manual_override");
    reveal_strlit("setup_chan_mod_approval");
    reveal_strlit("setup_chan_unverified");
    reveal_strlit("setup_chan_verify_log");
    reveal_strlit("setup_chan_dues_expired");
    assert("setup_role_moderator"@.len() == 20);
    assert("setup_role_member"@.len() == 17);
    assert("setup_role_dues_expired"@.len() == 23);
    assert("setup_role_dues_expiring"@.len() == 24);
    assert("setup_role_unverified"@.len() == 21);
    assert("setup_role_manual_override"@.len() == 26);
    assert("setup_chan_mod_approval"@[11] == 'm');
    assert("setup_chan_unverified"@[11] == 'u');
    assert("setup_chan_verify_log"@[11] == 'v');
    assert("setup_chan_dues_expired"@[11] == 'd');
}

/// A setting gives back what was put into it and leaves every other as it was; no two are
/// called the same.
pub proof fn law_settings_hold_what_was_put(
    cfg: GuildConfigView,
    a: RoleSetting,
    b: RoleSetting,
    role: DiscordRoleId,
    c: ChannelSetting,
    d: ChannelSetting,
    channel: DiscordChannelId,
)
    ensures
        a.get(a.put(cfg, role)) == Some(role),
        a != b ==> b.get(a.put(cfg, role)) == b.get(cfg),
        c.get(a.put(cfg, role)) == c.get(cfg),
        c.get(c.put(cfg, channel)) == Some(channel),
        c != d ==> d.get(c.put(cfg, channel)) == d.get(cfg),
        a.get(c.put(cfg, channel)) == a.get(cfg),
        a != b ==> a.words() != b.words(),
        c != d ==> c.words() != d.words(),
        RoleSetting::Moderator.words() == "moderator role"@,
        RoleSetting::Member.words() == "member role"@,
        RoleSetting::DuesExpired.words() == "dues-expired role"@,
        RoleSetting::DuesExpiring.words() == "dues-expiring role"@,
        RoleSetting::Unverified.words() == "unverified role"@,
        RoleSetting::ManualOverride.words() == "manual override role"@,
        ChannelSetting::ModApproval.words() == "mod-approval channel"@,
        ChannelSetting::Unverified.words() == "unverified channel"@,
        ChannelSetting::DuesExpired.words() == "dues-expired channel"@,
        ChannelSetting::VerificationLog.words() == "verification-log channel"@,
        RoleSetting::Moderator.get(cfg) == cfg.moderator_role,
        RoleSetting::Member.get(cfg) == cfg.member_role,
        RoleSetting::DuesExpired.get(cfg) == cfg.dues_expired_role,
        RoleSetting::DuesExpiring.get(cfg) == cfg.dues_expiring_role,
        RoleSetting::Unverified.get(cfg) == cfg.unverified_role,
        RoleSetting::ManualOverride.get(cfg) == cfg.manual_override_role,
        ChannelSetting::ModApproval.get(cfg) == cfg.mod_approval_channel,
        ChannelSetting::Unverified.get(cfg) == cfg.unverified_channel,
        ChannelSetting::DuesExpired.get(cfg) == cfg.dues_expired_channel,
        ChannelSetting::VerificationLog.get(cfg) == cfg.verification_log_channel,
{
    reveal_strlit("moderator role");
    reveal_strlit("member role");
    reveal_strlit("dues-expired role");
    reveal_strlit("dues-expiring role");
    reveal_strlit("unverified role");
    reveal_strlit("manual override role");
    reveal_strlit("mod-approval channel");
    reveal_strlit("unverified channel");
    reveal_strlit("dues-expired channel");
    reveal_strlit("verification-log channel");
    assert("moderator role"@.len() == 14 && "member role"@.len() == 11 && "dues-expired role"@.len()
        == 17 && "dues-expiring role"@.len() == 18 && "unverified role"@.len() == 15
        && "manual override role"@.len() == 20);
    assert("mod-approval channel"@[0] == 'm' && "unverified channel"@[0] == 'u'
        && "dues-expired channel"@[0] == 'd' && "verification-log channel"@[0] == 'v');
}

/// A selection that would make two settings share a role is refused; any other setting's is
/// proposed as picked.
pub proof fn law_a_shared_role_is_refused(
    cfg: &GuildConfig,
    id: &str,
    picked: Picked,
    page: Page,
    r: Selected,
)
    requires
        call_ensures(apply_selection, (cfg, id, picked, page), r),
    ensures
        r is Nothing <==> selection_change(cfg@, id@, picked, page) is None,
        (r matches Selected::Proposed(c) ==> distinct_roles(c.next@) && selection_change(
            cfg@,
            id@,
            picked,
            page,
        ) == Some(c@)),
        (r matches Selected::Refused(note) ==> note@ == DUPLICATE_ROLE@ && !distinct_roles(
            selection_change(cfg@, id@, picked, page)->0.next,
        )),
{
}

/// A switch flips its own setting and nothing else, and its audit row tells from what to
/// what.
pub proof fn law_a_switch_flips_its_own_setting(cfg: GuildConfigView, on: bool, confirmed: bool)
    ensures
        scan_change(cfg).next == (GuildConfigView { scan_enabled: !cfg.scan_enabled, ..cfg }),
        scan_change(cfg).audit == (AuditEntryView::Switch {
            action: "config.set_scan"@,
            field: "automatic membership checks"@,
            before: cfg.scan_enabled,
            after: !cfg.scan_enabled,
        }),
        reminders_change(cfg).next == (GuildConfigView {
            reminders_enabled: !cfg.reminders_enabled,
            ..cfg
        }),
        reminders_change(cfg).audit == (AuditEntryView::Switch {
            action: "config.set_reminders"@,
            field: "dues reminders"@,
            before: cfg.reminders_enabled,
            after: !cfg.reminders_enabled,
        }),
        sso_change(cfg, on, confirmed).next == (GuildConfigView { sso_enabled: on, ..cfg }),
        sso_change(cfg, on, confirmed).audit == (AuditEntryView::Switch {
            action: "config.set_sso"@,
            field: "sso"@,
            before: cfg.sso_enabled,
            after: on,
        }),
        change_page(scan_change(cfg).kind) == Page::Moderation,
        change_page(reminders_change(cfg).kind) == Page::Dues,
        change_page(sso_change(cfg, on, confirmed).kind) == Page::Moderation,
{
}

/// Single sign-on is switched on at once, and off only after it was confirmed.
pub proof fn law_disabling_sso_is_confirmed(
    cfg: &GuildConfig,
    toggled: Option<Change>,
    confirmed: Change,
)
    requires
        call_ensures(toggle_sso, (cfg,), toggled),
        call_ensures(confirm_disable_sso, (cfg,), confirmed),
    ensures
        toggled is None <==> cfg.sso_enabled,
        (toggled matches Some(change) ==> change@.next == (GuildConfigView {
            sso_enabled: true,
            ..cfg@
        })),
        confirmed@.next == (GuildConfigView { sso_enabled: false, ..cfg@ }),
        saved_note(confirmed@) == Some(SSO_DISABLED@),
{
}

/// A saved change is made live and audited exactly as proposed, and told in the words of its
/// kind; one that was not saved changes nothing and says so. Markers are cleared exactly
/// where reminders were switched off.
pub proof fn law_a_change_settles_as_it_was_saved(change: Change, saved: bool, r: Settled)
    requires
        call_ensures(settle, (change, saved), r),
    ensures
        saved ==> (r.live matches Some(live) && live@ == change@.next) && (
        r.audit matches Some(audit) && audit@ == change@.audit),
        !saved ==> r.live is None && r.audit is None && !r.clear_markers && (
        r.note matches Some(note) && note@ == SAVE_FAILED@),
        r.clear_markers <==> saved && change.kind is Reminders && !change.next.reminders_enabled,
        change.kind is Scan || change.kind is Sso ==> r.page == Page::Moderation,
        change.kind is Reminders || change.kind is DuesUrl ==> r.page == Page::Dues,
        (change.kind matches ChangeKind::Selection { page } ==> r.page == page),
        saved && change.kind is Scan ==> (if change.next.scan_enabled
            && change.next.mod_approval_channel is None {
            r.note matches Some(note) && note@ == SCAN_WITHOUT_CHANNEL@
        } else {
            r.note is None
        }),
        saved && change.kind is Reminders ==> (if !change.next.reminders_enabled {
            r.note matches Some(note) && note@ == REMINDERS_OFF@
        } else if change.next.dues_expired_channel is None {
            r.note matches Some(note) && note@ == REMINDERS_WITHOUT_CHANNEL@
        } else {
            r.note is None
        }),
        saved && change.kind is Selection ==> (change@.audit matches AuditEntryView::Choice {
            action,
            field,
            previous,
            chosen,
        } ==> (r.note matches Some(note) && note@ == "Updated the "@ + field + "."@)),
        saved && change.kind is DuesUrl ==> (change@.audit matches AuditEntryView::Link {
            old_url,
            new_url,
        } ==> (r.note matches Some(note) && note@ == if old_url == new_url {
            SAME_LINK@
        } else {
            LINK_UPDATED@
        })),
{
}

/// A publish edits what stands and posts afresh where nothing does, in the message's own
/// channel; a failed edit posts afresh, and each ending has its own words for each message.
pub proof fn law_a_publish_goes_to_its_own_channel(
    cfg: GuildConfigView,
    which: PostedMessage,
    channel: DiscordChannelId,
    message: DiscordMessageId,
)
    ensures
        ({
            let standing = if which == PostedMessage::Prompt {
                cfg.unverified_prompt
            } else {
                cfg.dues_banner
            };
            let home = if which == PostedMessage::Prompt {
                cfg.unverified_channel
            } else {
                cfg.dues_expired_channel
            };
            let afresh = match home {
                Some(c) => PostAction::PostTo(c),
                None => PostAction::NeedsChannel,
            };
            &&& post_next(cfg, which, PostEvent::Asked) == match standing {
                Some(at) => PostAction::EditInPlace(at),
                None => afresh,
            }
            &&& post_next(cfg, which, PostEvent::Edited(false)) == afresh
            &&& post_next(cfg, which, PostEvent::Edited(true)) == PostAction::Updated
            &&& post_next(cfg, which, PostEvent::Posted(channel, None)) == PostAction::Failed
        }),
        ({
            let at = MessageRef { channel, message };
            let prompt = which == PostedMessage::Prompt;
            &&& post_words(which, PostAction::Updated) == Some(
                if prompt {
                    PROMPT_UPDATED@
                } else {
                    BANNER_UPDATED@
                },
            )
            &&& post_words(which, PostAction::Remember(at)) == Some(
                if prompt {
                    PROMPT_POSTED@
                } else {
                    BANNER_POSTED@
                },
            )
            &&& post_words(which, PostAction::NeedsChannel) == Some(
                if prompt {
                    PROMPT_NEEDS_CHANNEL@
                } else {
                    BANNER_NEEDS_CHANNEL@
                },
            )
            &&& post_words(which, PostAction::Failed) == Some(
                if prompt {
                    PROMPT_FAILED@
                } else {
                    BANNER_FAILED@
                },
            )
            &&& post_words(which, PostAction::EditInPlace(at)) is None
            &&& post_words(which, PostAction::PostTo(channel)) is None
            &&& remembering(cfg, which, at) == if prompt {
                GuildConfigView { unverified_prompt: Some(at), ..cfg }
            } else {
                GuildConfigView { dues_banner: Some(at), ..cfg }
            }
        }),
{
}

/// The prompt that is posted or put in place of the old one shows the body it was given.
pub proof fn law_the_prompt_shows_its_body(
    cfg: &GuildConfig,
    body: &str,
    accent: u32,
    event: PostEvent,
    r: (PostAction, Option<(Embed, Row)>),
    banner: PostAction,
)
    requires
        call_ensures(post_prompt, (cfg, body, accent, event), r),
        call_ensures(post_banner, (cfg, event), banner),
    ensures
        r.0 == post_next(cfg@, PostedMessage::Prompt, event),
        r.1 is Some <==> r.0 is EditInPlace || r.0 is PostTo,
        (r.1 matches Some((embed, row)) ==> embed@ == prompt_view(body@, accent) && row@
            == prompt_row()),
        banner == post_next(cfg@, PostedMessage::Banner, event),
{
}

/// Setting a field by its menu changes that field alone and tells what it held before.
pub proof fn law_a_field_is_set_by_its_menu(
    cfg: &mut GuildConfig,
    id: &str,
    rid: DiscordRoleId,
    r: Option<(&'static str, Option<u64>)>,
)
    requires
        call_ensures(set_role_field, (cfg, id, rid), r),
    ensures
        r is Some <==> role_setting(id@) is Some,
        r is None ==> final(cfg)@ == old(cfg)@,
        (role_setting(id@) matches Some(s) ==> s.get(final(cfg)@) == Some(rid) && final(cfg)@
            == s.put(old(cfg)@, rid) && (r matches Some((label, before)) && label@ == s.words() && before
            == role_number(s.get(old(cfg)@)))),
{
}

/// The same of a channel.
pub proof fn law_a_channel_field_is_set_by_its_menu(
    cfg: &mut GuildConfig,
    id: &str,
    cid: DiscordChannelId,
    r: Option<(&'static str, Option<u64>)>,
)
    requires
        call_ensures(set_channel_field, (cfg, id, cid), r),
    ensures
        r is Some <==> channel_setting(id@) is Some,
        r is None ==> final(cfg)@ == old(cfg)@,
        (channel_setting(id@) matches Some(s) ==> s.get(final(cfg)@) == Some(cid) && final(cfg)@
            == s.put(old(cfg)@, cid) && (r matches Some((label, before)) && label@ == s.words() && before
            == channel_number(s.get(old(cfg)@)))),
{
}

/// The roles are distinct exactly when no two of the six settings hold the same one.
pub proof fn law_distinct_means_pairwise(cfg: GuildConfigView)
    ensures
        distinct_roles(cfg) <==> ({
            let a = cfg.moderator_role;
            let b = cfg.member_role;
            let c = cfg.dues_expired_role;
            let d = cfg.dues_expiring_role;
            let e = cfg.unverified_role;
            let f = cfg.manual_override_role;
            &&& a is Some ==> a != b && a != c && a != d && a != e && a != f
            &&& b is Some ==> b != c && b != d && b != e && b != f
            &&& c is Some ==> c != d && c != e && c != f
            &&& d is Some ==> d != e && d != f
            &&& e is Some ==> e != f
        }),
{
    assert(RoleSetting::Moderator.get(cfg) == cfg.moderator_role);
    assert(RoleSetting::Member.get(cfg) == cfg.member_role);
    assert(RoleSetting::DuesExpired.get(cfg) == cfg.dues_expired_role);
    assert(RoleSetting::DuesExpiring.get(cfg) == cfg.dues_expiring_role);
    assert(RoleSetting::Unverified.get(cfg) == cfg.unverified_role);
    assert(RoleSetting::ManualOverride.get(cfg) == cfg.manual_override_role);
}

/// A posted message is remembered where it was posted, and goes live only once saved.
pub proof fn law_a_reference_goes_live_once_saved(
    cfg: &GuildConfig,
    which: PostedMessage,
    at: MessageRef,
    next: GuildConfig,
    saved: bool,
    live: Option<GuildConfig>,
)
    requires
        call_ensures(save_message_ref, (cfg, which, at), next),
        call_ensures(settle_message_ref, (next, saved), live),
    ensures
        which == PostedMessage::Prompt ==> next@ == (GuildConfigView {
            unverified_prompt: Some(at),
            ..cfg@
        }),
        which == PostedMessage::Banner ==> next@ == (GuildConfigView {
            dues_banner: Some(at),
            ..cfg@
        }),
        live is Some <==> saved,
        (live matches Some(now) ==> now == next),
{
}

} // verus!
