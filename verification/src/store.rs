//! Plain records the decisions read: guild configuration, bulk-verify sessions and
//! member records.

use vstd::prelude::*;

use crate::ids::{
    DiscordChannelId, DiscordGuildId, DiscordMessageId, DiscordRoleId, DiscordUserId,
};
use crate::dates::Date;
use crate::ids::{DiscordHandle, Email, StUserId};
use crate::migs_status::MigsStatus;
use crate::role::Role;
use crate::ui::clone_opt;

#[allow(unused_imports)]
use crate::ui::opt_view;

verus! {

/// Which members a bulk run sweeps.
#[derive(Debug, Clone, Copy, PartialEq, Eq, Structural)]
pub enum BulkScope {
    UnmanagedOnly,
    WholeGuild,
}

/// How many queued members are in each review state.
#[derive(Debug, Clone, Copy, PartialEq, Eq, Structural)]
pub struct MissCounts {
    pub pending: u32,
    pub verified: u32,
    pub skipped: u32,
}

/// What a bulk run would change.
#[derive(Debug, Clone, PartialEq, Eq)]
pub struct PreviewTally {
    pub scanned: usize,
    pub matched: Vec<(Role, usize)>,
    pub unchanged: usize,
    pub misses: usize,
    pub conflicts: usize,
}

/// Where a bulk session stands.
#[derive(Debug, Clone, Copy, PartialEq, Eq, Structural)]
pub enum BulkStatus {
    InProgress,
    Complete,
    Abandoned,
}

/// A persisted bulk session. Times are microseconds since the Unix epoch.
#[derive(Debug, Clone, Copy, PartialEq, Eq, Structural)]
pub struct BulkSession {
    pub guild: DiscordGuildId,
    pub scope: BulkScope,
    pub status: BulkStatus,
    pub started_by: DiscordUserId,
    pub created_at: i64,
    pub updated_at: i64,
}

/// The review state of one queued member.
#[derive(Debug, Clone, Copy, PartialEq, Eq, Structural)]
pub enum MissState {
    Pending,
    Verified,
    Skipped,
}

/// One unmatched member waiting for review.
#[derive(Debug, Clone, PartialEq, Eq)]
pub struct BulkMiss {
    pub discord_user_id: DiscordUserId,
    pub handle: Option<String>,
    pub position: u64,
    pub state: MissState,
}

/// A [`BulkMiss`] over characters.
pub struct BulkMissView {
    pub discord_user_id: DiscordUserId,
    pub handle: Option<Seq<char>>,
    pub position: u64,
    pub state: MissState,
}

impl View for BulkMiss {
    type V = BulkMissView;

    open spec fn view(&self) -> BulkMissView {
        BulkMissView {
            discord_user_id: self.discord_user_id,
            handle: opt_view(self.handle),
            position: self.position,
            state: self.state,
        }
    }
}

/// Where a standing message was posted.
#[derive(Debug, Clone, Copy, PartialEq, Eq, Structural)]
pub struct MessageRef {
    pub channel: DiscordChannelId,
    pub message: DiscordMessageId,
}

/// Everything a server manager configures for the guild.
#[derive(Debug, Clone, PartialEq, Eq)]
pub struct GuildConfig {
    pub moderator_role: Option<DiscordRoleId>,
    pub member_role: Option<DiscordRoleId>,
    pub dues_expired_role: Option<DiscordRoleId>,
    pub dues_expiring_role: Option<DiscordRoleId>,
    pub unverified_role: Option<DiscordRoleId>,
    pub manual_override_role: Option<DiscordRoleId>,
    pub mod_approval_channel: Option<DiscordChannelId>,
    pub unverified_channel: Option<DiscordChannelId>,
    pub verification_log_channel: Option<DiscordChannelId>,
    pub dues_expired_channel: Option<DiscordChannelId>,
    pub dues_reminder_channel: Option<DiscordChannelId>,
    pub scan_enabled: bool,
    pub reminders_enabled: bool,
    pub sso_enabled: bool,
    pub unverified_prompt: Option<MessageRef>,
    pub dues_banner: Option<MessageRef>,
    pub dues_signup_url: Option<String>,
}

/// A [`GuildConfig`] over characters.
#[verifier::ext_equal]
pub struct GuildConfigView {
    pub moderator_role: Option<DiscordRoleId>,
    pub member_role: Option<DiscordRoleId>,
    pub dues_expired_role: Option<DiscordRoleId>,
    pub dues_expiring_role: Option<DiscordRoleId>,
    pub unverified_role: Option<DiscordRoleId>,
    pub manual_override_role: Option<DiscordRoleId>,
    pub mod_approval_channel: Option<DiscordChannelId>,
    pub unverified_channel: Option<DiscordChannelId>,
    pub verification_log_channel: Option<DiscordChannelId>,
    pub dues_expired_channel: Option<DiscordChannelId>,
    pub dues_reminder_channel: Option<DiscordChannelId>,
    pub scan_enabled: bool,
    pub reminders_enabled: bool,
    pub sso_enabled: bool,
    pub unverified_prompt: Option<MessageRef>,
    pub dues_banner: Option<MessageRef>,
    pub dues_signup_url: Option<Seq<char>>,
}

impl View for GuildConfig {
    type V = GuildConfigView;

    open spec fn view(&self) -> GuildConfigView {
        GuildConfigView {
            moderator_role: self.moderator_role,
            member_role: self.member_role,
            dues_expired_role: self.dues_expired_role,
            dues_expiring_role: self.dues_expiring_role,
            unverified_role: self.unverified_role,
            manual_override_role: self.manual_override_role,
            mod_approval_channel: self.mod_approval_channel,
            unverified_channel: self.unverified_channel,
            verification_log_channel: self.verification_log_channel,
            dues_expired_channel: self.dues_expired_channel,
            dues_reminder_channel: self.dues_reminder_channel,
            scan_enabled: self.scan_enabled,
            reminders_enabled: self.reminders_enabled,
            sso_enabled: self.sso_enabled,
            unverified_prompt: self.unverified_prompt,
            dues_banner: self.dues_banner,
            dues_signup_url: opt_view(self.dues_signup_url),
        }
    }
}

impl GuildConfigView {
    /// Nothing configured, everything off.
    pub open spec fn unset() -> GuildConfigView {
        GuildConfigView {
            moderator_role: None,
            member_role: None,
            dues_expired_role: None,
            dues_expiring_role: None,
            unverified_role: None,
            manual_override_role: None,
            mod_approval_channel: None,
            unverified_channel: None,
            verification_log_channel: None,
            dues_expired_channel: None,
            dues_reminder_channel: None,
            scan_enabled: false,
            reminders_enabled: false,
            sso_enabled: false,
            unverified_prompt: None,
            dues_banner: None,
            dues_signup_url: None,
        }
    }
}

impl Default for GuildConfig {
    fn default() -> (r: GuildConfig)
        ensures
            r@ == GuildConfigView::unset(),
    {
        GuildConfig {
            moderator_role: None,
            member_role: None,
            dues_expired_role: None,
            dues_expiring_role: None,
            unverified_role: None,
            manual_override_role: None,
            mod_approval_channel: None,
            unverified_channel: None,
            verification_log_channel: None,
            dues_expired_channel: None,
            dues_reminder_channel: None,
            scan_enabled: false,
            reminders_enabled: false,
            sso_enabled: false,
            unverified_prompt: None,
            dues_banner: None,
            dues_signup_url: None,
        }
    }
}

impl GuildConfig {
    /// A copy that holds the same.
    pub fn copy(&self) -> (r: GuildConfig)
        ensures
            r@ == self@,
    {
        GuildConfig {
            moderator_role: self.moderator_role,
            member_role: self.member_role,
            dues_expired_role: self.dues_expired_role,
            dues_expiring_role: self.dues_expiring_role,
            unverified_role: self.unverified_role,
            manual_override_role: self.manual_override_role,
            mod_approval_channel: self.mod_approval_channel,
            unverified_channel: self.unverified_channel,
            verification_log_channel: self.verification_log_channel,
            dues_expired_channel: self.dues_expired_channel,
            dues_reminder_channel: self.dues_reminder_channel,
            scan_enabled: self.scan_enabled,
            reminders_enabled: self.reminders_enabled,
            sso_enabled: self.sso_enabled,
            unverified_prompt: self.unverified_prompt,
            dues_banner: self.dues_banner,
            dues_signup_url: clone_opt(&self.dues_signup_url),
        }
    }
}

/// Which editable message a template belongs to.
#[derive(Debug, Clone, Copy, PartialEq, Eq, Structural)]
pub enum MessageKind {
    Monthly,
    Yearly,
    OneTime,
    IncomeBased,
    Unverified,
    DuesBanner,
}

/// How a member pays dues.
#[derive(Debug, Clone, Copy, PartialEq, Eq, Structural)]
pub enum MembershipType {
    Monthly,
    Yearly,
    OneTime,
    IncomeBased,
}

/// Which reminder text applies.
#[derive(Debug, Clone, Copy, PartialEq, Eq, Structural)]
pub enum ReminderTemplateKind {
    Monthly,
    Yearly,
    OneTime,
    IncomeBased,
    Expired,
}

/// How far ahead of a lapse a reminder is sent.
#[derive(Debug, Clone, Copy, PartialEq, Eq, Structural)]
pub enum Milestone {
    Days30,
    Days14,
    Day1,
    Expired,
}

/// The days a milestone leads the lapse by; none once lapsed.
pub open spec fn lead(milestone: Milestone) -> Option<i64> {
    match milestone {
        Milestone::Days30 => Some(30),
        Milestone::Days14 => Some(14),
        Milestone::Day1 => Some(1),
        Milestone::Expired => None,
    }
}

/// The template a way of paying selects.
pub open spec fn template_of(t: MembershipType) -> ReminderTemplateKind {
    match t {
        MembershipType::Monthly => ReminderTemplateKind::Monthly,
        MembershipType::Yearly => ReminderTemplateKind::Yearly,
        MembershipType::OneTime => ReminderTemplateKind::OneTime,
        MembershipType::IncomeBased => ReminderTemplateKind::IncomeBased,
    }
}

impl Milestone {
    /// The days a milestone leads the lapse by; none once lapsed.
    pub fn lead_days(self) -> (r: Option<i64>)
        ensures
            r == lead(self),
    {
        match self {
            Milestone::Days30 => Some(30),
            Milestone::Days14 => Some(14),
            Milestone::Day1 => Some(1),
            Milestone::Expired => None,
        }
    }
}

impl ReminderTemplateKind {
    /// The template a way of paying selects.
    pub fn from_membership_type(t: MembershipType) -> (r: ReminderTemplateKind)
        ensures
            r == template_of(t),
    {
        match t {
            MembershipType::Monthly => ReminderTemplateKind::Monthly,
            MembershipType::Yearly => ReminderTemplateKind::Yearly,
            MembershipType::OneTime => ReminderTemplateKind::OneTime,
            MembershipType::IncomeBased => ReminderTemplateKind::IncomeBased,
        }
    }
}

/// What the source holds about a member.
#[derive(Debug, Clone, PartialEq, Eq)]
pub struct MemberRecord {
    pub st_user_id: StUserId,
    pub discord_user_id: Option<DiscordUserId>,
    pub discord_handle: Option<DiscordHandle>,
    pub email: Email,
    pub full_name: Option<String>,
    pub standing: Option<MigsStatus>,
    pub join_date: Option<Date>,
    pub expires: Option<Date>,
    pub membership_type: Option<MembershipType>,
    pub monthly_dues: Option<String>,
    pub yearly_dues: Option<String>,
}

/// The role a standing earns; an unknown one earns none but Unverified.
pub open spec fn standing_role(standing: Option<MigsStatus>) -> Role {
    match standing {
        Some(MigsStatus::MemberInGoodStanding) => Role::Member,
        Some(MigsStatus::Lapsed) => Role::DuesExpired,
        None => Role::Unverified,
    }
}

impl MemberRecord {
    /// The role the member's standing earns.
    pub fn role(&self) -> (r: Role)
        ensures
            r == standing_role(self.standing),
    {
        match self.standing {
            Some(MigsStatus::MemberInGoodStanding) => Role::Member,
            Some(MigsStatus::Lapsed) => Role::DuesExpired,
            None => Role::Unverified,
        }
    }
}

/// The stamp of a hand approval.
#[derive(Debug, Clone, PartialEq, Eq)]
pub struct OverrideRecord {
    pub approved_by: DiscordUserId,
    pub approved_on: Date,
    pub note: Option<String>,
}

/// Each way of paying selects its own template, none of them the lapsed one, and no two the
/// same.
pub proof fn law_each_way_of_paying_has_its_template(a: MembershipType, b: MembershipType)
    ensures
        template_of(MembershipType::Monthly) == ReminderTemplateKind::Monthly,
        template_of(MembershipType::Yearly) == ReminderTemplateKind::Yearly,
        template_of(MembershipType::OneTime) == ReminderTemplateKind::OneTime,
        template_of(MembershipType::IncomeBased) == ReminderTemplateKind::IncomeBased,
        template_of(a) != ReminderTemplateKind::Expired,
        a != b ==> template_of(a) != template_of(b),
{
}

/// Milestones lead the lapse by the days in their names, and the lapse itself by none.
pub proof fn law_milestones_lead_by_their_days(m: Milestone)
    ensures
        lead(Milestone::Days30) == Some(30i64),
        lead(Milestone::Days14) == Some(14i64),
        lead(Milestone::Day1) == Some(1i64),
        lead(m) is None <==> m == Milestone::Expired,
{
}

/// Good standing earns Member, a lapse Dues Expired, and no known standing Unverified.
pub proof fn law_standing_earns_its_role(standing: Option<MigsStatus>)
    ensures
        standing_role(standing) == Role::Member <==> standing == Some(
            MigsStatus::MemberInGoodStanding,
        ),
        standing_role(standing) == Role::DuesExpired <==> standing == Some(MigsStatus::Lapsed),
        standing_role(standing) == Role::Unverified <==> standing is None,
{
}

/// Before anything is configured, nothing is set and nothing is switched on.
pub proof fn law_nothing_is_on_by_default()
    ensures
        ({
            let c = GuildConfigView::unset();
            &&& c.moderator_role is None && c.member_role is None && c.dues_expired_role is None
                && c.dues_expiring_role is None && c.unverified_role is None
                && c.manual_override_role is None
            &&& c.mod_approval_channel is None && c.unverified_channel is None
                && c.verification_log_channel is None && c.dues_expired_channel is None
                && c.dues_reminder_channel is None
            &&& !c.scan_enabled && !c.reminders_enabled && !c.sso_enabled
            &&& c.unverified_prompt is None && c.dues_banner is None && c.dues_signup_url is None
        }),
{
}

} // verus!
