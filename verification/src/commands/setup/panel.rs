//! The command entry, the routing of every control, and the panel it redraws.

use vstd::prelude::*;

use crate::commands::replies::MANAGERS_ONLY;
use crate::commands::setup::ids::{
    BACK_ID, DUES_CHAN_ID, DUES_EXPIRING_ROLE_ID, DUES_ROLE_ID, DUES_URL_BUTTON_ID, EDIT_BANNER_ID,
    EDIT_INCOME_ID, EDIT_MONTHLY_ID, EDIT_ONETIME_ID, EDIT_PROMPT_ID, EDIT_YEARLY_ID,
    MEMBER_ROLE_ID, MOD_CHAN_ID, MOD_ROLE_ID, NAV_DUES_ID, NAV_MEMBERSHIP_ID, NAV_MODERATION_ID,
    NAV_VERIFICATION_ID, OVERRIDE_ROLE_ID, POST_BANNER_ID, POST_PROMPT_ID, REMINDERS_TOGGLE_ID,
    SCAN_TOGGLE_ID, SSO_DISABLE_CANCEL_ID, SSO_DISABLE_CONFIRM_ID, SSO_TOGGLE_ID,
    UNVERIFIED_CHAN_ID, UNVERIFIED_ROLE_ID, VERIFY_LOG_CHAN_ID,
};
use crate::commands::setup::pages::{page_components, page_embeds, Page};
use crate::store::{GuildConfig, MessageKind};
use crate::text::same;
use crate::ui::{Embed, Row};

#[allow(unused_imports)]
use crate::commands::setup::pages::{
    dues_rows, landing_rows, membership_rows, moderation_rows, page_embed_views, page_rows,
    verification_rows,
};
#[allow(unused_imports)]
use crate::store::GuildConfigView;
#[allow(unused_imports)]
use crate::ui::{opt_str_view, opt_view, row_views, ButtonView, EmbedView, RowView};

verus! {

/// The Manage Server permission bit.
pub const MANAGE_GUILD: u64 = 0x20;

/// Whether the invoker actually holds Manage Server. Hiding the command in the client is
/// only a hint; this is the enforced gate. An invoker whose permissions are unknown does
/// not pass.
pub fn invoker_can_configure(permissions: Option<u64>) -> (r: bool)
    ensures
        r == (permissions matches Some(bits) && bits & MANAGE_GUILD == MANAGE_GUILD),
{
    match permissions {
        Some(bits) => bits & MANAGE_GUILD == MANAGE_GUILD,
        None => false,
    }
}

/// What a control of the panel does.
#[derive(Debug, Clone, Copy, PartialEq, Eq, Structural)]
pub enum Route {
    /// Show this page.
    Navigate(Page),
    ToggleScan,
    ToggleReminders,
    ToggleSso,
    DisableSso,
    /// Apply the selection and redraw this page.
    Select(Page),
    PostPrompt,
    PostBanner,
    Edit(MessageKind),
    SetDuesUrl,
    /// Not one of ours.
    Unknown,
}

/// What the control with this id does.
pub open spec fn route_of(id: Seq<char>) -> Route {
    if id == NAV_VERIFICATION_ID@ {
        Route::Navigate(Page::Verification)
    } else if id == NAV_MEMBERSHIP_ID@ {
        Route::Navigate(Page::Membership)
    } else if id == NAV_DUES_ID@ {
        Route::Navigate(Page::Dues)
    } else if id == NAV_MODERATION_ID@ || id == SSO_DISABLE_CANCEL_ID@ {
        Route::Navigate(Page::Moderation)
    } else if id == BACK_ID@ {
        Route::Navigate(Page::Landing)
    } else if id == SCAN_TOGGLE_ID@ {
        Route::ToggleScan
    } else if id == REMINDERS_TOGGLE_ID@ {
        Route::ToggleReminders
    } else if id == SSO_TOGGLE_ID@ {
        Route::ToggleSso
    } else if id == SSO_DISABLE_CONFIRM_ID@ {
        Route::DisableSso
    } else if id == MEMBER_ROLE_ID@ || id == DUES_ROLE_ID@ || id == DUES_EXPIRING_ROLE_ID@ || id
        == OVERRIDE_ROLE_ID@ {
        Route::Select(Page::Membership)
    } else if id == MOD_ROLE_ID@ {
        Route::Select(Page::Moderation)
    } else if id == UNVERIFIED_ROLE_ID@ || id == MOD_CHAN_ID@ || id == UNVERIFIED_CHAN_ID@ || id
        == VERIFY_LOG_CHAN_ID@ {
        Route::Select(Page::Verification)
    } else if id == DUES_CHAN_ID@ {
        Route::Select(Page::Dues)
    } else if id == POST_PROMPT_ID@ {
        Route::PostPrompt
    } else if id == POST_BANNER_ID@ {
        Route::PostBanner
    } else if id == EDIT_MONTHLY_ID@ {
        Route::Edit(MessageKind::Monthly)
    } else if id == EDIT_YEARLY_ID@ {
        Route::Edit(MessageKind::Yearly)
    } else if id == EDIT_ONETIME_ID@ {
        Route::Edit(MessageKind::OneTime)
    } else if id == EDIT_INCOME_ID@ {
        Route::Edit(MessageKind::IncomeBased)
    } else if id == EDIT_BANNER_ID@ {
        Route::Edit(MessageKind::DuesBanner)
    } else if id == EDIT_PROMPT_ID@ {
        Route::Edit(MessageKind::Unverified)
    } else if id == DUES_URL_BUTTON_ID@ {
        Route::SetDuesUrl
    } else {
        Route::Unknown
    }
}

/// Route one press or selection.
pub fn route(id: &str) -> (r: Route)
    ensures
        r == route_of(id@),
{
    if same(id, NAV_VERIFICATION_ID) {
        Route::Navigate(Page::Verification)
    } else if same(id, NAV_MEMBERSHIP_ID) {
        Route::Navigate(Page::Membership)
    } else if same(id, NAV_DUES_ID) {
        Route::Navigate(Page::Dues)
    } else if same(id, NAV_MODERATION_ID) || same(id, SSO_DISABLE_CANCEL_ID) {
        Route::Navigate(Page::Moderation)
    } else if same(id, BACK_ID) {
        Route::Navigate(Page::Landing)
    } else if same(id, SCAN_TOGGLE_ID) {
        Route::ToggleScan
    } else if same(id, REMINDERS_TOGGLE_ID) {
        Route::ToggleReminders
    } else if same(id, SSO_TOGGLE_ID) {
        Route::ToggleSso
    } else if same(id, SSO_DISABLE_CONFIRM_ID) {
        Route::DisableSso
    } else if same(id, MEMBER_ROLE_ID) || same(id, DUES_ROLE_ID) || same(id, DUES_EXPIRING_ROLE_ID)
        || same(id, OVERRIDE_ROLE_ID) {
        Route::Select(Page::Membership)
    } else if same(id, MOD_ROLE_ID) {
        Route::Select(Page::Moderation)
    } else if same(id, UNVERIFIED_ROLE_ID) || same(id, MOD_CHAN_ID) || same(id, UNVERIFIED_CHAN_ID)
        || same(id, VERIFY_LOG_CHAN_ID) {
        Route::Select(Page::Verification)
    } else if same(id, DUES_CHAN_ID) {
        Route::Select(Page::Dues)
    } else if same(id, POST_PROMPT_ID) {
        Route::PostPrompt
    } else if same(id, POST_BANNER_ID) {
        Route::PostBanner
    } else if same(id, EDIT_MONTHLY_ID) {
        Route::Edit(MessageKind::Monthly)
    } else if same(id, EDIT_YEARLY_ID) {
        Route::Edit(MessageKind::Yearly)
    } else if same(id, EDIT_ONETIME_ID) {
        Route::Edit(MessageKind::OneTime)
    } else if same(id, EDIT_INCOME_ID) {
        Route::Edit(MessageKind::IncomeBased)
    } else if same(id, EDIT_BANNER_ID) {
        Route::Edit(MessageKind::DuesBanner)
    } else if same(id, EDIT_PROMPT_ID) {
        Route::Edit(MessageKind::Unverified)
    } else if same(id, DUES_URL_BUTTON_ID) {
        Route::SetDuesUrl
    } else {
        Route::Unknown
    }
}

/// The panel as shown.
#[derive(Debug, Clone, PartialEq, Eq)]
pub struct Panel {
    pub embeds: Vec<Embed>,
    pub rows: Vec<Row>,
    /// A line above the panel; absent leaves it as it was.
    pub note: Option<String>,
}

/// Draw a page against the current configuration.
pub fn redraw(
    page: Page,
    cfg: &GuildConfig,
    accent: u32,
    sso_deploy_enabled: bool,
    note: Option<&str>,
) -> (r: Panel)
    ensures
        r.embeds@.map_values(|e: Embed| e@) == page_embed_views(page, cfg@, accent),
        row_views(r.rows@) == page_rows(page, cfg@, sso_deploy_enabled),
        opt_view(r.note) == opt_str_view(note),
{
    let note = match note {
        Some(s) => Some(s.to_owned()),
        None => None,
    };
    Panel {
        embeds: page_embeds(page, cfg, accent),
        rows: page_components(page, cfg, sso_deploy_enabled),
        note,
    }
}

/// What just happened to a `/setup` invocation.
#[derive(Debug, Clone, PartialEq, Eq)]
pub enum SetupEvent {
    /// It was invoked, by someone with these permissions.
    Invoked(Option<u64>),
    /// A control of the panel was used.
    Used(String),
    /// The panel sat idle past its window, or its stream ended.
    Closed,
}

/// What `/setup` does next.
#[derive(Debug, Clone, PartialEq, Eq)]
pub enum SetupAction {
    /// Say this, privately, and stop.
    Refuse(String),
    /// Show the landing page on a private message.
    Open(Panel),
    /// Do what the control stands for, then wait again.
    Do(Route),
    /// Stop.
    Close,
}

/// Decide a `/setup` invocation and every use of its panel. Server managers only; the
/// idle window restarts on every use.
pub fn setup(cfg: &GuildConfig, accent: u32, sso_deploy_enabled: bool, event: &SetupEvent) -> (r:
    SetupAction)
    ensures
        (match event {
            SetupEvent::Invoked(permissions) => if permissions matches Some(bits) && bits
                & MANAGE_GUILD == MANAGE_GUILD {
                r matches SetupAction::Open(panel) && panel.embeds@.map_values(|e: Embed| e@)
                    == page_embed_views(Page::Landing, cfg@, accent) && row_views(panel.rows@)
                    == page_rows(Page::Landing, cfg@, sso_deploy_enabled) && panel.note is None
            } else {
                r matches SetupAction::Refuse(note) && note@ == MANAGERS_ONLY@
            },
            SetupEvent::Used(id) => r == SetupAction::Do(route_of(id@)),
            SetupEvent::Closed => r is Close,
        }),
{
    match event {
        SetupEvent::Invoked(permissions) => {
            if !invoker_can_configure(*permissions) {
                return SetupAction::Refuse(MANAGERS_ONLY.to_owned());
            }
            SetupAction::Open(redraw(Page::Landing, cfg, accent, sso_deploy_enabled, None))
        },
        SetupEvent::Used(id) => SetupAction::Do(route(id.as_str())),
        SetupEvent::Closed => SetupAction::Close,
    }
}

/// Every control of a page does something: a selection redraws the page it was made on,
/// and no button is dead.
pub proof fn law_every_control_is_routed(page: Page, cfg: GuildConfigView, sso_deploy_enabled: bool)
    ensures
        forall|i: int|
            #![trigger page_rows(page, cfg, sso_deploy_enabled)[i]]
            0 <= i < page_rows(page, cfg, sso_deploy_enabled).len() ==> routed(
                page,
                page_rows(page, cfg, sso_deploy_enabled)[i],
            ),
{
    lemma_routes();
    let rows = page_rows(page, cfg, sso_deploy_enabled);
    assert forall|i: int| #![trigger rows[i]] 0 <= i < rows.len() implies routed(page, rows[i]) by {
        if let RowView::Buttons(bs) = rows[i] {
            assert forall|j: int| 0 <= j < bs.len() implies button_routed(#[trigger] bs[j]) by {
            }
        }
    }
}

/// Whether a button does something.
pub open spec fn button_routed(b: ButtonView) -> bool {
    b matches ButtonView::Press { id, label, style, disabled } ==> route_of(id) != Route::Unknown
}

/// Whether a row's controls do something, and its selection stays on `page`.
pub open spec fn routed(page: Page, row: RowView) -> bool {
    match row {
        RowView::Buttons(bs) => forall|j: int| 0 <= j < bs.len() ==> button_routed(#[trigger] bs[j]),
        RowView::RoleSelect { id, .. } => route_of(id) == Route::Select(page),
        RowView::ChannelSelect { id, .. } => route_of(id) == Route::Select(page),
        RowView::Choices { .. } => false,
    }
}

proof fn lemma_routes()
    ensures
        route_of(NAV_VERIFICATION_ID@) == Route::Navigate(Page::Verification),
        route_of(NAV_MEMBERSHIP_ID@) == Route::Navigate(Page::Membership),
        route_of(NAV_DUES_ID@) == Route::Navigate(Page::Dues),
        route_of(NAV_MODERATION_ID@) == Route::Navigate(Page::Moderation),
        route_of(BACK_ID@) == Route::Navigate(Page::Landing),
        route_of(SCAN_TOGGLE_ID@) == Route::ToggleScan,
        route_of(REMINDERS_TOGGLE_ID@) == Route::ToggleReminders,
        route_of(SSO_TOGGLE_ID@) == Route::ToggleSso,
        route_of(MEMBER_ROLE_ID@) == Route::Select(Page::Membership),
        route_of(DUES_ROLE_ID@) == Route::Select(Page::Membership),
        route_of(DUES_EXPIRING_ROLE_ID@) == Route::Select(Page::Membership),
        route_of(OVERRIDE_ROLE_ID@) == Route::Select(Page::Membership),
        route_of(MOD_ROLE_ID@) == Route::Select(Page::Moderation),
        route_of(UNVERIFIED_ROLE_ID@) == Route::Select(Page::Verification),
        route_of(MOD_CHAN_ID@) == Route::Select(Page::Verification),
        route_of(UNVERIFIED_CHAN_ID@) == Route::Select(Page::Verification),
        route_of(VERIFY_LOG_CHAN_ID@) == Route::Select(Page::Verification),
        route_of(DUES_CHAN_ID@) == Route::Select(Page::Dues),
        route_of(POST_PROMPT_ID@) == Route::PostPrompt,
        route_of(POST_BANNER_ID@) == Route::PostBanner,
        route_of(EDIT_MONTHLY_ID@) == Route::Edit(MessageKind::Monthly),
        route_of(EDIT_YEARLY_ID@) == Route::Edit(MessageKind::Yearly),
        route_of(EDIT_ONETIME_ID@) == Route::Edit(MessageKind::OneTime),
        route_of(EDIT_INCOME_ID@) == Route::Edit(MessageKind::IncomeBased),
        route_of(EDIT_BANNER_ID@) == Route::Edit(MessageKind::DuesBanner),
        route_of(EDIT_PROMPT_ID@) == Route::Edit(MessageKind::Unverified),
        route_of(DUES_URL_BUTTON_ID@) == Route::SetDuesUrl,
{
    reveal_strlit("setup_nav_verification");
    assert(NAV_VERIFICATION_ID@.len() == 22);
    reveal_strlit("setup_nav_membership");
    assert(NAV_MEMBERSHIP_ID@.len() == 20);
    reveal_strlit("setup_nav_dues");
    assert(NAV_DUES_ID@.len() == 14);
    reveal_strlit("setup_nav_moderation");
    assert(NAV_MODERATION_ID@.len() == 20);
    reveal_strlit("setup_sso_disable_cancel");
    assert(SSO_DISABLE_CANCEL_ID@.len() == 24);
    reveal_strlit("setup_back");
    assert(BACK_ID@.len() == 10);
    reveal_strlit("setup_scan_toggle");
    assert(SCAN_TOGGLE_ID@.len() == 17);
    reveal_strlit("setup_reminders_toggle");
    assert(REMINDERS_TOGGLE_ID@.len() == 22);
    reveal_strlit("setup_sso_toggle");
    assert(SSO_TOGGLE_ID@.len() == 16);
    reveal_strlit("setup_sso_disable_confirm");
    assert(SSO_DISABLE_CONFIRM_ID@.len() == 25);
    reveal_strlit("setup_role_member");
    assert(MEMBER_ROLE_ID@.len() == 17);
    reveal_strlit("setup_role_dues_expired");
    assert(DUES_ROLE_ID@.len() == 23);
    reveal_strlit("setup_role_dues_expiring");
    assert(DUES_EXPIRING_ROLE_ID@.len() == 24);
    reveal_strlit("setup_role_manual_override");
    assert(OVERRIDE_ROLE_ID@.len() == 26);
    reveal_strlit("setup_role_moderator");
    assert(MOD_ROLE_ID@.len() == 20);
    reveal_strlit("setup_role_unverified");
    assert(UNVERIFIED_ROLE_ID@.len() == 21);
    reveal_strlit("setup_chan_mod_approval");
    assert(MOD_CHAN_ID@.len() == 23);
    reveal_strlit("setup_chan_unverified");
    assert(UNVERIFIED_CHAN_ID@.len() == 21);
    reveal_strlit("setup_chan_verify_log");
    assert(VERIFY_LOG_CHAN_ID@.len() == 21);
    reveal_strlit("setup_chan_dues_expired");
    assert(DUES_CHAN_ID@.len() == 23);
    reveal_strlit("setup_post_prompt");
    assert(POST_PROMPT_ID@.len() == 17);
    reveal_strlit("setup_post_banner");
    assert(POST_BANNER_ID@.len() == 17);
    reveal_strlit("setup_edit_monthly");
    assert(EDIT_MONTHLY_ID@.len() == 18);
    reveal_strlit("setup_edit_yearly");
    assert(EDIT_YEARLY_ID@.len() == 17);
    reveal_strlit("setup_edit_onetime");
    assert(EDIT_ONETIME_ID@.len() == 18);
    reveal_strlit("setup_edit_income");
    assert(EDIT_INCOME_ID@.len() == 17);
    reveal_strlit("setup_edit_banner");
    assert(EDIT_BANNER_ID@.len() == 17);
    reveal_strlit("setup_edit_prompt");
    assert(EDIT_PROMPT_ID@.len() == 17);
    reveal_strlit("setup_dues_url_button");
    assert(DUES_URL_BUTTON_ID@.len() == 21);
    assert(NAV_MODERATION_ID@[11] != NAV_MEMBERSHIP_ID@[11]);
    assert(REMINDERS_TOGGLE_ID@[6] != NAV_VERIFICATION_ID@[6]);
    assert(MEMBER_ROLE_ID@[6] != SCAN_TOGGLE_ID@[6]);
    assert(DUES_EXPIRING_ROLE_ID@[6] != SSO_DISABLE_CANCEL_ID@[6]);
    assert(MOD_ROLE_ID@[6] != NAV_MEMBERSHIP_ID@[6]);
    assert(MOD_ROLE_ID@[6] != NAV_MODERATION_ID@[6]);
    assert(MOD_CHAN_ID@[6] != DUES_ROLE_ID@[6]);
    assert(UNVERIFIED_CHAN_ID@[6] != UNVERIFIED_ROLE_ID@[6]);
    assert(VERIFY_LOG_CHAN_ID@[6] != UNVERIFIED_ROLE_ID@[6]);
    assert(VERIFY_LOG_CHAN_ID@[11] != UNVERIFIED_CHAN_ID@[11]);
    assert(DUES_CHAN_ID@[6] != DUES_ROLE_ID@[6]);
    assert(DUES_CHAN_ID@[11] != MOD_CHAN_ID@[11]);
    assert(POST_PROMPT_ID@[6] != SCAN_TOGGLE_ID@[6]);
    assert(POST_PROMPT_ID@[6] != MEMBER_ROLE_ID@[6]);
    assert(POST_BANNER_ID@[6] != SCAN_TOGGLE_ID@[6]);
    assert(POST_BANNER_ID@[6] != MEMBER_ROLE_ID@[6]);
    assert(POST_BANNER_ID@[11] != POST_PROMPT_ID@[11]);
    assert(EDIT_YEARLY_ID@[6] != SCAN_TOGGLE_ID@[6]);
    assert(EDIT_YEARLY_ID@[6] != MEMBER_ROLE_ID@[6]);
    assert(EDIT_YEARLY_ID@[6] != POST_PROMPT_ID@[6]);
    assert(EDIT_YEARLY_ID@[6] != POST_BANNER_ID@[6]);
    assert(EDIT_ONETIME_ID@[11] != EDIT_MONTHLY_ID@[11]);
    assert(EDIT_INCOME_ID@[6] != SCAN_TOGGLE_ID@[6]);
    assert(EDIT_INCOME_ID@[6] != MEMBER_ROLE_ID@[6]);
    assert(EDIT_INCOME_ID@[6] != POST_PROMPT_ID@[6]);
    assert(EDIT_INCOME_ID@[6] != POST_BANNER_ID@[6]);
    assert(EDIT_INCOME_ID@[11] != EDIT_YEARLY_ID@[11]);
    assert(EDIT_BANNER_ID@[6] != SCAN_TOGGLE_ID@[6]);
    assert(EDIT_BANNER_ID@[6] != MEMBER_ROLE_ID@[6]);
    assert(EDIT_BANNER_ID@[6] != POST_PROMPT_ID@[6]);
    assert(EDIT_BANNER_ID@[6] != POST_BANNER_ID@[6]);
    assert(EDIT_BANNER_ID@[11] != EDIT_YEARLY_ID@[11]);
    assert(EDIT_BANNER_ID@[11] != EDIT_INCOME_ID@[11]);
    assert(EDIT_PROMPT_ID@[6] != SCAN_TOGGLE_ID@[6]);
    assert(EDIT_PROMPT_ID@[6] != MEMBER_ROLE_ID@[6]);
    assert(EDIT_PROMPT_ID@[6] != POST_PROMPT_ID@[6]);
    assert(EDIT_PROMPT_ID@[6] != POST_BANNER_ID@[6]);
    assert(EDIT_PROMPT_ID@[11] != EDIT_YEARLY_ID@[11]);
    assert(EDIT_PROMPT_ID@[11] != EDIT_INCOME_ID@[11]);
    assert(EDIT_PROMPT_ID@[11] != EDIT_BANNER_ID@[11]);
    assert(DUES_URL_BUTTON_ID@[6] != UNVERIFIED_ROLE_ID@[6]);
    assert(DUES_URL_BUTTON_ID@[6] != UNVERIFIED_CHAN_ID@[6]);
    assert(DUES_URL_BUTTON_ID@[6] != VERIFY_LOG_CHAN_ID@[6]);
}

/// The panel opens for someone who may manage the server, on its landing page with nothing
/// above it, and for no one else; a control does what it stands for, and silence closes it.
pub proof fn law_the_panel_is_for_managers(
    cfg: &GuildConfig,
    accent: u32,
    sso_deploy_enabled: bool,
    event: &SetupEvent,
    r: SetupAction,
)
    requires
        call_ensures(setup, (cfg, accent, sso_deploy_enabled, event), r),
    ensures
        (*event matches SetupEvent::Invoked(permissions) ==> (r is Open <==> permissions is Some
            && permissions->0 & 0x20u64 == 0x20u64) && (r is Open || (
        r matches SetupAction::Refuse(note) && note@ == MANAGERS_ONLY@)) && (
        r matches SetupAction::Open(panel) ==> row_views(panel.rows@) == landing_rows()
            && panel.note is None)),
        (*event matches SetupEvent::Used(id) ==> r == SetupAction::Do(route_of(id@))),
        *event is Closed ==> r is Close,
{
}

/// The controls do what their names say: the pages are reached, the switches flipped and the
/// messages edited and posted each by its own control, and a disabled sign-on is confirmed
/// or called off by its own.
pub proof fn law_controls_do_what_they_are_for()
    ensures
        route_of(NAV_VERIFICATION_ID@) == Route::Navigate(Page::Verification),
        route_of(NAV_MEMBERSHIP_ID@) == Route::Navigate(Page::Membership),
        route_of(NAV_DUES_ID@) == Route::Navigate(Page::Dues),
        route_of(NAV_MODERATION_ID@) == Route::Navigate(Page::Moderation),
        route_of(BACK_ID@) == Route::Navigate(Page::Landing),
        route_of(SCAN_TOGGLE_ID@) == Route::ToggleScan,
        route_of(REMINDERS_TOGGLE_ID@) == Route::ToggleReminders,
        route_of(SSO_TOGGLE_ID@) == Route::ToggleSso,
        route_of(SSO_DISABLE_CONFIRM_ID@) == Route::DisableSso,
        route_of(SSO_DISABLE_CANCEL_ID@) == Route::Navigate(Page::Moderation),
        route_of(POST_PROMPT_ID@) == Route::PostPrompt,
        route_of(POST_BANNER_ID@) == Route::PostBanner,
        route_of(EDIT_MONTHLY_ID@) == Route::Edit(MessageKind::Monthly),
        route_of(EDIT_YEARLY_ID@) == Route::Edit(MessageKind::Yearly),
        route_of(EDIT_ONETIME_ID@) == Route::Edit(MessageKind::OneTime),
        route_of(EDIT_INCOME_ID@) == Route::Edit(MessageKind::IncomeBased),
        route_of(EDIT_BANNER_ID@) == Route::Edit(MessageKind::DuesBanner),
        route_of(EDIT_PROMPT_ID@) == Route::Edit(MessageKind::Unverified),
        route_of(DUES_URL_BUTTON_ID@) == Route::SetDuesUrl,
{
    lemma_routes();
    reveal_strlit("setup_sso_disable_confirm");
    reveal_strlit("setup_sso_disable_cancel");
    reveal_strlit("setup_nav_verification");
    reveal_strlit("setup_nav_membership");
    reveal_strlit("setup_nav_dues");
    reveal_strlit("setup_nav_moderation");
    reveal_strlit("setup_back");
    reveal_strlit("setup_scan_toggle");
    reveal_strlit("setup_reminders_toggle");
    reveal_strlit("setup_sso_toggle");
    assert(SSO_DISABLE_CONFIRM_ID@.len() == 25 && SSO_DISABLE_CANCEL_ID@.len() == 24
        && NAV_VERIFICATION_ID@.len() == 22 && NAV_MEMBERSHIP_ID@.len() == 20 && NAV_DUES_ID@.len()
        == 14 && NAV_MODERATION_ID@.len() == 20 && BACK_ID@.len() == 10 && SCAN_TOGGLE_ID@.len()
        == 17 && REMINDERS_TOGGLE_ID@.len() == 22 && SSO_TOGGLE_ID@.len() == 16);
}

/// A redrawn panel is the page it was asked for, under the note it was given.
pub proof fn law_a_redraw_is_of_its_page(
    page: Page,
    cfg: &GuildConfig,
    accent: u32,
    sso_deploy_enabled: bool,
    note: Option<&str>,
    r: Panel,
)
    requires
        call_ensures(redraw, (page, cfg, accent, sso_deploy_enabled, note), r),
    ensures
        row_views(r.rows@) == page_rows(page, cfg@, sso_deploy_enabled),
        r.embeds@.map_values(|e: Embed| e@) == page_embed_views(page, cfg@, accent),
        note is None <==> r.note is None,
        note is Some ==> r.note->0@ == note->0@,
{
}

} // verus!
