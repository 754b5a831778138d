//! The per-page controls and the small builders they share.

use vstd::prelude::*;

use crate::commands::setup::ids::{
    BACK_ID, DUES_CHAN_ID, DUES_EXPIRING_ROLE_ID, DUES_ROLE_ID, DUES_URL_BUTTON_ID, EDIT_BANNER_ID,
    EDIT_INCOME_ID, EDIT_MONTHLY_ID, EDIT_ONETIME_ID, EDIT_PROMPT_ID, EDIT_YEARLY_ID,
    MEMBER_ROLE_ID, MOD_CHAN_ID, MOD_ROLE_ID, NAV_DUES_ID, NAV_MEMBERSHIP_ID, NAV_MODERATION_ID,
    NAV_VERIFICATION_ID, OVERRIDE_ROLE_ID, POST_BANNER_ID, POST_PROMPT_ID, REMINDERS_TOGGLE_ID,
    SCAN_TOGGLE_ID, SSO_DISABLE_CANCEL_ID, SSO_DISABLE_CONFIRM_ID, SSO_TOGGLE_ID,
    UNVERIFIED_CHAN_ID, UNVERIFIED_ROLE_ID, VERIFY_LOG_CHAN_ID,
};
use crate::ids::{DiscordChannelId, DiscordRoleId};
use crate::render::setup::config_embed;
use crate::store::GuildConfig;
use crate::ui::{press, row1, row2, row3, row4, Button, Embed, Row, Style};

#[allow(unused_imports)]
use crate::render::setup::config_view;
#[allow(unused_imports)]
use crate::store::GuildConfigView;
#[allow(unused_imports)]
use crate::ui::{press_view, row_views, ButtonView, EmbedView, RowView};

verus! {

/// Which page the panel shows.
#[derive(Debug, Clone, Copy, PartialEq, Eq, Structural)]
pub enum Page {
    Landing,
    Verification,
    Membership,
    Dues,
    Moderation,
}

/// A blurple button.
pub open spec fn primary(id: Seq<char>, label: Seq<char>) -> ButtonView {
    press_view(id, label, Style::Primary)
}

/// The grey Back button.
pub open spec fn back_view() -> ButtonView {
    press_view(BACK_ID@, "Back"@, Style::Secondary)
}

/// A toggle: green and ON, or grey and OFF.
pub open spec fn toggle_view(id: Seq<char>, label: Seq<char>, enabled: bool) -> ButtonView {
    if enabled {
        press_view(id, label + ": ON"@, Style::Success)
    } else {
        press_view(id, label + ": OFF"@, Style::Secondary)
    }
}

/// A role drop-down showing the current choice.
pub open spec fn role_row(
    id: Seq<char>,
    placeholder: Seq<char>,
    role: Option<DiscordRoleId>,
) -> RowView {
    RowView::RoleSelect { id, placeholder, role }
}

/// A text-channel drop-down showing the current choice.
pub open spec fn channel_row(
    id: Seq<char>,
    placeholder: Seq<char>,
    channel: Option<DiscordChannelId>,
) -> RowView {
    RowView::ChannelSelect { id, placeholder, channel }
}

/// The landing buttons: one row per pair of feature pages.
pub open spec fn landing_rows() -> Seq<RowView> {
    seq![
        RowView::Buttons(
            seq![
                primary(NAV_VERIFICATION_ID@, "Verification"@),
                primary(NAV_MEMBERSHIP_ID@, "Membership & access"@),
            ],
        ),
        RowView::Buttons(
            seq![
                primary(NAV_DUES_ID@, "Dues reminders"@),
                primary(NAV_MODERATION_ID@, "Moderation"@),
            ],
        ),
    ]
}

/// The verification page: the unverified role, the three verification channels, and the
/// prompt actions.
pub open spec fn verification_rows(cfg: GuildConfigView) -> Seq<RowView> {
    seq![
        role_row(UNVERIFIED_ROLE_ID@, "Unverified role"@, cfg.unverified_role),
        channel_row(
            UNVERIFIED_CHAN_ID@,
            "Unverified channel (the prompt is posted here)"@,
            cfg.unverified_channel,
        ),
        channel_row(MOD_CHAN_ID@, "Mod-approval channel"@, cfg.mod_approval_channel),
        channel_row(VERIFY_LOG_CHAN_ID@, "Verification-log channel"@, cfg.verification_log_channel),
        RowView::Buttons(
            seq![
                primary(EDIT_PROMPT_ID@, "Edit prompt message"@),
                primary(
                    POST_PROMPT_ID@,
                    if cfg.unverified_prompt is Some {
                        "Update prompt"@
                    } else {
                        "Post prompt"@
                    },
                ),
                back_view(),
            ],
        ),
    ]
}

/// The membership page: the four "who-is-what" roles.
pub open spec fn membership_rows(cfg: GuildConfigView) -> Seq<RowView> {
    seq![
        role_row(MEMBER_ROLE_ID@, "Member role"@, cfg.member_role),
        role_row(DUES_ROLE_ID@, "Dues Expired role"@, cfg.dues_expired_role),
        role_row(DUES_EXPIRING_ROLE_ID@, "Dues Expiring role"@, cfg.dues_expiring_role),
        role_row(OVERRIDE_ROLE_ID@, "Manual Override role"@, cfg.manual_override_role),
        RowView::Buttons(seq![back_view()]),
    ]
}

/// The dues page: the thread-parent channel, the message editors, the channel message and
/// its sign-up link, and the reminders toggle.
pub open spec fn dues_rows(cfg: GuildConfigView) -> Seq<RowView> {
    seq![
        channel_row(
            DUES_CHAN_ID@,
            "Dues-expired channel (visible to Member + Dues Expired)"@,
            cfg.dues_expired_channel,
        ),
        RowView::Buttons(
            seq![
                primary(EDIT_MONTHLY_ID@, "Monthly"@),
                primary(EDIT_YEARLY_ID@, "Yearly"@),
                primary(EDIT_ONETIME_ID@, "One-time"@),
                primary(EDIT_INCOME_ID@, "Income-based"@),
            ],
        ),
        RowView::Buttons(
            seq![
                primary(EDIT_BANNER_ID@, "Edit channel message"@),
                primary(
                    POST_BANNER_ID@,
                    if cfg.dues_banner is Some {
                        "Update message"@
                    } else {
                        "Post channel message"@
                    },
                ),
                press_view(DUES_URL_BUTTON_ID@, "Set sign-up URL"@, Style::Secondary),
            ],
        ),
        RowView::Buttons(
            seq![toggle_view(REMINDERS_TOGGLE_ID@, "Reminders"@, cfg.reminders_enabled)],
        ),
        RowView::Buttons(seq![back_view()]),
    ]
}

/// The moderation page: the moderator role and the feature toggles. The SSO toggle shows
/// only where the deployment enables SSO at all.
pub open spec fn moderation_rows(cfg: GuildConfigView, sso_deploy_enabled: bool) -> Seq<RowView> {
    let scan = toggle_view(SCAN_TOGGLE_ID@, "Automatic Membership Checks"@, cfg.scan_enabled);
    seq![
        role_row(MOD_ROLE_ID@, "Moderator role"@, cfg.moderator_role),
        RowView::Buttons(
            if sso_deploy_enabled {
                seq![scan, toggle_view(SSO_TOGGLE_ID@, "SSO"@, cfg.sso_enabled), back_view()]
            } else {
                seq![scan, back_view()]
            },
        ),
    ]
}

/// The controls of a page.
pub open spec fn page_rows(page: Page, cfg: GuildConfigView, sso_deploy_enabled: bool) -> Seq<
    RowView,
> {
    match page {
        Page::Landing => landing_rows(),
        Page::Verification => verification_rows(cfg),
        Page::Membership => membership_rows(cfg),
        Page::Dues => dues_rows(cfg),
        Page::Moderation => moderation_rows(cfg, sso_deploy_enabled),
    }
}

/// The embeds of a page: only the landing carries one, so moving into a feature page
/// clears it.
pub open spec fn page_embed_views(page: Page, cfg: GuildConfigView, accent: u32) -> Seq<EmbedView> {
    if page == Page::Landing {
        seq![config_view(cfg, accent)]
    } else {
        seq![]
    }
}

fn back_button() -> (r: Button)
    ensures
        r@ == back_view(),
{
    press(BACK_ID, "Back", Style::Secondary)
}

fn back_row() -> (r: Row)
    ensures
        r@ == RowView::Buttons(seq![back_view()]),
{
    row1(back_button())
}

fn toggle_button(id: &str, label: &str, enabled: bool) -> (r: Button)
    ensures
        r@ == toggle_view(id@, label@, enabled),
{
    if enabled {
        press(id, label.to_owned().concat(": ON").as_str(), Style::Success)
    } else {
        press(id, label.to_owned().concat(": OFF").as_str(), Style::Secondary)
    }
}

/// The publish button of a standing message: it reads as an update once the message has
/// been posted.
fn publish_button(id: &str, posted: bool, post_label: &str, update_label: &str) -> (r: Button)
    ensures
        r@ == primary(
            id@,
            if posted {
                update_label@
            } else {
                post_label@
            },
        ),
{
    if posted {
        press(id, update_label, Style::Primary)
    } else {
        press(id, post_label, Style::Primary)
    }
}

fn role_select(id: &str, placeholder: &str, role: Option<DiscordRoleId>) -> (r: Row)
    ensures
        r@ == role_row(id@, placeholder@, role),
{
    Row::RoleSelect { id: id.to_owned(), placeholder: placeholder.to_owned(), role }
}

fn channel_select(id: &str, placeholder: &str, channel: Option<DiscordChannelId>) -> (r: Row)
    ensures
        r@ == channel_row(id@, placeholder@, channel),
{
    Row::ChannelSelect { id: id.to_owned(), placeholder: placeholder.to_owned(), channel }
}

/// Build the landing view's buttons.
pub fn landing_page() -> (r: Vec<Row>)
    ensures
        row_views(r@) == landing_rows(),
{
    let r = vec![
        row2(
            press(NAV_VERIFICATION_ID, "Verification", Style::Primary),
            press(NAV_MEMBERSHIP_ID, "Membership & access", Style::Primary),
        ),
        row2(
            press(NAV_DUES_ID, "Dues reminders", Style::Primary),
            press(NAV_MODERATION_ID, "Moderation", Style::Primary),
        ),
    ];
    assert(row_views(r@) =~= landing_rows());
    r
}

/// Build the verification page.
pub fn verification_page(cfg: &GuildConfig) -> (r: Vec<Row>)
    ensures
        row_views(r@) == verification_rows(cfg@),
{
    let r = vec![
        role_select(UNVERIFIED_ROLE_ID, "Unverified role", cfg.unverified_role),
        channel_select(
            UNVERIFIED_CHAN_ID,
            "Unverified channel (the prompt is posted here)",
            cfg.unverified_channel,
        ),
        channel_select(MOD_CHAN_ID, "Mod-approval channel", cfg.mod_approval_channel),
        channel_select(VERIFY_LOG_CHAN_ID, "Verification-log channel", cfg.verification_log_channel),
        row3(
            press(EDIT_PROMPT_ID, "Edit prompt message", Style::Primary),
            publish_button(
                POST_PROMPT_ID,
                cfg.unverified_prompt.is_some(),
                "Post prompt",
                "Update prompt",
            ),
            back_button(),
        ),
    ];
    assert(row_views(r@) =~= verification_rows(cfg@));
    r
}

/// Build the membership page.
pub fn membership_page(cfg: &GuildConfig) -> (r: Vec<Row>)
    ensures
        row_views(r@) == membership_rows(cfg@),
{
    let r = vec![
        role_select(MEMBER_ROLE_ID, "Member role", cfg.member_role),
        role_select(DUES_ROLE_ID, "Dues Expired role", cfg.dues_expired_role),
        role_select(DUES_EXPIRING_ROLE_ID, "Dues Expiring role", cfg.dues_expiring_role),
        role_select(OVERRIDE_ROLE_ID, "Manual Override role", cfg.manual_override_role),
        back_row(),
    ];
    assert(row_views(r@) =~= membership_rows(cfg@));
    r
}

/// Build the dues page.
pub fn dues_page(cfg: &GuildConfig) -> (r: Vec<Row>)
    ensures
        row_views(r@) == dues_rows(cfg@),
{
    let r = vec![
        channel_select(
            DUES_CHAN_ID,
            "Dues-expired channel (visible to Member + Dues Expired)",
            cfg.dues_expired_channel,
        ),
        row4(
            press(EDIT_MONTHLY_ID, "Monthly", Style::Primary),
            press(EDIT_YEARLY_ID, "Yearly", Style::Primary),
            press(EDIT_ONETIME_ID, "One-time", Style::Primary),
            press(EDIT_INCOME_ID, "Income-based", Style::Primary),
        ),
        row3(
            press(EDIT_BANNER_ID, "Edit channel message", Style::Primary),
            publish_button(
                POST_BANNER_ID,
                cfg.dues_banner.is_some(),
                "Post channel message",
                "Update message",
            ),
            press(DUES_URL_BUTTON_ID, "Set sign-up URL", Style::Secondary),
        ),
        row1(toggle_button(REMINDERS_TOGGLE_ID, "Reminders", cfg.reminders_enabled)),
        back_row(),
    ];
    assert(row_views(r@) =~= dues_rows(cfg@));
    r
}

/// Build the moderation page.
pub fn moderation_page(cfg: &GuildConfig, sso_deploy_enabled: bool) -> (r: Vec<Row>)
    ensures
        row_views(r@) == moderation_rows(cfg@, sso_deploy_enabled),
{
    let scan = toggle_button(SCAN_TOGGLE_ID, "Automatic Membership Checks", cfg.scan_enabled);
    let toggles = if sso_deploy_enabled {
        row3(scan, toggle_button(SSO_TOGGLE_ID, "SSO", cfg.sso_enabled), back_button())
    } else {
        row2(scan, back_button())
    };
    let r = vec![role_select(MOD_ROLE_ID, "Moderator role", cfg.moderator_role), toggles];
    assert(row_views(r@) =~= moderation_rows(cfg@, sso_deploy_enabled));
    r
}

/// Build the controls for `page`, read against the current configuration.
pub fn page_components(page: Page, cfg: &GuildConfig, sso_deploy_enabled: bool) -> (r: Vec<Row>)
    ensures
        row_views(r@) == page_rows(page, cfg@, sso_deploy_enabled),
{
    match page {
        Page::Landing => landing_page(),
        Page::Verification => verification_page(cfg),
        Page::Membership => membership_page(cfg),
        Page::Dues => dues_page(cfg),
        Page::Moderation => moderation_page(cfg, sso_deploy_enabled),
    }
}

/// Build the embeds for `page`.
pub fn page_embeds(page: Page, cfg: &GuildConfig, accent: u32) -> (r: Vec<Embed>)
    ensures
        r@.map_values(|e: Embed| e@) == page_embed_views(page, cfg@, accent),
{
    let r = match page {
        Page::Landing => vec![config_embed(cfg, accent)],
        _ => Vec::new(),
    };
    assert(r@.map_values(|e: Embed| e@) =~= page_embed_views(page, cfg@, accent));
    r
}

/// The confirmation shown in place of the moderation page before SSO is disabled: the
/// warning, a red confirm and a grey cancel. Disabling removes the admin-panel login
/// path, so it is gated behind this; enabling needs none.
pub fn sso_disable_confirm(warning: &str, accent: u32) -> (r: (Embed, Row))
    ensures
        r.0@ == EmbedView::empty().title("Disable SSO?"@).description(warning@).colour(accent),
        r.1@ == RowView::Buttons(
            seq![
                press_view(SSO_DISABLE_CONFIRM_ID@, "Yes, disable SSO"@, Style::Danger),
                press_view(SSO_DISABLE_CANCEL_ID@, "Cancel"@, Style::Secondary),
            ],
        ),
{
    let embed = Embed::new().title("Disable SSO?".to_owned()).description(
        warning.to_owned(),
    ).colour(accent);
    let row = row2(
        press(SSO_DISABLE_CONFIRM_ID, "Yes, disable SSO", Style::Danger),
        press(SSO_DISABLE_CANCEL_ID, "Cancel", Style::Secondary),
    );
    (embed, row)
}

/// No page exceeds the five rows a message may carry, nor any row its five buttons.
pub proof fn law_pages_fit(page: Page, cfg: GuildConfigView, sso_deploy_enabled: bool)
    ensures
        page_rows(page, cfg, sso_deploy_enabled).len() <= 5,
        forall|i: int|
            #![trigger page_rows(page, cfg, sso_deploy_enabled)[i]]
            0 <= i < page_rows(page, cfg, sso_deploy_enabled).len() ==> (page_rows(
                page,
                cfg,
                sso_deploy_enabled,
            )[i] matches RowView::Buttons(bs) ==> bs.len() <= 5),
{
}

/// Each page has its own controls, every one showing the setting it changes as it now
/// stands; only the landing page carries the configuration.
pub proof fn law_pages_show_their_settings(page: Page, cfg: GuildConfigView, sso: bool, accent: u32)
    ensures
        ({
            let rows = page_rows(Page::Verification, cfg, sso);
            &&& rows.len() == 5
            &&& (rows[0] matches RowView::RoleSelect { id, placeholder, role } && id
                == UNVERIFIED_ROLE_ID@ && role == cfg.unverified_role)
            &&& (rows[1] matches RowView::ChannelSelect { id, placeholder, channel } && id
                == UNVERIFIED_CHAN_ID@ && channel == cfg.unverified_channel)
            &&& (rows[2] matches RowView::ChannelSelect { id, placeholder, channel } && id
                == MOD_CHAN_ID@ && channel == cfg.mod_approval_channel)
            &&& (rows[3] matches RowView::ChannelSelect { id, placeholder, channel } && id
                == VERIFY_LOG_CHAN_ID@ && channel == cfg.verification_log_channel)
            &&& (rows[4] matches RowView::Buttons(bs) && bs.len() == 3 && bs[1] == primary(
                POST_PROMPT_ID@,
                if cfg.unverified_prompt is Some {
                    "Update prompt"@
                } else {
                    "Post prompt"@
                },
            ))
        }),
        ({
            let rows = page_rows(Page::Membership, cfg, sso);
            &&& rows.len() == 5
            &&& (rows[0] matches RowView::RoleSelect { id, placeholder, role } && id
                == MEMBER_ROLE_ID@ && role == cfg.member_role)
            &&& (rows[1] matches RowView::RoleSelect { id, placeholder, role } && id
                == DUES_ROLE_ID@ && role == cfg.dues_expired_role)
            &&& (rows[2] matches RowView::RoleSelect { id, placeholder, role } && id
                == DUES_EXPIRING_ROLE_ID@ && role == cfg.dues_expiring_role)
            &&& (rows[3] matches RowView::RoleSelect { id, placeholder, role } && id
                == OVERRIDE_ROLE_ID@ && role == cfg.manual_override_role)
        }),
        ({
            let rows = page_rows(Page::Dues, cfg, sso);
            &&& rows.len() == 5
            &&& (rows[0] matches RowView::ChannelSelect { id, placeholder, channel } && id
                == DUES_CHAN_ID@ && channel == cfg.dues_expired_channel)
            &&& (rows[2] matches RowView::Buttons(bs) && bs.len() == 3 && bs[1] == primary(
                POST_BANNER_ID@,
                if cfg.dues_banner is Some {
                    "Update message"@
                } else {
                    "Post channel message"@
                },
            ))
            &&& (rows[3] matches RowView::Buttons(bs) && bs.len() == 1 && bs[0] == toggle_view(
                REMINDERS_TOGGLE_ID@,
                "Reminders"@,
                cfg.reminders_enabled,
            ))
        }),
        ({
            let rows = page_rows(Page::Moderation, cfg, sso);
            &&& rows.len() == 2
            &&& (rows[0] matches RowView::RoleSelect { id, placeholder, role } && id
                == MOD_ROLE_ID@ && role == cfg.moderator_role)
            &&& (rows[1] matches RowView::Buttons(bs) && bs[0] == toggle_view(
                SCAN_TOGGLE_ID@,
                "Automatic Membership Checks"@,
                cfg.scan_enabled,
            ) && bs.len() == (if sso {
                3int
            } else {
                2int
            }) && (sso ==> bs[1] == toggle_view(SSO_TOGGLE_ID@, "SSO"@, cfg.sso_enabled)))
        }),
        page_embed_views(page, cfg, accent).len() == if page == Page::Landing {
            1int
        } else {
            0int
        },
        page == Page::Landing ==> page_embed_views(page, cfg, accent)[0] == config_view(
            cfg,
            accent,
        ),
{
}

/// A toggle reads ON, in green, exactly when it is.
pub proof fn law_a_toggle_reads_as_it_is(id: Seq<char>, label: Seq<char>, enabled: bool)
    ensures
        toggle_view(id, label, true) == press_view(id, label + ": ON"@, Style::Success),
        toggle_view(id, label, false) == press_view(id, label + ": OFF"@, Style::Secondary),
        toggle_view(id, label, true) != toggle_view(id, label, false),
{
}

/// An action is offered in blurple, ready to press.
pub proof fn law_actions_are_primary(id: Seq<char>, label: Seq<char>)
    ensures
        primary(id, label) == (ButtonView::Press {
            id,
            label,
            style: Style::Primary,
            disabled: false,
        }),
{
}

/// The landing page leads to every other page, and every other page leads back.
pub proof fn law_pages_lead_to_each_other(page: Page, cfg: GuildConfigView, sso: bool)
    ensures
        (landing_rows()[0] matches RowView::Buttons(bs) && bs.len() == 2 && bs[0] == primary(
            NAV_VERIFICATION_ID@,
            "Verification"@,
        ) && bs[1] == primary(NAV_MEMBERSHIP_ID@, "Membership & access"@)),
        (landing_rows()[1] matches RowView::Buttons(bs) && bs.len() == 2 && bs[0] == primary(
            NAV_DUES_ID@,
            "Dues reminders"@,
        ) && bs[1] == primary(NAV_MODERATION_ID@, "Moderation"@)),
        page != Page::Landing ==> (page_rows(page, cfg, sso).last() matches RowView::Buttons(bs)
            && bs.len() > 0 && bs.last() == press_view(BACK_ID@, "Back"@, Style::Secondary)),
{
}

/// The message editors and the other actions stand on their pages, each under its own label.
pub proof fn law_actions_stand_under_their_labels(cfg: GuildConfigView, sso: bool)
    ensures
        (page_rows(Page::Dues, cfg, sso)[1] matches RowView::Buttons(bs) && bs.len() == 4 && bs[0]
            == primary(EDIT_MONTHLY_ID@, "Monthly"@) && bs[1] == primary(EDIT_YEARLY_ID@, "Yearly"@)
            && bs[2] == primary(EDIT_ONETIME_ID@, "One-time"@) && bs[3] == primary(
            EDIT_INCOME_ID@,
            "Income-based"@,
        )),
        (page_rows(Page::Dues, cfg, sso)[2] matches RowView::Buttons(bs) && bs[0] == primary(
            EDIT_BANNER_ID@,
            "Edit channel message"@,
        ) && bs[2] == press_view(DUES_URL_BUTTON_ID@, "Set sign-up URL"@, Style::Secondary)),
        (page_rows(Page::Verification, cfg, sso)[4] matches RowView::Buttons(bs) && bs[0]
            == primary(EDIT_PROMPT_ID@, "Edit prompt message"@)),
        page_rows(Page::Landing, cfg, sso) == landing_rows(),
{
}

/// Disabling sign-on is asked about with the warning given, over a confirm and a cancel.
pub proof fn law_disabling_is_asked_about(warning: &str, accent: u32, r: (Embed, Row))
    requires
        call_ensures(sso_disable_confirm, (warning, accent), r),
    ensures
        r.0@.title == Some("Disable SSO?"@),
        r.0@.description == Some(warning@),
        r.0@.colour == Some(accent),
        (r.1@ matches RowView::Buttons(bs) && bs.len() == 2 && bs[0] == press_view(
            SSO_DISABLE_CONFIRM_ID@,
            "Yes, disable SSO"@,
            Style::Danger,
        ) && bs[1] == press_view(SSO_DISABLE_CANCEL_ID@, "Cancel"@, Style::Secondary)),
{
}

} // verus!
