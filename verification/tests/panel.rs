use botonio_botsci::commands::setup::handlers::{
    apply_selection, confirm_disable_sso, post_banner, post_note, post_prompt, save_message_ref,
    settle, settle_message_ref, toggle_reminders, toggle_scan, toggle_sso, AuditEntry, Picked, PostAction, PostEvent,
    PostedMessage, Selected, DUPLICATE_ROLE, SAVE_FAILED,
};
use botonio_botsci::commands::setup::modals::{
    edit_message, resolve_body, set_dues_url, EditAction, EditPhase, FormEvent, LinkAction,
    LinkEvent, EMPTY_BODY, NOT_A_LINK,
};
use botonio_botsci::commands::setup::pages::{page_components, sso_disable_confirm, Page};
use botonio_botsci::commands::setup::panel::{
    invoker_can_configure, redraw, route, setup, Route, SetupAction, SetupEvent, MANAGE_GUILD,
};
use botonio_botsci::ids::{DiscordChannelId, DiscordMessageId, DiscordRoleId};
use botonio_botsci::store::{GuildConfig, MessageKind, MessageRef};
use botonio_botsci::ui::{Button, Row};

#[test]
fn only_managers_get_the_panel() {
    assert!(invoker_can_configure(Some(MANAGE_GUILD)));
    assert!(invoker_can_configure(Some(0xff)));
    assert!(!invoker_can_configure(Some(0x1f)));
    assert!(!invoker_can_configure(None));
    let cfg = GuildConfig::default();
    assert_eq!(
        setup(&cfg, 7, true, &SetupEvent::Invoked(None)),
        SetupAction::Refuse("That command is for server managers only.".to_owned())
    );
    assert_eq!(
        setup(&cfg, 7, true, &SetupEvent::Invoked(Some(0x20))),
        SetupAction::Open(redraw(Page::Landing, &cfg, 7, true, None))
    );
    assert_eq!(
        setup(&cfg, 7, true, &SetupEvent::Closed),
        SetupAction::Close
    );
}

#[test]
fn every_button_of_every_page_is_routed() {
    let cfg = GuildConfig::default();
    for page in [
        Page::Landing,
        Page::Verification,
        Page::Membership,
        Page::Dues,
        Page::Moderation,
    ] {
        for row in page_components(page, &cfg, true) {
            match row {
                Row::Buttons(bs) => {
                    for b in bs {
                        if let Button::Press { id, .. } = b {
                            assert_ne!(route(&id), Route::Unknown, "{id}");
                        }
                    }
                }
                Row::RoleSelect { id, .. } | Row::ChannelSelect { id, .. } => {
                    assert_eq!(route(&id), Route::Select(page), "{id}");
                }
                other => panic!("{other:?}"),
            }
        }
    }
    assert_eq!(route("setup_unknown"), Route::Unknown);
    assert_eq!(
        setup(&cfg, 7, true, &SetupEvent::Used("setup_edit_banner".to_owned())),
        SetupAction::Do(Route::Edit(MessageKind::DuesBanner))
    );
}

#[test]
fn a_failed_save_changes_nothing() {
    let cfg = GuildConfig::default();
    let settled = settle(toggle_scan(&cfg), false);
    assert_eq!(settled.live, None);
    assert_eq!(settled.audit, None);
    assert_eq!(settled.note.as_deref(), Some(SAVE_FAILED));
    assert_eq!(settled.page, Page::Moderation);
}

#[test]
fn a_switch_flipped_twice_is_as_before() {
    let cfg = GuildConfig::default();
    assert_eq!(toggle_scan(&toggle_scan(&cfg).next).next, cfg);
    assert_eq!(toggle_reminders(&toggle_reminders(&cfg).next).next, cfg);
}

#[test]
fn switching_on_without_a_channel_warns() {
    let mut cfg = GuildConfig::default();
    let note = settle(toggle_scan(&cfg), true).note.unwrap();
    assert!(note.starts_with("Automatic membership checks on."), "{note}");
    cfg.mod_approval_channel = Some(DiscordChannelId(1));
    let settled = settle(toggle_scan(&cfg), true);
    assert_eq!(settled.note, None);
    assert_eq!(
        settled.audit,
        Some(AuditEntry::Switch {
            action: "config.set_scan",
            field: "automatic membership checks",
            before: false,
            after: true
        })
    );
    let note = settle(toggle_reminders(&cfg), true).note.unwrap();
    assert!(note.contains("no dues-expired channel is set"), "{note}");
}

#[test]
fn switching_reminders_off_clears_the_markers() {
    let cfg = GuildConfig {
        reminders_enabled: true,
        ..Default::default()
    };
    let settled = settle(toggle_reminders(&cfg), true);
    assert!(settled.clear_markers);
    assert_eq!(settled.page, Page::Dues);
    assert_eq!(
        settled.note.as_deref(),
        Some("Dues reminders off. Cleared the Dues Expiring marker from any held members.")
    );
    assert!(!settle(toggle_reminders(&GuildConfig::default()), true).clear_markers);
}

#[test]
fn disabling_sso_is_confirmed_first() {
    let off = GuildConfig::default();
    let on = toggle_sso(&off).unwrap().next;
    assert!(on.sso_enabled);
    assert_eq!(toggle_sso(&on), None);
    let (embed, row) = sso_disable_confirm("Careful.", 7);
    assert_eq!(embed.description.as_deref(), Some("Careful."));
    assert!(matches!(row, Row::Buttons(bs) if bs.len() == 2));
    let change = confirm_disable_sso(&on);
    assert_eq!(change.next, off);
    assert_eq!(settle(change, true).note.as_deref(), Some("SSO disabled."));
}

#[test]
fn a_selection_is_applied_or_refused() {
    let cfg = GuildConfig {
        moderator_role: Some(DiscordRoleId(5)),
        ..Default::default()
    };
    let pick = |id, picked| apply_selection(&cfg, id, picked, Page::Membership);
    assert_eq!(
        pick("setup_role_member", Picked::Role(Some(5))),
        Selected::Refused(DUPLICATE_ROLE.to_owned())
    );
    let change = match pick("setup_role_member", Picked::Role(Some(6))) {
        Selected::Proposed(c) => c,
        other => panic!("{other:?}"),
    };
    assert_eq!(change.next.member_role, Some(DiscordRoleId(6)));
    assert_eq!(
        change.audit,
        AuditEntry::Choice {
            action: "config.set_role",
            field: "member role",
            previous: None,
            chosen: 6
        }
    );
    assert_eq!(
        settle(change, true).note.as_deref(),
        Some("Updated the member role.")
    );
    assert_eq!(pick("setup_role_member", Picked::Role(None)), Selected::Nothing);
    assert_eq!(pick("setup_role_member", Picked::Other), Selected::Nothing);
    assert_eq!(
        pick("setup_role_member", Picked::Channel(Some(6))),
        Selected::Nothing
    );
    assert!(matches!(
        pick("setup_chan_verify_log", Picked::Channel(Some(9))),
        Selected::Proposed(c) if c.next.verification_log_channel == Some(DiscordChannelId(9))
    ));
}

#[test]
fn a_publish_edits_what_stands_and_posts_afresh_otherwise() {
    let mut cfg = GuildConfig::default();
    let (action, shown) = post_prompt(&cfg, "Hello", 7, PostEvent::Asked);
    assert_eq!(action, PostAction::NeedsChannel);
    assert_eq!(shown, None);
    assert_eq!(
        post_note(PostedMessage::Prompt, action),
        Some("Set an unverified channel first (on this page), then post the prompt.")
    );
    cfg.unverified_channel = Some(DiscordChannelId(3));
    let (action, shown) = post_prompt(&cfg, "Hello", 7, PostEvent::Asked);
    assert_eq!(action, PostAction::PostTo(DiscordChannelId(3)));
    let fresh = shown.unwrap();
    assert_eq!(fresh.0.description.as_deref(), Some("Hello"));
    let posted = PostEvent::Posted(DiscordChannelId(3), Some(DiscordMessageId(44)));
    let at = MessageRef {
        channel: DiscordChannelId(3),
        message: DiscordMessageId(44),
    };
    let (action, _) = post_prompt(&cfg, "Hello", 7, posted);
    assert_eq!(action, PostAction::Remember(at));
    let next = save_message_ref(&cfg, PostedMessage::Prompt, at);
    assert_eq!(settle_message_ref(next.clone(), false), None);
    let cfg = settle_message_ref(next, true).unwrap();
    let (action, shown) = post_prompt(&cfg, "Hello", 7, PostEvent::Asked);
    assert_eq!(action, PostAction::EditInPlace(at));
    assert_eq!(shown, Some(fresh));
    let (action, _) = post_prompt(&cfg, "Hello", 7, PostEvent::Edited(false));
    assert_eq!(action, PostAction::PostTo(DiscordChannelId(3)));
    let (action, _) = post_prompt(&cfg, "Hello", 7, PostEvent::Edited(true));
    assert_eq!(
        post_note(PostedMessage::Prompt, action),
        Some("Updated the verification prompt in place.")
    );
    let failed = post_banner(&cfg, PostEvent::Posted(DiscordChannelId(3), None));
    assert_eq!(
        post_note(PostedMessage::Banner, failed),
        Some("Couldn't post the message there - check my permissions on that channel.")
    );
}

#[test]
fn a_message_body_is_edited_saved_and_previewed() {
    let kind = MessageKind::Unverified;
    let step = |phase, event: FormEvent| edit_message(kind, "Renew", 7, phase, &event);
    let (phase, action) = step(EditPhase::Start, FormEvent::Pressed("old".to_owned()));
    match action {
        EditAction::Open(m) => {
            assert_eq!(m.title, "Edit verification prompt message");
            assert_eq!(m.inputs[0].value.as_deref(), Some("old"));
        }
        other => panic!("{other:?}"),
    }
    let (_, action) = step(phase.clone(), FormEvent::Submitted("  ".to_owned()));
    assert_eq!(
        action,
        EditAction::Finish {
            page: Page::Verification,
            note: EMPTY_BODY.to_owned(),
            preview: None
        }
    );
    let (_, action) = step(phase.clone(), FormEvent::Abandoned);
    assert_eq!(action, EditAction::Stop);
    let (phase, action) = step(phase, FormEvent::Submitted(" new ".to_owned()));
    assert_eq!(action, EditAction::Save("new".to_owned()));
    let (phase, action) = step(phase, FormEvent::Saved(true));
    match action {
        EditAction::Finish {
            note,
            preview: Some(e),
            ..
        } => {
            assert_eq!(note, "Saved. Here's how it looks:");
            assert_eq!(e.title.as_deref(), Some("Verify your membership"));
            assert_eq!(e.description.as_deref(), Some("new"));
        }
        other => panic!("{other:?}"),
    }
    assert_eq!(phase, EditPhase::Done);
    assert_eq!(resolve_body(Ok(None), "default"), "default");
    assert_eq!(resolve_body(Err(()), "default"), "default");
    assert_eq!(resolve_body(Ok(Some("mine".to_owned())), "default"), "mine");
}

#[test]
fn only_a_web_link_is_stored() {
    let cfg = GuildConfig {
        dues_signup_url: Some("https://a.example".to_owned()),
        ..Default::default()
    };
    let submit = |raw: &str| set_dues_url(&cfg, &LinkEvent::Submitted(raw.to_owned()));
    assert_eq!(
        submit("javascript:x"),
        LinkAction::Refuse(NOT_A_LINK.to_owned())
    );
    let proposed = |raw| match submit(raw) {
        LinkAction::Propose(c) => settle(c, true),
        other => panic!("{other:?}"),
    };
    let cleared = proposed("  ");
    assert_eq!(cleared.live.unwrap().dues_signup_url, None);
    assert_eq!(cleared.note.as_deref(), Some("Updated the dues sign-up URL."));
    assert_eq!(
        proposed(" https://a.example ").note.as_deref(),
        Some("That's already the dues sign-up URL - nothing changed.")
    );
    assert_eq!(
        proposed("http://b.example").live.unwrap().dues_signup_url.as_deref(),
        Some("http://b.example")
    );
    match set_dues_url(&cfg, &LinkEvent::Pressed) {
        LinkAction::Open(m) => {
            assert_eq!(m.inputs[0].value.as_deref(), Some("https://a.example"))
        }
        other => panic!("{other:?}"),
    }
    assert_eq!(set_dues_url(&cfg, &LinkEvent::Abandoned), LinkAction::Stop);
}
