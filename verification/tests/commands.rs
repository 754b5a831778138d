use botonio_botsci::commands::channels::{
    build_setup_config, channels_err_msg, check, format_desync_report, restore, save, saved_text,
    ChannelsError, Desync, RestoreAction, RestoreEvent, RestoreOutcome, RestorePhase, SavedSnapshot,
    NO_MODERATOR_ROLE, RESTORE_CANCEL_ID, RESTORE_CONFIRM_ID,
};
use botonio_botsci::commands::grace::{
    confirmation, grace, GraceAction, GraceChange, GraceEvent, GracePhase,
};
use botonio_botsci::commands::help::{help, select};
use botonio_botsci::commands::reminders::{
    clear_optout, ensure_can_manage, optout_cleared, preview, preview_message, template,
    template_body, template_form, template_saved, test_plan, test_send, test_send_report,
    CachedType, MilestoneChoice, RemindersAction, RemindersEvent, RemindersPhase,
    TemplateKindChoice, NO_REMINDER_CHANNEL, TEST_SEND_FAILED,
};
use botonio_botsci::dates::Date;
use botonio_botsci::ids::{DiscordChannelId, DiscordRoleId, DiscordUserId};
use botonio_botsci::render::help::Topic;
use botonio_botsci::store::{GuildConfig, MembershipType, Milestone, ReminderTemplateKind};
use botonio_botsci::ui::{Button, Row};

fn selected(row: &Row) -> Vec<(String, bool)> {
    match row {
        Row::Choices { options, .. } => options
            .iter()
            .map(|o| (o.value.clone(), o.selected))
            .collect(),
        other => panic!("{other:?}"),
    }
}

#[test]
fn help_opens_on_the_membership_and_marks_the_current_topic() {
    let page = help(false, 7);
    assert_eq!(page.topic, Topic::MyMembership);
    assert_eq!(
        selected(&page.row),
        [
            ("getting_verified".to_owned(), false),
            ("my_membership".to_owned(), true)
        ]
    );
    assert_eq!(selected(&help(true, 7).row).len(), 3);
}

#[test]
fn a_selection_is_checked_against_the_role_held_now() {
    assert_eq!(
        select(Some("for_moderators"), true, 7).topic,
        Topic::ForModerators
    );
    assert_eq!(
        select(Some("for_moderators"), false, 7).topic,
        Topic::MyMembership
    );
    assert_eq!(
        select(Some("getting_verified"), false, 7).topic,
        Topic::GettingVerified
    );
    assert_eq!(select(Some("nope"), true, 7).topic, Topic::MyMembership);
    assert_eq!(select(None, true, 7).topic, Topic::MyMembership);
}

fn today() -> Date {
    Date::from_ymd_opt(2026, 6, 1).unwrap()
}

fn invoke(change: GraceChange, is_moderator: bool) -> (GracePhase, GraceAction) {
    grace(
        change,
        "rosy",
        GracePhase::Start,
        GraceEvent::Invoked {
            is_moderator,
            today: today(),
        },
    )
}

#[test]
fn grace_runs_through_its_last_day_and_is_confirmed() {
    let change = GraceChange::Grant(30);
    let last = Date::from_ymd_opt(2026, 6, 30).unwrap();
    let (phase, action) = invoke(change, true);
    assert_eq!(action, GraceAction::Stamp(last));
    let (phase, action) = grace(change, "rosy", phase, GraceEvent::Stamped(true));
    assert_eq!(
        action,
        GraceAction::Audit {
            action: "grace_set",
            days: Some(30)
        }
    );
    // A failed audit row does not stop the change.
    let (phase, action) = grace(
        change,
        "rosy",
        phase,
        GraceEvent::Audited {
            written: false,
            roles_configured: true,
        },
    );
    assert_eq!(action, GraceAction::Verify);
    let (_, action) = grace(change, "rosy", phase, GraceEvent::Verified(None));
    assert_eq!(
        action,
        GraceAction::Reply(
            "Grace set: rosy is held at Member until Jun 30, 2026 (inclusive).".to_owned()
        )
    );
    let (_, action) = grace(
        change,
        "rosy",
        phase,
        GraceEvent::Verified(Some("timeout".to_owned())),
    );
    assert_eq!(
        action,
        GraceAction::Reply(
            "The grace change was saved, but updating the role failed: timeout. Retry /verify to sync their role.".to_owned()
        )
    );
}

#[test]
fn one_day_of_grace_ends_today() {
    let (_, action) = invoke(GraceChange::Grant(1), true);
    assert_eq!(action, GraceAction::Stamp(today()));
}

#[test]
fn grace_refuses_before_anything_is_written() {
    assert_eq!(
        invoke(GraceChange::Grant(u32::MAX), false).1,
        GraceAction::Reply("That command is for moderators only.".to_owned())
    );
    assert_eq!(
        invoke(GraceChange::Grant(3), false).1,
        GraceAction::Reply("That command is for moderators only.".to_owned())
    );
    assert_eq!(
        invoke(GraceChange::Grant(0), true).1,
        GraceAction::Reply("Days must be greater than 0.".to_owned())
    );
    let (phase, _) = invoke(GraceChange::Grant(3), true);
    let (_, action) = grace(
        GraceChange::Grant(3),
        "rosy",
        phase,
        GraceEvent::Stamped(false),
    );
    assert_eq!(action, GraceAction::Fail);
}

#[test]
fn clearing_grace_lifts_the_stamp() {
    let change = GraceChange::Clear;
    let (phase, action) = invoke(change, true);
    assert_eq!(action, GraceAction::Lift);
    let (phase, action) = grace(change, "rosy", phase, GraceEvent::Stamped(true));
    assert_eq!(
        action,
        GraceAction::Audit {
            action: "grace_clear",
            days: None
        }
    );
    let (_, action) = grace(
        change,
        "rosy",
        phase,
        GraceEvent::Audited {
            written: true,
            roles_configured: false,
        },
    );
    assert_eq!(
        action,
        GraceAction::Reply(
            "Roles are not configured yet - a server manager needs to run /setup first.".to_owned()
        )
    );
    assert_eq!(
        confirmation("rosy", None),
        "Grace cleared for rosy; role reverted to their current standing."
    );
}

#[test]
fn a_template_is_edited_from_the_body_in_use() {
    assert_eq!(ensure_can_manage(true), None);
    assert_eq!(
        ensure_can_manage(false),
        Some("That command is for server managers only.")
    );
    let m = template_form(TemplateKindChoice::Monthly, &None);
    assert_eq!(m.title, "Edit reminder template");
    assert_eq!(
        m.inputs[0].value.as_deref(),
        Some(botonio_botsci::render::reminders::MONTHLY_BODY)
    );
    assert_eq!(m.inputs[0].max_length, Some(1000));
    let m = template_form(TemplateKindChoice::Monthly, &Some("Mine".to_owned()));
    assert_eq!(m.inputs[0].value.as_deref(), Some("Mine"));
    assert_eq!(template_body(Some("  new \n")), Some("new".to_owned()));
    assert_eq!(template_body(Some("  ")), None);
    assert_eq!(template_body(None), None);
    assert_eq!(template_saved("monthly"), "Template for **monthly** saved.");
}

#[test]
fn a_preview_fires_nothing() {
    let p = preview_message(
        TemplateKindChoice::Yearly,
        "yearly",
        &Some("Renew".to_owned()),
        &GuildConfig::default(),
        DiscordUserId(9),
        7,
    );
    assert_eq!(
        p.content,
        "Preview for **yearly** template (placeholder data):"
    );
    assert!(p.embed.description.unwrap().contains("14 days"));
    match p.row {
        Row::Buttons(bs) => {
            assert_eq!(bs.len(), 3);
            assert!(bs
                .iter()
                .all(|b| matches!(b, Button::Press { disabled: true, .. })));
        }
        other => panic!("{other:?}"),
    }
    let p = preview_message(
        TemplateKindChoice::Expired,
        "expired",
        &None,
        &GuildConfig::default(),
        DiscordUserId(9),
        7,
    );
    assert!(p.embed.description.unwrap().contains("has lapsed"));
    assert!(matches!(p.row, Row::Buttons(bs) if bs.len() == 1));
}

#[test]
fn a_test_send_falls_back_to_monthly() {
    let parent = DiscordChannelId(3);
    let sent = test_plan(parent, MilestoneChoice::Days30, CachedType::Absent);
    assert_eq!(sent.parent, DiscordChannelId(3));
    assert_eq!(sent.milestone, Milestone::Days30);
    assert_eq!(sent.days_until, 30);
    assert_eq!(sent.membership_type, Some(MembershipType::Monthly));
    let sent = test_plan(parent, MilestoneChoice::Expired, CachedType::Record(None));
    assert_eq!(sent.days_until, -1);
    assert_eq!(sent.membership_type, None);
    assert_eq!(
        test_send_report(true, "days_30", DiscordUserId(4)),
        "Sent days_30 reminder to <@4>."
    );
    assert_eq!(
        test_send_report(false, "days_30", DiscordUserId(4)),
        TEST_SEND_FAILED
    );
    assert_eq!(
        optout_cleared(DiscordUserId(4)),
        "Cleared dues-reminder opt-out for <@4>. They will receive reminders again."
    );
}

const START: RemindersPhase = RemindersPhase::Start;

fn invoked(can_manage: bool) -> RemindersEvent {
    RemindersEvent::Invoked { can_manage }
}

#[test]
fn every_reminders_command_is_for_managers() {
    let refusal = (
        RemindersPhase::Done,
        RemindersAction::Reply("That command is for server managers only.".to_owned()),
    );
    let cfg = GuildConfig::default();
    let who = DiscordUserId(4);
    let kind = TemplateKindChoice::Monthly;
    let no = invoked(false);
    assert_eq!(template(kind, "monthly", START, &no), refusal);
    assert_eq!(preview(kind, "monthly", &cfg, who, 7, START, &no), refusal);
    assert_eq!(clear_optout(who, START, &no), refusal);
    let milestone = MilestoneChoice::Day1;
    assert_eq!(test_send(&cfg, who, milestone, "day_1", START, &no), refusal);
    // Nothing follows a refusal.
    let later = clear_optout(who, RemindersPhase::Done, &RemindersEvent::Finished);
    assert_eq!(later, (RemindersPhase::Done, RemindersAction::Ignore));
}

#[test]
fn a_template_is_read_edited_and_saved() {
    let kind = TemplateKindChoice::Yearly;
    let (phase, action) = template(kind, "yearly", START, &invoked(true));
    assert_eq!(action, RemindersAction::ReadBody(ReminderTemplateKind::Yearly));
    let body = RemindersEvent::Body(Some("Mine".to_owned()));
    let (phase, action) = template(kind, "yearly", phase, &body);
    assert_eq!(
        action,
        RemindersAction::Open(template_form(kind, &Some("Mine".to_owned())))
    );
    let dismissed = template(kind, "yearly", phase, &RemindersEvent::Submitted(None));
    assert_eq!(dismissed, (RemindersPhase::Done, RemindersAction::Stop));
    let typed = RemindersEvent::Submitted(Some(" Ours \n".to_owned()));
    let (phase, action) = template(kind, "yearly", phase, &typed);
    assert_eq!(
        action,
        RemindersAction::Save(ReminderTemplateKind::Yearly, "Ours".to_owned())
    );
    assert_eq!(
        template(kind, "yearly", phase, &RemindersEvent::Failed),
        (RemindersPhase::Done, RemindersAction::Fail)
    );
    assert_eq!(
        template(kind, "yearly", phase, &RemindersEvent::Finished).1,
        RemindersAction::Reply("Template for **yearly** saved.".to_owned())
    );
}

#[test]
fn a_preview_is_shown_once_the_body_was_read() {
    let cfg = GuildConfig::default();
    let who = DiscordUserId(9);
    let kind = TemplateKindChoice::Expired;
    let (phase, action) = preview(kind, "expired", &cfg, who, 7, START, &invoked(true));
    assert_eq!(action, RemindersAction::ReadBody(ReminderTemplateKind::Expired));
    assert_eq!(
        preview(kind, "expired", &cfg, who, 7, phase, &RemindersEvent::Body(None)).1,
        RemindersAction::Show(preview_message(kind, "expired", &None, &cfg, who, 7))
    );
    assert_eq!(
        preview(kind, "expired", &cfg, who, 7, phase, &RemindersEvent::Failed).1,
        RemindersAction::Fail
    );
}

#[test]
fn an_opt_out_is_cleared_then_confirmed() {
    let who = DiscordUserId(4);
    let (phase, action) = clear_optout(who, START, &invoked(true));
    assert_eq!(action, RemindersAction::Clear(who));
    assert_eq!(
        clear_optout(who, phase, &RemindersEvent::Finished).1,
        RemindersAction::Reply(optout_cleared(who))
    );
    assert_eq!(
        clear_optout(who, phase, &RemindersEvent::Failed).1,
        RemindersAction::Fail
    );
}

#[test]
fn a_test_send_needs_a_channel() {
    let mut cfg = GuildConfig::default();
    let who = DiscordUserId(4);
    let milestone = MilestoneChoice::Days30;
    assert_eq!(
        test_send(&cfg, who, milestone, "days_30", START, &invoked(true)),
        (
            RemindersPhase::Done,
            RemindersAction::Reply(NO_REMINDER_CHANNEL.to_owned())
        )
    );
    cfg.dues_reminder_channel = Some(DiscordChannelId(3));
    let (phase, action) = test_send(&cfg, who, milestone, "days_30", START, &invoked(true));
    assert_eq!(action, RemindersAction::ReadType(who));
    let cached = RemindersEvent::Cached(CachedType::Failed);
    let (phase, action) = test_send(&cfg, who, milestone, "days_30", phase, &cached);
    assert_eq!(
        action,
        RemindersAction::Send(test_plan(DiscordChannelId(3), milestone, CachedType::Failed))
    );
    let (_, action) = test_send(&cfg, who, milestone, "days_30", phase, &RemindersEvent::Sent(true));
    assert_eq!(
        action,
        RemindersAction::Reply("Sent days_30 reminder to <@4>.".to_owned())
    );
}

#[test]
fn dates_and_times_are_written_out() {
    let card = |y: i32, m: u32, d: u32| Date::from_ymd_opt(y, m, d).unwrap().card_text();
    assert_eq!(card(2026, 6, 1), "Jun 1, 2026");
    assert_eq!(card(2024, 2, 29), "Feb 29, 2024");
    assert_eq!(card(7, 12, 31), "Dec 31, 0007");
    assert_eq!(card(0, 1, 1), "Jan 1, 0000");
    assert_eq!(card(-5, 3, 9), "Mar 9, -0005");
    assert_eq!(card(12345, 10, 10), "Oct 10, +12345");
    let saved = |saved_at: i64| save(Ok(SavedSnapshot { channels: 1, saved_at }));
    assert_eq!(
        saved(0).unwrap(),
        "Snapshot saved: 1 channel at 1970-01-01 00:00 UTC."
    );
    assert_eq!(
        saved(-1).unwrap(),
        "Snapshot saved: 1 channel at 1969-12-31 23:59 UTC."
    );
    assert_eq!(
        saved(1_780_302_300_000_000).unwrap(),
        "Snapshot saved: 1 channel at 2026-06-01 08:25 UTC."
    );
    assert_eq!(saved(i64::MAX), None);
}

#[test]
fn a_channel_setup_needs_every_role() {
    let mut cfg = GuildConfig {
        member_role: Some(DiscordRoleId(1)),
        dues_expired_role: Some(DiscordRoleId(2)),
        unverified_role: Some(DiscordRoleId(3)),
        ..Default::default()
    };
    assert_eq!(
        build_setup_config(&cfg, 10, DiscordUserId(5)),
        Err(NO_MODERATOR_ROLE)
    );
    cfg.moderator_role = Some(DiscordRoleId(4));
    let s = build_setup_config(&cfg, 10, DiscordUserId(5)).unwrap();
    assert_eq!(s.everyone, DiscordRoleId(10));
    assert_eq!(s.bot_user, DiscordUserId(5));
}

#[test]
fn a_channel_check_lists_what_drifted() {
    assert_eq!(
        format_desync_report(&vec![]),
        "All channels are in sync with their category overwrites."
    );
    let drifted = vec![Desync {
        child: DiscordChannelId(1),
        name: "general".to_owned(),
        parent: DiscordChannelId(2),
    }];
    let report = check(&Ok(drifted));
    assert!(report.starts_with("1 channel(s) out of sync with their category:"));
    assert!(report.contains("general"));
    assert_eq!(
        check(&Err(ChannelsError::NoSnapshot)),
        channels_err_msg(ChannelsError::NoSnapshot)
    );
}

#[test]
fn a_saved_snapshot_says_when() {
    let saved = save(Ok(SavedSnapshot {
        channels: 1,
        saved_at: 1_767_225_600_000_000,
    }))
    .unwrap();
    assert!(saved.starts_with("Snapshot saved: 1 channel"), "{saved}");
    assert!(saved.contains("2026"), "{saved}");
    assert!(saved_text(2, "now").contains("2 channels"));
    assert!(saved_text(2, "now").contains("now"));
}

#[test]
fn a_restore_is_confirmed_first() {
    let (phase, action) = restore(RestorePhase::Start, &RestoreEvent::Invoked);
    assert!(matches!(action, RestoreAction::Prompt(_, _)));
    let (_, action) = restore(phase, &RestoreEvent::Idle);
    assert_eq!(
        action,
        RestoreAction::Say("Restore cancelled (timed out).".to_owned())
    );
    let (_, action) = restore(
        phase,
        &RestoreEvent::Pressed(RESTORE_CANCEL_ID.to_owned()),
    );
    assert_eq!(action, RestoreAction::Say("Restore cancelled.".to_owned()));
    let (phase, action) = restore(
        phase,
        &RestoreEvent::Pressed(RESTORE_CONFIRM_ID.to_owned()),
    );
    assert_eq!(action, RestoreAction::Load);
    let (phase, action) = restore(phase, &RestoreEvent::Loaded(Ok(())));
    assert_eq!(action, RestoreAction::Apply);
    let (phase, action) = restore(
        phase,
        &RestoreEvent::Applied(Ok(RestoreOutcome {
            written: 3,
            skipped_no_op: 2,
            failed: 1,
        })),
    );
    match action {
        RestoreAction::Say(s) => assert!(s.contains('3') && s.contains('2') && s.contains('1')),
        other => panic!("{other:?}"),
    }
    assert_eq!(phase, RestorePhase::Done);
}
