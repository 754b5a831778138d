use botonio_botsci::clock::Duration;
use botonio_botsci::commands::strip_roles::{
    strip_roles, StripAction, StripEvent, StripOutcome, StripRun,
};
use botonio_botsci::dates::Date;
use botonio_botsci::ids::{DiscordChannelId, DiscordRoleId, DiscordUserId};
use botonio_botsci::reminders::{
    handle_help, handle_optout, handle_snooze, is_timely, on_component, run_reminder_sweep,
    send_reminder, template_kind, DueReminder, ReminderCtx, ReminderPress, SendAction, SendEvent,
    SendPhase, SnoozeAction, SnoozeEvent, Sweep, SweepAction, SweepCounts, SweepEvent, OPTED_OUT,
    SAVE_TROUBLE, SNOOZED,
};
use botonio_botsci::render::reminders::{is_http_signup_url, reminder_buttons};
use botonio_botsci::scan::{
    run_once, ScanAction, ScanCounts, ScanEvent, ScanPlan, ScanRun, ScanThreshold, ScanVerdict,
};
use botonio_botsci::store::{GuildConfig, MembershipType, Milestone, ReminderTemplateKind};
use botonio_botsci::ui::{Button, Row};

#[test]
fn stripping_goes_through_everyone_and_counts() {
    let mut run = StripRun::new(false);
    assert_eq!(
        strip_roles(
            &mut run,
            StripEvent::Invoked {
                is_moderator: true,
                roles_configured: true
            }
        ),
        StripAction::Enumerate
    );
    assert_eq!(
        strip_roles(
            &mut run,
            StripEvent::Enumerated(Some(vec![true, false, false]))
        ),
        StripAction::Ask {
            index: 0,
            pause: false
        }
    );
    assert_eq!(
        strip_roles(&mut run, StripEvent::Answered(Some(false))),
        StripAction::Strip {
            index: 0,
            overridden: false
        }
    );
    // The first holds a managed role, so the next waits.
    assert_eq!(
        strip_roles(&mut run, StripEvent::Stripped(StripOutcome::Stripped)),
        StripAction::Ask {
            index: 1,
            pause: true
        }
    );
    assert_eq!(
        strip_roles(&mut run, StripEvent::Answered(None)),
        StripAction::Ask {
            index: 2,
            pause: false
        }
    );
    strip_roles(&mut run, StripEvent::Answered(Some(true)));
    assert_eq!(
        strip_roles(&mut run, StripEvent::Stripped(StripOutcome::Forgotten)),
        StripAction::Finish {
            pause: true,
            summary: "Stripped managed roles from 3 members (1 fully reset, 1 status-only). 1 failed - see the logs.".to_owned()
        }
    );
}

#[test]
fn stripping_an_empty_roster_ends_at_once() {
    let mut run = StripRun::new(true);
    strip_roles(
        &mut run,
        StripEvent::Invoked {
            is_moderator: true,
            roles_configured: true,
        },
    );
    assert_eq!(
        strip_roles(&mut run, StripEvent::Enumerated(Some(vec![]))),
        StripAction::Finish {
            pause: false,
            summary: "Stripped managed roles from 0 members (0 fully reset, 0 status-only)."
                .to_owned()
        }
    );
    let mut run = StripRun::new(true);
    assert!(matches!(
        strip_roles(
            &mut run,
            StripEvent::Invoked {
                is_moderator: false,
                roles_configured: true
            }
        ),
        StripAction::Reply(_)
    ));
}

fn scan_cfg() -> GuildConfig {
    GuildConfig {
        scan_enabled: true,
        mod_approval_channel: Some(DiscordChannelId(4)),
        ..Default::default()
    }
}

fn planned(verdict: ScanVerdict, demotions: Vec<bool>) -> (ScanRun, ScanAction) {
    let mut run = ScanRun::new(ScanThreshold {
        percent: 20,
        floor: 5,
    });
    let cfg = scan_cfg();
    let ticked = ScanEvent::Ticked {
        roles_configured: true,
    };
    assert_eq!(run_once(&mut run, &cfg, ticked), ScanAction::Enumerate);
    assert_eq!(
        run_once(&mut run, &cfg, ScanEvent::Enumerated(true)),
        ScanAction::Plan
    );
    let plan = ScanPlan { verdict, demotions };
    let action = run_once(&mut run, &cfg, ScanEvent::Planned(Some(plan)));
    (run, action)
}

#[test]
fn a_scan_that_is_off_or_unconfigured_is_skipped() {
    let threshold = ScanThreshold {
        percent: 20,
        floor: 5,
    };
    let off = GuildConfig::default();
    for (cfg, roles_configured) in [(off, true), (scan_cfg(), false)] {
        let mut run = ScanRun::new(threshold);
        assert_eq!(
            run_once(&mut run, &cfg, ScanEvent::Ticked { roles_configured }),
            ScanAction::Skip
        );
    }
}

#[test]
fn a_tripped_scan_changes_nothing_and_alerts() {
    let (_, action) = planned(
        ScanVerdict::Abort {
            demotions: 9,
            scanned: 30,
        },
        vec![true; 9],
    );
    match action {
        ScanAction::Abort(Some((channel, embed))) => {
            assert_eq!(channel, DiscordChannelId(4));
            assert!(embed.description.unwrap().contains('9'));
        }
        other => panic!("{other:?}"),
    }
}

#[test]
fn an_applied_scan_counts_each_change() {
    let (mut run, action) = planned(ScanVerdict::Proceed, vec![true, false, true]);
    let cfg = scan_cfg();
    assert_eq!(
        action,
        ScanAction::Apply {
            index: 0,
            pause: false
        }
    );
    assert_eq!(
        run_once(&mut run, &cfg, ScanEvent::Applied(true)),
        ScanAction::Apply {
            index: 1,
            pause: true
        }
    );
    run_once(&mut run, &cfg, ScanEvent::Applied(true));
    assert_eq!(
        run_once(&mut run, &cfg, ScanEvent::Applied(false)),
        ScanAction::Complete(ScanCounts {
            promoted: 1,
            demoted: 1,
            failed: 1
        })
    );
}

fn ctx() -> ReminderCtx {
    ReminderCtx {
        today: Date::from_ymd_opt(2026, 6, 1).unwrap(),
        signup_url: Some("https://dues.example".to_owned()),
        catchup_gap: Duration::from_secs(3600),
        pace: Duration::from_millis(250),
        accent: 7,
    }
}

fn due() -> DueReminder {
    DueReminder {
        id: DiscordUserId(42),
        milestone: Milestone::Days14,
        days_until: 14,
        membership_type: Some(MembershipType::Yearly),
    }
}

#[test]
fn a_new_thread_is_remembered_before_the_message_goes_out() {
    let (ctx, due) = (ctx(), due());
    let cycle = Date::from_ymd_opt(2026, 6, 15).unwrap();
    let step = |phase, event: SendEvent| send_reminder(&ctx, &due, phase, &event);
    let (phase, action) = step(SendPhase::Start, SendEvent::Asked);
    assert_eq!(action, SendAction::ReadState);
    let (phase, action) = step(phase, SendEvent::Read(None));
    assert_eq!(action, SendAction::CreateThread);
    let (phase, action) = step(phase, SendEvent::Created(900));
    assert_eq!(action, SendAction::Invite(900));
    let (phase, action) = step(phase, SendEvent::Finished);
    assert_eq!(action, SendAction::Remember(900, cycle));
    let (phase, action) = step(phase, SendEvent::Finished);
    assert_eq!(
        action,
        SendAction::ReadTemplate(ReminderTemplateKind::Yearly)
    );
    let (phase, action) = step(phase, SendEvent::Template(Some("Renew!".to_owned())));
    match action {
        SendAction::Send(900, post) => {
            assert_eq!(post.content, "<@42>");
            assert!(post.embed.description.unwrap().contains("Renew!"));
            assert!(matches!(post.row, Row::Buttons(bs) if bs.len() == 4));
        }
        other => panic!("{other:?}"),
    }
    let (phase, action) = step(phase, SendEvent::Finished);
    assert_eq!(
        action,
        SendAction::Record {
            thread: 900,
            cycle
        }
    );
    let (phase, action) = step(phase, SendEvent::Finished);
    assert_eq!(action, SendAction::Delivered);
    assert_eq!(phase, SendPhase::Done);
}

#[test]
fn a_known_thread_is_reused_and_a_failure_ends_the_delivery() {
    let (ctx, due) = (ctx(), due());
    let (phase, _) = send_reminder(&ctx, &due, SendPhase::Start, &SendEvent::Asked);
    let (phase, action) = send_reminder(&ctx, &due, phase, &SendEvent::Read(Some(5)));
    assert_eq!(
        action,
        SendAction::ReadTemplate(ReminderTemplateKind::Yearly)
    );
    let (phase, action) = send_reminder(&ctx, &due, phase, &SendEvent::Failed);
    assert_eq!(action, SendAction::Fail);
    assert_eq!(phase, SendPhase::Done);
}

#[test]
fn without_a_membership_type_only_an_expired_reminder_has_a_text() {
    let mut d = due();
    d.membership_type = None;
    assert_eq!(template_kind(&d), None);
    let (_, action) = send_reminder(&ctx(), &d, SendPhase::Start, &SendEvent::Asked);
    assert_eq!(action, SendAction::Skip);
    // However far away it is due.
    d.days_until = i64::MAX;
    let (_, action) = send_reminder(&ctx(), &d, SendPhase::Start, &SendEvent::Asked);
    assert_eq!(action, SendAction::Skip);
    d.milestone = Milestone::Expired;
    assert_eq!(template_kind(&d), Some(ReminderTemplateKind::Expired));
}

#[test]
fn a_pass_within_the_gap_is_timely() {
    let gap = Duration::from_secs(60);
    let now = 1_000_000_000;
    assert!(is_timely(None, now, gap));
    assert!(is_timely(Some(now - 60_000_000), now, gap));
    assert!(!is_timely(Some(now - 60_000_001), now, gap));
    // A last pass that lies ahead of the clock is no timely one.
    assert!(!is_timely(Some(now + 1), now, gap));
}

#[test]
fn a_sweep_goes_on_past_failures_and_is_recorded() {
    let c = ctx();
    let (s, action) = run_reminder_sweep(
        &c,
        Sweep::new(),
        SweepEvent::Began {
            last_run: None,
            now: 5,
        },
    );
    assert_eq!(action, SweepAction::Plan { timely: true });
    let (s, action) = run_reminder_sweep(&c, s, SweepEvent::Planned(Some(2)));
    assert_eq!(
        action,
        SweepAction::Deliver {
            index: 0,
            pause: false
        }
    );
    let (s, action) = run_reminder_sweep(&c, s, SweepEvent::Delivered(false));
    assert_eq!(
        action,
        SweepAction::Deliver {
            index: 1,
            pause: true
        }
    );
    let (s, action) = run_reminder_sweep(&c, s, SweepEvent::Delivered(true));
    assert_eq!(action, SweepAction::Record);
    let (_, action) = run_reminder_sweep(&c, s, SweepEvent::Recorded);
    assert_eq!(
        action,
        SweepAction::Complete(SweepCounts { sent: 1, failed: 1 })
    );
}

#[test]
fn only_the_member_may_press_their_buttons() {
    let press = |presser, id| on_component(Some(1), 1, presser, id);
    assert_eq!(
        press(42, "dues_snooze:42"),
        ReminderPress::Snooze(DiscordUserId(42))
    );
    assert_eq!(
        press(42, "dues_optout:42"),
        ReminderPress::OptOut(DiscordUserId(42))
    );
    assert_eq!(
        press(42, "dues_help:42"),
        ReminderPress::Help(DiscordUserId(42))
    );
    assert_eq!(press(43, "dues_snooze:42"), ReminderPress::NotYours);
    assert_eq!(press(42, "dues_snooze"), ReminderPress::Ignore);
    assert_eq!(press(42, "other:42"), ReminderPress::Ignore);
    assert_eq!(
        on_component(Some(2), 1, 42, "dues_snooze:42"),
        ReminderPress::Ignore
    );
}

#[test]
fn snoozes_and_opt_outs_are_answered_by_what_was_stored() {
    let cycle = Date::from_ymd_opt(2026, 6, 15).unwrap();
    assert_eq!(
        handle_snooze(SnoozeEvent::Read(Some(Some(cycle)))),
        SnoozeAction::Store(cycle)
    );
    assert_eq!(
        handle_snooze(SnoozeEvent::Read(None)),
        SnoozeAction::Answer(SAVE_TROUBLE)
    );
    assert_eq!(
        handle_snooze(SnoozeEvent::Read(Some(None))),
        SnoozeAction::Answer(SNOOZED)
    );
    assert_eq!(
        handle_snooze(SnoozeEvent::Stored(true)),
        SnoozeAction::Answer(SNOOZED)
    );
    assert_eq!(
        handle_snooze(SnoozeEvent::Stored(false)),
        SnoozeAction::Answer(SAVE_TROUBLE)
    );
    assert_eq!(handle_optout(true), OPTED_OUT);
    assert_eq!(handle_optout(false), SAVE_TROUBLE);
    let (text, pinged) = handle_help(Some(DiscordRoleId(7)), DiscordUserId(42));
    assert!(text.contains("<@42> asked for help renewing their membership."));
    assert!(text.contains("<@&7>"));
    assert_eq!(pinged, Some(DiscordRoleId(7)));
}

#[test]
fn only_a_web_link_becomes_a_renew_button() {
    assert!(is_http_signup_url("https://dues.example"));
    assert!(is_http_signup_url(" HTTP://dues.example "));
    assert!(!is_http_signup_url("javascript:alert(1)"));
    let count = |milestone, url| {
        reminder_buttons(milestone, url, DiscordUserId(1), false)
            .iter()
            .map(|b| matches!(b, Button::Link { .. }))
            .collect::<Vec<bool>>()
    };
    assert_eq!(
        count(Milestone::Days14, Some("https://d.example")),
        [true, false, false, false]
    );
    assert_eq!(count(Milestone::Expired, Some("ftp://d")), [false]);
    assert_eq!(count(Milestone::Day1, None), [false, false, false]);
}
