use botonio_botsci::commands::bulk_verify::{
    bulk_verify, is_not_found, run_wizard, BulkAction, BulkEvent, BulkMember, BulkPhase, BulkRun,
    FoundSession, Onward, ResyncOutcome, ScopeChoice, WizardAction, WizardEvent, WizardRun,
    APPLY_BUTTON_ID, CANCEL_BUTTON_ID, PREVIEW_CANCEL_BUTTON_ID, RESUME_BUTTON_ID, SKIP_BUTTON_ID,
    START_OVER_BUTTON_ID, STOP_BUTTON_ID,
};
use botonio_botsci::commands::verify::{header, StepOutcome};
use botonio_botsci::ids::{DiscordGuildId, DiscordUserId};
use botonio_botsci::role::Role;
use botonio_botsci::store::{BulkScope, BulkStatus, MissCounts, MissState, PreviewTally};
use botonio_botsci::ui::{Button, Row};

fn run(choice: Option<ScopeChoice>) -> BulkRun {
    BulkRun::new(DiscordGuildId(1), DiscordUserId(99), choice)
}

fn invoked() -> BulkEvent {
    BulkEvent::Invoked {
        is_moderator: true,
        roles_configured: true,
    }
}

fn pressed(id: &str) -> BulkEvent {
    BulkEvent::Pressed {
        id: id.to_owned(),
        at: 777,
    }
}

fn session(stale: bool) -> FoundSession {
    FoundSession {
        scope: BulkScope::WholeGuild,
        started_by: DiscordUserId(5),
        status: BulkStatus::InProgress,
        stale,
    }
}

fn member(id: u64) -> BulkMember {
    BulkMember {
        id: DiscordUserId(id),
        handle: format!("m{id}"),
    }
}

fn tally() -> PreviewTally {
    PreviewTally {
        scanned: 0,
        matched: vec![],
        unchanged: 0,
        misses: 0,
        conflicts: 0,
    }
}

fn to_confirming(r: &mut BulkRun, members: Vec<BulkMember>) {
    bulk_verify(r, invoked());
    bulk_verify(r, BulkEvent::Loaded(None));
    assert_eq!(
        bulk_verify(r, BulkEvent::Enumerated(Some(members))),
        BulkAction::Preview
    );
    assert!(matches!(
        bulk_verify(r, BulkEvent::Previewed(tally())),
        BulkAction::Confirm(_, _)
    ));
}

#[test]
fn only_a_moderator_with_roles_set_gets_past_the_door() {
    let mut r = run(None);
    let refused = bulk_verify(
        &mut r,
        BulkEvent::Invoked {
            is_moderator: false,
            roles_configured: true,
        },
    );
    assert_eq!(
        refused,
        BulkAction::Reply("That command is for moderators only.".to_owned())
    );
    assert_eq!(bulk_verify(&mut r, invoked()), BulkAction::Ignore);
    let mut r = run(None);
    let refused = bulk_verify(
        &mut r,
        BulkEvent::Invoked {
            is_moderator: true,
            roles_configured: false,
        },
    );
    assert_eq!(
        refused,
        BulkAction::Reply(
            "Roles are not configured yet - a server manager needs to run /setup first.".to_owned()
        )
    );
}

#[test]
fn a_choice_picks_the_scope() {
    assert_eq!(run(None).scope, BulkScope::UnmanagedOnly);
    assert_eq!(run(Some(ScopeChoice::Unmanaged)).scope, BulkScope::UnmanagedOnly);
    assert_eq!(run(Some(ScopeChoice::WholeGuild)).scope, BulkScope::WholeGuild);
}

#[test]
fn a_stale_session_is_dropped_and_a_live_one_offered() {
    let mut r = run(None);
    bulk_verify(&mut r, invoked());
    assert_eq!(
        bulk_verify(&mut r, BulkEvent::Loaded(Some(session(true)))),
        BulkAction::AbandonSession
    );
    assert!(matches!(
        bulk_verify(&mut r, BulkEvent::Abandoned),
        BulkAction::Sweep {
            reuse_message: false,
            scope: BulkScope::UnmanagedOnly,
            ..
        }
    ));
    let mut r = run(None);
    bulk_verify(&mut r, invoked());
    assert_eq!(
        bulk_verify(&mut r, BulkEvent::Loaded(Some(session(false)))),
        BulkAction::CountMisses
    );
    let counts = MissCounts {
        pending: 4,
        verified: 0,
        skipped: 0,
    };
    let (embed, row) = match bulk_verify(&mut r, BulkEvent::Counted(counts)) {
        BulkAction::Offer(e, row) => (e, row),
        other => panic!("{other:?}"),
    };
    assert!(embed.description.unwrap().contains("4 members still pending"));
    assert!(matches!(row, Row::Buttons(bs) if bs.len() == 3));
}

fn offered() -> BulkRun {
    let mut r = run(None);
    bulk_verify(&mut r, invoked());
    bulk_verify(&mut r, BulkEvent::Loaded(Some(session(false))));
    bulk_verify(
        &mut r,
        BulkEvent::Counted(MissCounts {
            pending: 1,
            verified: 0,
            skipped: 0,
        }),
    );
    r
}

#[test]
fn the_offer_resumes_restarts_or_cancels() {
    assert_eq!(
        bulk_verify(&mut offered(), pressed(CANCEL_BUTTON_ID)),
        BulkAction::Say("Cancelled.".to_owned())
    );
    assert_eq!(bulk_verify(&mut offered(), BulkEvent::Idle), BulkAction::Stop);
    assert!(matches!(
        bulk_verify(&mut offered(), pressed(RESUME_BUTTON_ID)),
        BulkAction::EnterWizard { assigned, .. } if assigned.is_empty()
    ));
    let mut r = offered();
    assert_eq!(
        bulk_verify(&mut r, pressed(START_OVER_BUTTON_ID)),
        BulkAction::AbandonSession
    );
    assert!(matches!(
        bulk_verify(&mut r, BulkEvent::Abandoned),
        BulkAction::Sweep {
            reuse_message: true,
            ..
        }
    ));
}

#[test]
fn nothing_is_written_before_the_preview_is_confirmed() {
    let mut r = run(None);
    to_confirming(&mut r, vec![member(1)]);
    assert_eq!(
        bulk_verify(&mut r, pressed(PREVIEW_CANCEL_BUTTON_ID)),
        BulkAction::Say("Cancelled.".to_owned())
    );
    let mut r = run(None);
    to_confirming(&mut r, vec![member(1)]);
    assert_eq!(bulk_verify(&mut r, BulkEvent::Idle), BulkAction::Stop);
    let mut r = run(None);
    bulk_verify(&mut r, invoked());
    bulk_verify(&mut r, BulkEvent::Loaded(None));
    assert_eq!(
        bulk_verify(&mut r, BulkEvent::Enumerated(None)),
        BulkAction::Say(
            "Failed to fetch the member list. Please try again in a moment.".to_owned()
        )
    );
}

#[test]
fn every_member_is_applied_once_and_only_misses_are_queued() {
    let mut r = run(None);
    to_confirming(&mut r, (1..=7).map(member).collect());
    let mut action = bulk_verify(&mut r, pressed(APPLY_BUTTON_ID));
    let outcomes = [
        ResyncOutcome::Changed(Role::Member),
        ResyncOutcome::Miss {
            already_unverified: false,
        },
        ResyncOutcome::Failed,
        ResyncOutcome::Unchanged(Role::Member),
        ResyncOutcome::Miss {
            already_unverified: true,
        },
        ResyncOutcome::Conflict,
        ResyncOutcome::Changed(Role::Member),
    ];
    let mut pauses = vec![];
    let mut shown = vec![];
    for (i, outcome) in outcomes.iter().enumerate() {
        match &action {
            BulkAction::Advance {
                onward: Onward::Resync(at),
                ..
            } => assert_eq!(*at, i),
            other => panic!("{other:?}"),
        }
        action = bulk_verify(&mut r, BulkEvent::Resynced(*outcome));
        match &action {
            BulkAction::Advance {
                progress, pause, ..
            } => {
                pauses.push(*pause);
                if let Some(e) = progress {
                    shown.push(e.description.clone().unwrap());
                }
            }
            other => panic!("{other:?}"),
        }
    }
    assert_eq!(pauses, [true, true, false, false, false, false, true]);
    assert_eq!(shown.len(), 2);
    assert!(shown[0].contains("1 / 7"));
    assert!(shown[1].contains("6 / 7"));
    let saved = match action {
        BulkAction::Advance {
            onward: Onward::Save(s),
            ..
        } => s,
        other => panic!("{other:?}"),
    };
    assert_eq!(saved.started_by, DiscordUserId(99));
    assert_eq!(saved.created_at, 777);
    assert_eq!(saved.updated_at, 777);
    let queue: Vec<(u64, u64)> = r
        .queue
        .iter()
        .map(|m| (m.discord_user_id.0, m.position))
        .collect();
    assert_eq!(queue, [(2, 0), (5, 1)]);
    assert!(r.queue.iter().all(|m| m.state == MissState::Pending));
    assert_eq!(
        bulk_verify(&mut r, BulkEvent::Saved),
        BulkAction::EnterWizard {
            progress: None,
            assigned: vec![
                (Role::Member, 2),
                (Role::DuesExpired, 0),
                (Role::Unverified, 0)
            ],
        }
    );
    assert_eq!(r.phase, BulkPhase::Done);
}

#[test]
fn a_broken_store_ends_the_run() {
    let mut r = run(None);
    bulk_verify(&mut r, invoked());
    assert_eq!(bulk_verify(&mut r, BulkEvent::Broke), BulkAction::Fail);
    assert_eq!(r.phase, BulkPhase::Done);
}

fn stepping() -> WizardRun {
    let mut w = WizardRun::new(vec![]);
    let counts = MissCounts {
        pending: 2,
        verified: 3,
        skipped: 1,
    };
    assert_eq!(
        run_wizard(&mut w, WizardEvent::Counted(counts)),
        WizardAction::NextPending
    );
    assert_eq!(
        run_wizard(&mut w, WizardEvent::Found(Some((DiscordUserId(8), 4)))),
        WizardAction::CheckMember(DiscordUserId(8))
    );
    assert_eq!(
        run_wizard(
            &mut w,
            WizardEvent::Alive {
                still_pending: true
            }
        ),
        WizardAction::FetchMember(DiscordUserId(8))
    );
    let action = run_wizard(
        &mut w,
        WizardEvent::Fetched(header(Some("Sonic"), "sonic_hedgehog", "http://a/s.png")),
    );
    match action {
        WizardAction::RunStep {
            embed,
            row: Row::Buttons(bs),
            extra_buttons,
        } => {
            assert!(embed.title.unwrap().contains("5 of 6"));
            let ids: Vec<String> = bs
                .iter()
                .map(|b| match b {
                    Button::Press { id, .. } => id.clone(),
                    Button::Link { url, .. } => url.clone(),
                })
                .collect();
            assert_eq!(ids, ["verify_lookup_email", SKIP_BUTTON_ID, STOP_BUTTON_ID]);
            assert_eq!(extra_buttons.len(), 2);
        }
        other => panic!("{other:?}"),
    }
    w
}

fn stepped(outcome: StepOutcome, press: Option<&str>) -> WizardAction {
    run_wizard(
        &mut stepping(),
        WizardEvent::Stepped(outcome, press.map(str::to_owned)),
    )
}

#[test]
fn each_step_outcome_becomes_a_decision() {
    let mark = |state, acknowledge| WizardAction::Mark {
        user: DiscordUserId(8),
        state,
        acknowledge,
    };
    assert_eq!(
        stepped(StepOutcome::Verified(Role::Member), None),
        mark(MissState::Verified, false)
    );
    assert_eq!(
        stepped(StepOutcome::Overridden, None),
        mark(MissState::Verified, false)
    );
    assert_eq!(
        stepped(StepOutcome::NotFoundExhausted, Some(SKIP_BUTTON_ID)),
        mark(MissState::Skipped, true)
    );
    assert_eq!(
        stepped(StepOutcome::NotFoundExhausted, Some(STOP_BUTTON_ID)),
        WizardAction::Pause { acknowledge: true }
    );
    assert_eq!(
        stepped(StepOutcome::Expired, None),
        WizardAction::Pause { acknowledge: false }
    );
    assert_eq!(
        stepped(StepOutcome::Conflict, None),
        mark(MissState::Skipped, false)
    );
    assert_eq!(
        stepped(StepOutcome::Errored, None),
        mark(MissState::Skipped, false)
    );
}

#[test]
fn a_member_who_left_is_skipped_but_a_blip_pauses() {
    assert!(is_not_found(Some(404)));
    assert!(!is_not_found(Some(500)));
    assert!(!is_not_found(None));
    let checking = || {
        let mut w = WizardRun::new(vec![]);
        run_wizard(
            &mut w,
            WizardEvent::Counted(MissCounts {
                pending: 1,
                verified: 0,
                skipped: 0,
            }),
        );
        run_wizard(&mut w, WizardEvent::Found(Some((DiscordUserId(8), 0))));
        w
    };
    let skipped = WizardAction::Mark {
        user: DiscordUserId(8),
        state: MissState::Skipped,
        acknowledge: false,
    };
    assert_eq!(
        run_wizard(&mut checking(), WizardEvent::Unreadable(Some(404))),
        skipped
    );
    assert_eq!(
        run_wizard(&mut checking(), WizardEvent::Unreadable(Some(502))),
        WizardAction::Pause { acknowledge: false }
    );
    assert_eq!(
        run_wizard(
            &mut checking(),
            WizardEvent::Alive {
                still_pending: false
            }
        ),
        skipped
    );
}

#[test]
fn an_empty_queue_closes_the_session_and_sums_up() {
    let mut w = WizardRun::new(vec![(Role::Member, 8)]);
    let counts = MissCounts {
        pending: 0,
        verified: 3,
        skipped: 1,
    };
    run_wizard(&mut w, WizardEvent::Counted(counts));
    assert_eq!(
        run_wizard(&mut w, WizardEvent::Found(None)),
        WizardAction::CompleteSession
    );
    assert_eq!(
        run_wizard(&mut w, WizardEvent::Completed),
        WizardAction::CountMisses
    );
    match run_wizard(&mut w, WizardEvent::Counted(counts)) {
        WizardAction::Summarize(e) => {
            assert!(e.description.unwrap().contains("Verified from queue: 3"))
        }
        other => panic!("{other:?}"),
    }
}
