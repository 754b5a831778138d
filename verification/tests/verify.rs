use botonio_botsci::commands::forget::{forget, ForgetAction, ForgetEvent};
use botonio_botsci::commands::verify::{
    header, manual_verify_end, verify, verify_step, StepAction, StepContext, StepEvent, StepOutcome,
    StepPhase, VerifyAction, VerifyEvent, VerifyOutcome, CONFLICT_REPLY, LOOKUP_BUTTON_ID,
    OVERRIDE_BUTTON_ID,
};
use botonio_botsci::ids::Email;
use botonio_botsci::role::Role;
use botonio_botsci::ui::{press, Button, Row, Style};

fn context(extra: bool, override_role_set: bool) -> StepContext {
    StepContext {
        target: header(None, "rosy", "http://a/x.png"),
        message_id: 55,
        extra_buttons: if extra {
            vec![press("bulk_skip", "Skip", Style::Secondary)]
        } else {
            vec![]
        },
        override_role_set,
    }
}

fn pressed(id: &str) -> StepEvent {
    StepEvent::Pressed(id.to_owned())
}

#[test]
fn a_lookup_press_opens_the_email_form_for_this_message() {
    let cx = context(false, true);
    let (phase, action) = verify_step(&cx, StepPhase::AwaitPress, &pressed(LOOKUP_BUTTON_ID));
    assert_eq!(phase, StepPhase::AwaitEmail);
    match action {
        StepAction::Open(m) => {
            assert_eq!(m.id, "verify_email_modal:55");
            assert_eq!(m.title, "Verify rosy");
        }
        other => panic!("{other:?}"),
    }
}

#[test]
fn a_skip_after_a_dismissed_form_goes_back_to_the_wizard() {
    let cx = context(true, true);
    let (phase, action) = verify_step(&cx, StepPhase::AwaitEmail, &pressed("bulk_skip"));
    assert_eq!(phase, StepPhase::Finished);
    assert_eq!(action, StepAction::HandBack);
    // The form's own button opens it again.
    let (phase, action) = verify_step(&cx, StepPhase::AwaitEmail, &pressed(LOOKUP_BUTTON_ID));
    assert_eq!(phase, StepPhase::AwaitEmail);
    assert!(matches!(action, StepAction::Open(_)));
    // The other form's button opens the other form.
    let (phase, action) = verify_step(&cx, StepPhase::AwaitEmail, &pressed(OVERRIDE_BUTTON_ID));
    assert_eq!(phase, StepPhase::AwaitReason);
    assert!(matches!(action, StepAction::Open(m) if m.id == "verify_override_modal:55"));
}

#[test]
fn a_typo_and_a_miss_keep_the_exchange_open() {
    let cx = context(true, true);
    let (phase, action) = verify_step(
        &cx,
        StepPhase::AwaitEmail,
        &StepEvent::Submitted("not-an-email".to_owned()),
    );
    assert_eq!(phase, StepPhase::AwaitPress);
    assert!(matches!(action, StepAction::Show(_, Row::Buttons(bs)) if bs.len() == 2));
    let (phase, action) = verify_step(
        &cx,
        StepPhase::AwaitEmail,
        &StepEvent::Submitted(" rosy@example.com ".to_owned()),
    );
    assert_eq!(phase, StepPhase::LookingUp);
    assert_eq!(
        action,
        StepAction::LookUp(Email("rosy@example.com".to_owned()))
    );
    let (phase, action) = verify_step(
        &cx,
        StepPhase::LookingUp,
        &StepEvent::LookedUp(Some(VerifyOutcome::NotFound)),
    );
    assert_eq!(phase, StepPhase::AwaitPress);
    // After a miss, approval by hand is offered too.
    match action {
        StepAction::Show(_, Row::Buttons(bs)) => {
            let labels: Vec<String> = bs
                .iter()
                .map(|b| match b {
                    Button::Press { label, .. } => label.clone(),
                    Button::Link { label, .. } => label.clone(),
                })
                .collect();
            assert_eq!(labels, ["Look up by email", "Override and approve", "Skip"]);
        }
        other => panic!("{other:?}"),
    }
}

fn ended(event: StepEvent, phase: StepPhase) -> StepOutcome {
    match verify_step(&context(false, true), phase, &event) {
        (StepPhase::Finished, StepAction::Finish(outcome, _)) => outcome,
        other => panic!("{other:?}"),
    }
}

#[test]
fn each_end_has_its_outcome() {
    assert_eq!(
        ended(
            StepEvent::LookedUp(Some(VerifyOutcome::Verified(Role::DuesExpired))),
            StepPhase::LookingUp
        ),
        StepOutcome::Verified(Role::DuesExpired)
    );
    assert_eq!(
        ended(
            StepEvent::LookedUp(Some(VerifyOutcome::Conflict)),
            StepPhase::LookingUp
        ),
        StepOutcome::Conflict
    );
    assert_eq!(
        ended(StepEvent::LookedUp(None), StepPhase::LookingUp),
        StepOutcome::Errored
    );
    assert_eq!(
        ended(StepEvent::Approved(true), StepPhase::Approving),
        StepOutcome::Overridden
    );
    assert_eq!(
        ended(StepEvent::Approved(false), StepPhase::Approving),
        StepOutcome::Errored
    );
    assert_eq!(
        ended(StepEvent::Idle, StepPhase::AwaitReason),
        StepOutcome::Expired
    );
    let (_, action) = verify_step(
        &context(false, false),
        StepPhase::AwaitPress,
        &pressed(OVERRIDE_BUTTON_ID),
    );
    assert!(matches!(
        action,
        StepAction::Finish(StepOutcome::Errored, Some(_))
    ));
}

#[test]
fn a_reason_is_optional() {
    let cx = context(false, true);
    let (_, action) = verify_step(
        &cx,
        StepPhase::AwaitReason,
        &StepEvent::Submitted("  ".to_owned()),
    );
    assert_eq!(action, StepAction::Approve(None));
    let (phase, action) = verify_step(
        &cx,
        StepPhase::AwaitReason,
        &StepEvent::Submitted(" vouched ".to_owned()),
    );
    assert_eq!(phase, StepPhase::Approving);
    assert_eq!(action, StepAction::Approve(Some("vouched".to_owned())));
}

#[test]
fn verify_answers_a_match_and_hosts_the_rest() {
    let target = header(Some("Rosy the Rascal"), "rosy", "http://a/x.png");
    assert_eq!(
        verify(
            &target,
            VerifyEvent::Invoked {
                is_moderator: false,
                roles_configured: true
            }
        ),
        VerifyAction::Reply("That command is for moderators only.".to_owned())
    );
    assert_eq!(
        verify(
            &target,
            VerifyEvent::Invoked {
                is_moderator: true,
                roles_configured: true
            }
        ),
        VerifyAction::Match
    );
    match verify(
        &target,
        VerifyEvent::Matched(Some(VerifyOutcome::Verified(Role::Member))),
    ) {
        VerifyAction::Reply(s) => assert!(s.contains("Member"), "{s}"),
        other => panic!("{other:?}"),
    }
    assert_eq!(
        verify(
            &target,
            VerifyEvent::Matched(Some(VerifyOutcome::Conflict))
        ),
        VerifyAction::Reply(CONFLICT_REPLY.to_owned())
    );
    assert!(matches!(
        verify(
            &target,
            VerifyEvent::Matched(Some(VerifyOutcome::Unverified))
        ),
        VerifyAction::StartManual(_, _)
    ));
    let expired = manual_verify_end(&target, StepOutcome::Expired).unwrap();
    assert!(expired.description.unwrap().contains("timed out"));
    assert_eq!(manual_verify_end(&target, StepOutcome::Conflict), None);
}

#[test]
fn forget_is_for_moderators_and_reports() {
    let invoked = |is_moderator, roles_configured| {
        forget(
            "rosy",
            ForgetEvent::Invoked {
                is_moderator,
                roles_configured,
            },
        )
    };
    assert_eq!(
        invoked(false, true),
        ForgetAction::Reply("That command is for moderators only.".to_owned())
    );
    assert!(matches!(invoked(true, false), ForgetAction::Reply(_)));
    assert_eq!(invoked(true, true), ForgetAction::Reset);
    assert_eq!(
        forget("rosy", ForgetEvent::Reset(true)),
        ForgetAction::Reply("Reset rosy to an unverified, unlinked state.".to_owned())
    );
    assert_eq!(
        forget("rosy", ForgetEvent::Reset(false)),
        ForgetAction::Reply("Something went wrong resetting that member.".to_owned())
    );
}
