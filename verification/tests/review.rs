use botonio_botsci::clock::{Duration, Instant};
use botonio_botsci::ids::{DiscordChannelId, DiscordRoleId, DiscordUserId, Email};
use botonio_botsci::lookup::RateLimiter;
use botonio_botsci::render::self_verify::{review_request, ReviewReason};
use botonio_botsci::role::Role;
use botonio_botsci::self_verify::{
    clicker_is_moderator, field_from_post, finish_submit, format_submitted_name, on_component,
    on_modal, on_submit, override_form, parse_target, review_open_override, review_override_submit,
    review_reject, review_reverify, take_submission, ApproveEvent, ApprovePhase, ComponentRoute, EmailGrant,
    ModalRoute, OverrideAction, Resolution, ReverifyEvent, ReverifyPhase, ReviewAction, ReviewDesk,
    Submission, SubmitAction, BACKEND_ERROR, EMAIL_UNREADABLE, MEMBER_UNLOADABLE, MODERATORS_ACT,
    NO_OVERRIDE_ROLE, RATE_LIMITED, STILL_NO_MATCH, SUCCESS, UNIFORM_FAILURE,
};
use botonio_botsci::store::GuildConfig;
use botonio_botsci::ui::{Button, Row};

fn submission(email: &str) -> Submission {
    Submission {
        member: DiscordUserId(42),
        handle: "rosy".to_owned(),
        email: email.to_owned(),
        first: "Rosy".to_owned(),
        last_initial: "R".to_owned(),
    }
}

fn desk() -> ReviewDesk {
    ReviewDesk {
        moderator: DiscordUserId(9),
        approval_channel: Some(DiscordChannelId(3)),
        log_channel: Some(DiscordChannelId(4)),
        accent: 7,
    }
}

fn config() -> GuildConfig {
    GuildConfig {
        mod_approval_channel: Some(DiscordChannelId(3)),
        verification_log_channel: Some(DiscordChannelId(4)),
        ..Default::default()
    }
}

#[test]
fn the_review_buttons_reach_their_member() {
    let (embed, row) = review_request(
        DiscordUserId(42),
        "rosy",
        "Rosy R",
        "rosy@example.com",
        ReviewReason::NotFound,
        7,
    );
    assert_eq!(
        field_from_post(&embed.fields, "Email"),
        Some("rosy@example.com")
    );
    let buttons = match row {
        Row::Buttons(bs) => bs,
        other => panic!("{other:?}"),
    };
    let routes: Vec<ComponentRoute> = buttons
        .iter()
        .map(|b| match b {
            Button::Press { id, .. } => on_component(Some(1), 1, id),
            Button::Link { .. } => ComponentRoute::Ignore,
        })
        .collect();
    assert_eq!(
        routes,
        [
            ComponentRoute::Reverify("42".to_owned()),
            ComponentRoute::Override("42".to_owned()),
            ComponentRoute::Reject
        ]
    );
    assert_eq!(parse_target("42"), Some(DiscordUserId(42)));
    assert_eq!(parse_target("x"), None);
}

#[test]
fn interactions_from_elsewhere_are_ignored() {
    assert_eq!(
        on_component(Some(1), 1, "selfverify_open"),
        ComponentRoute::OpenForm
    );
    assert_eq!(
        on_component(Some(2), 1, "selfverify_open"),
        ComponentRoute::Ignore
    );
    assert_eq!(
        on_component(None, 1, "selfverify_open"),
        ComponentRoute::Ignore
    );
    assert_eq!(on_modal(Some(1), 1, "selfverify_submit"), ModalRoute::Submit);
    assert_eq!(on_modal(Some(2), 1, "selfverify_submit"), ModalRoute::Ignore);
    assert_eq!(on_modal(Some(1), 1, "other:1"), ModalRoute::Ignore);
}

#[test]
fn the_first_look_at_a_submission() {
    let s = submission(" rosy@example.com ");
    assert_eq!(
        on_submit(&s, false, true),
        SubmitAction::Reply(RATE_LIMITED)
    );
    assert_eq!(
        on_submit(&s, true, false),
        SubmitAction::Reply(BACKEND_ERROR)
    );
    assert_eq!(
        on_submit(&submission("nope"), true, true),
        SubmitAction::Reply(UNIFORM_FAILURE)
    );
    assert_eq!(
        on_submit(&s, true, true),
        SubmitAction::Verify(Email("rosy@example.com".to_owned()))
    );
}

#[test]
fn a_submission_spends_its_own_members_allowance() {
    let mut limiter = RateLimiter::new(1);
    let now = Instant::at(Duration::from_secs(5));
    let s = submission("rosy@example.com");
    assert_eq!(
        take_submission(&s, &mut limiter, now, true),
        SubmitAction::Verify(Email("rosy@example.com".to_owned()))
    );
    assert_eq!(
        take_submission(&s, &mut limiter, now, true),
        SubmitAction::Reply(RATE_LIMITED)
    );
    let mut other = submission("nope");
    other.member = DiscordUserId(s.member.0 + 1);
    // One that comes to nothing spends too.
    assert_eq!(
        take_submission(&other, &mut limiter, now, true),
        SubmitAction::Reply(UNIFORM_FAILURE)
    );
    assert_eq!(
        take_submission(&other, &mut limiter, now, true),
        SubmitAction::Reply(RATE_LIMITED)
    );
}

#[test]
fn every_miss_is_answered_alike_and_sent_to_the_moderators() {
    let s = submission("rosy@example.com");
    let email = Email("rosy@example.com".to_owned());
    for grant in [
        EmailGrant::Malformed,
        EmailGrant::Conflict,
        EmailGrant::NotFound,
    ] {
        let end = finish_submit(&s, &email, &Some(grant.clone()), &config(), 7);
        assert_eq!(end.reply, UNIFORM_FAILURE);
        assert_eq!(end.log, None);
        assert_eq!(end.review.unwrap().0, DiscordChannelId(3));
        let quiet = finish_submit(&s, &email, &Some(grant), &GuildConfig::default(), 7);
        assert_eq!(quiet.reply, UNIFORM_FAILURE);
        assert_eq!(quiet.review, None);
    }
    let end = finish_submit(&s, &email, &None, &config(), 7);
    assert_eq!(end.reply, BACKEND_ERROR);
    assert_eq!(end.review, None);
}

#[test]
fn a_grant_is_logged_and_a_name_mismatch_flagged() {
    let s = submission("rosy@example.com");
    let email = Email("rosy@example.com".to_owned());
    let granted = |name: Option<&str>| {
        let grant = EmailGrant::Verified {
            role: Role::Member,
            record_name: name.map(str::to_owned),
        };
        finish_submit(&s, &email, &Some(grant), &config(), 7)
    };
    let fine = granted(Some("Rosy Rascal"));
    assert_eq!(fine.reply, SUCCESS);
    assert_eq!(fine.review, None);
    let (channel, clean) = fine.log.unwrap();
    assert_eq!(channel, DiscordChannelId(4));
    let (_, flagged) = granted(Some("Shadow Hedgehog")).log.unwrap();
    assert_ne!(clean, flagged);
    assert!(granted(None).log.is_some());
}

#[test]
fn a_blank_name_reads_not_given() {
    assert_eq!(format_submitted_name(" Rosy ", " R "), "Rosy R");
    assert_eq!(format_submitted_name("", "R"), "R");
    assert_eq!(format_submitted_name(" ", ""), "(not given)");
}

fn pressed(is_moderator: bool, email: Option<&str>) -> ReverifyEvent {
    ReverifyEvent::Pressed {
        is_moderator,
        roles_configured: true,
        arg: "42".to_owned(),
        message_id: 77,
        email: email.map(str::to_owned),
    }
}

#[test]
fn a_recheck_that_verifies_resolves_its_request() {
    let d = desk();
    let (phase, action) =
        review_reverify(&d, ReverifyPhase::Start, &pressed(true, Some("a@b.example")));
    assert_eq!(action, ReviewAction::Load(DiscordUserId(42)));
    let (phase, action) = review_reverify(
        &d,
        phase,
        &ReverifyEvent::Loaded(Some("rosy".to_owned())),
    );
    assert_eq!(
        action,
        ReviewAction::Match(DiscordUserId(42), Email("a@b.example".to_owned()))
    );
    let grant = EmailGrant::Verified {
        role: Role::Member,
        record_name: None,
    };
    let (_, action) = review_reverify(
        &d,
        phase.clone(),
        &ReverifyEvent::Matched(Some(grant)),
    );
    match action {
        ReviewAction::Grant {
            resolution,
            log,
            reply,
        } => {
            assert_eq!(
                resolution,
                Some(Resolution {
                    channel: DiscordChannelId(3),
                    message_id: 77,
                    banner: "Approved by re-verify by <@9>.".to_owned()
                })
            );
            assert_eq!(log.unwrap().0, DiscordChannelId(4));
            assert!(reply.starts_with("Verified - granted "), "{reply}");
        }
        other => panic!("{other:?}"),
    }
    let matched = |outcome| review_reverify(&d, phase.clone(), &ReverifyEvent::Matched(outcome)).1;
    assert_eq!(
        matched(Some(EmailGrant::Conflict)),
        ReviewAction::Deny(STILL_NO_MATCH.to_owned())
    );
    assert_eq!(matched(None), ReviewAction::Deny(BACKEND_ERROR.to_owned()));
}

#[test]
fn a_recheck_is_refused_in_words() {
    let d = desk();
    let start = |event: ReverifyEvent| review_reverify(&d, ReverifyPhase::Start, &event).1;
    assert_eq!(
        start(pressed(false, Some("a@b.example"))),
        ReviewAction::Deny(MODERATORS_ACT.to_owned())
    );
    assert_eq!(
        start(pressed(true, None)),
        ReviewAction::Deny(EMAIL_UNREADABLE.to_owned())
    );
    assert_eq!(
        start(pressed(true, Some("nope"))),
        ReviewAction::Deny(EMAIL_UNREADABLE.to_owned())
    );
    let unset = ReverifyEvent::Pressed {
        is_moderator: true,
        roles_configured: false,
        arg: "42".to_owned(),
        message_id: 77,
        email: Some("a@b.example".to_owned()),
    };
    assert_eq!(start(unset), ReviewAction::Deny(BACKEND_ERROR.to_owned()));
    let (phase, _) =
        review_reverify(&d, ReverifyPhase::Start, &pressed(true, Some("a@b.example")));
    let (_, action) = review_reverify(&d, phase, &ReverifyEvent::Loaded(None));
    assert_eq!(action, ReviewAction::Deny(MEMBER_UNLOADABLE.to_owned()));
}

#[test]
fn an_override_resolves_the_request_it_was_opened_for() {
    let d = desk();
    assert_eq!(
        review_open_override(true, "42", true),
        OverrideAction::Load(DiscordUserId(42))
    );
    assert_eq!(
        review_open_override(true, "42", false),
        OverrideAction::Deny(NO_OVERRIDE_ROLE)
    );
    assert_eq!(
        review_open_override(false, "42", true),
        OverrideAction::Deny(MODERATORS_ACT)
    );
    assert_eq!(review_open_override(true, "x", true), OverrideAction::Stop);
    let form = override_form(DiscordUserId(42), None, 77);
    let rest = match on_modal(Some(1), 1, &form.id) {
        ModalRoute::OverrideSubmit(rest) => rest,
        other => panic!("{other:?}"),
    };
    let (phase, action) = review_override_submit(
        &d,
        ApprovePhase::Start,
        &ApproveEvent::Submitted {
            is_moderator: true,
            rest,
            roles_configured: true,
        },
    );
    assert_eq!(action, ReviewAction::Load(DiscordUserId(42)));
    let (phase, action) = review_override_submit(
        &d,
        phase,
        &ApproveEvent::Loaded {
            handle: Some("rosy".to_owned()),
            reason: " vouched ".to_owned(),
        },
    );
    assert_eq!(
        action,
        ReviewAction::Approve(DiscordUserId(42), Some("vouched".to_owned()))
    );
    let (_, action) = review_override_submit(&d, phase, &ApproveEvent::Written(true));
    match action {
        ReviewAction::Grant { resolution, .. } => {
            let r = resolution.unwrap();
            assert_eq!(r.message_id, 77);
            assert_eq!(r.banner, "Approved by manual override by <@9>.");
        }
        other => panic!("{other:?}"),
    }
}

#[test]
fn a_rejection_keeps_the_post_and_heads_it() {
    let mut d = desk();
    assert_eq!(review_reject(&d, false, 77), Err(MODERATORS_ACT));
    let r = review_reject(&d, true, 77).unwrap().unwrap();
    assert_eq!(r.banner, "Rejected by <@9>.");
    d.approval_channel = None;
    assert_eq!(review_reject(&d, true, 77), Ok(None));
}

#[test]
fn without_a_moderator_role_nobody_is_one() {
    let held = vec![DiscordRoleId(1), DiscordRoleId(2)];
    assert!(clicker_is_moderator(Some(DiscordRoleId(2)), Some(&held)));
    assert!(!clicker_is_moderator(Some(DiscordRoleId(3)), Some(&held)));
    assert!(!clicker_is_moderator(None, Some(&held)));
    assert!(!clicker_is_moderator(Some(DiscordRoleId(2)), None));
}
