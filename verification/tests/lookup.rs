use botonio_botsci::clock::{Duration, Instant};
use botonio_botsci::commands::card::{
    render_outcome, show_card, CardReply, OwnRecord, NO_OWN_RECORD, NO_SUCH_RECORD, TOO_QUICK,
};
use botonio_botsci::commands::refresh_cache::{
    refresh_cache, report_text, RefreshCacheAction, RefreshCacheEvent,
};
use botonio_botsci::dates::Date;
use botonio_botsci::ids::{DiscordUserId, Email, StUserId};
use botonio_botsci::lookup::{
    lookup, CardView, LookupAction, LookupEvent, LookupOutcome, LookupPhase, LookupRow, RateLimiter,
};
use botonio_botsci::refresh::{
    refresh_once, Cooldown, RefreshAction, RefreshEvent, RefreshReport, REFRESH_COOLDOWN_SECS,
};
use botonio_botsci::store::{MemberRecord, OverrideRecord};

fn at(secs: u64) -> Instant {
    Instant::at(Duration::from_secs(secs))
}

#[test]
fn allows_up_to_the_ceiling_then_refuses() {
    let mut limiter = RateLimiter::new(3);
    let now = at(1_000);
    let who = DiscordUserId(7);
    assert!(limiter.check(who, now));
    assert!(limiter.check(who, now));
    assert!(limiter.check(who, now));
    // Fourth in the same window is refused.
    assert!(!limiter.check(who, now));
}

#[test]
fn window_resets_after_a_minute() {
    let mut limiter = RateLimiter::new(1);
    let who = DiscordUserId(7);
    assert!(limiter.check(who, at(1_000)));
    assert!(!limiter.check(who, at(1_000))); // spent
    // A minute later the allowance is fresh.
    assert!(limiter.check(who, at(1_061)));
}

#[test]
fn limits_are_per_moderator() {
    let mut limiter = RateLimiter::new(1);
    let now = at(1_000);
    assert!(limiter.check(DiscordUserId(1), now));
    // A different moderator has their own allowance.
    assert!(limiter.check(DiscordUserId(2), now));
}

#[test]
fn the_window_ends_exactly_on_the_minute_and_refusals_do_not_extend_it() {
    let mut limiter = RateLimiter::new(1);
    let who = DiscordUserId(7);
    assert!(limiter.check(who, at(0)));
    assert!(!limiter.check(who, at(59)));
    assert!(limiter.check(who, at(60)));
}

fn ask(limiter: &mut RateLimiter, invoker: u64, target: u64, is_moderator: bool) -> (LookupPhase, LookupAction) {
    lookup(
        limiter,
        LookupPhase::Start,
        LookupEvent::Asked {
            invoker: DiscordUserId(invoker),
            target: DiscordUserId(target),
            is_moderator,
            now: at(5),
        },
    )
}

fn row(outcome: &'static str) -> LookupRow {
    LookupRow {
        actor: DiscordUserId(1),
        subject: DiscordUserId(2),
        action: "card_lookup",
        outcome,
    }
}

#[test]
fn audit_failure_refuses_the_reveal() {
    let mut limiter = RateLimiter::new(10);
    let (phase, action) = ask(&mut limiter, 1, 2, true);
    assert_eq!(action, LookupAction::Resolve(DiscordUserId(2)));
    let (phase, action) = lookup(&mut limiter, phase, LookupEvent::Resolved(Ok(CardView::Unknown)));
    assert_eq!(action, LookupAction::Audit(row("not_found")));
    let (_, action) = lookup(
        &mut limiter,
        phase,
        LookupEvent::Audited(Some("audit unavailable".to_owned())),
    );
    assert!(matches!(action, LookupAction::Reveal(LookupOutcome::StoreError(_))));
}

#[test]
fn non_moderator_is_refused_without_audit() {
    let mut limiter = RateLimiter::new(10);
    let (_, action) = ask(&mut limiter, 1, 2, false);
    assert_eq!(action, LookupAction::Reveal(LookupOutcome::NotModerator));
}

fn rec() -> MemberRecord {
    MemberRecord {
        st_user_id: StUserId("st".to_owned()),
        discord_user_id: None,
        discord_handle: None,
        email: Email("a@b.test".to_owned()),
        full_name: None,
        standing: None,
        join_date: None,
        expires: None,
        membership_type: None,
        monthly_dues: None,
        yearly_dues: None,
    }
}

fn stamp() -> OverrideRecord {
    OverrideRecord {
        approved_by: DiscordUserId(123),
        approved_on: Date::from_ymd_opt(2026, 6, 21).unwrap(),
        note: Some("vouched".to_owned()),
    }
}

#[test]
fn a_found_card_is_revealed_once_its_row_is_written() {
    let mut limiter = RateLimiter::new(10);
    let (phase, _) = ask(&mut limiter, 1, 2, true);
    let (phase, action) = lookup(
        &mut limiter,
        phase,
        LookupEvent::Resolved(Ok(CardView::Member(rec()))),
    );
    assert_eq!(action, LookupAction::Audit(row("found")));
    let (phase, action) = lookup(&mut limiter, phase, LookupEvent::Audited(None));
    assert_eq!(action, LookupAction::Reveal(LookupOutcome::Card(rec())));
    assert_eq!(phase, LookupPhase::Done);
    let (_, action) = lookup(&mut limiter, phase, LookupEvent::Audited(None));
    assert_eq!(action, LookupAction::Ignore);
}

#[test]
fn ones_own_card_needs_no_role_no_allowance_and_no_row() {
    let mut limiter = RateLimiter::new(0);
    let (phase, action) = ask(&mut limiter, 1, 1, false);
    assert_eq!(action, LookupAction::Resolve(DiscordUserId(1)));
    let (_, action) = lookup(
        &mut limiter,
        phase,
        LookupEvent::Resolved(Ok(CardView::Override(stamp()))),
    );
    assert_eq!(action, LookupAction::Reveal(LookupOutcome::SelfOverride(stamp())));
}

#[test]
fn a_spent_allowance_refuses_before_anything_is_read() {
    let mut limiter = RateLimiter::new(1);
    assert_eq!(ask(&mut limiter, 1, 2, true).0, LookupPhase::Resolving { invoker: DiscordUserId(1), target: DiscordUserId(2) });
    let (phase, action) = ask(&mut limiter, 1, 2, true);
    assert_eq!(phase, LookupPhase::Done);
    assert_eq!(action, LookupAction::Reveal(LookupOutcome::RateLimited));
}

#[test]
fn each_outcome_has_its_answer() {
    let today = Date::from_ymd_opt(2026, 1, 1).unwrap();
    let text = |o: LookupOutcome| match render_outcome(&o, "rose", today) {
        CardReply::Text(s) => s,
        CardReply::Card(_) => panic!("a card"),
    };
    assert_eq!(text(LookupOutcome::SelfCard(None)), NO_OWN_RECORD);
    assert_eq!(text(LookupOutcome::NotFound), NO_SUCH_RECORD);
    assert_eq!(
        text(LookupOutcome::NotModerator),
        "That command is for moderators only."
    );
    assert_eq!(text(LookupOutcome::RateLimited), TOO_QUICK);
    assert_eq!(
        text(LookupOutcome::StoreError("secret".to_owned())),
        "Something went wrong on my end - please try again in a moment."
    );
    let reasons = |o: LookupOutcome| match render_outcome(&o, "rose", today) {
        CardReply::Card(e) => e.fields.iter().filter(|f| f.name == "Reason").count(),
        CardReply::Text(_) => panic!("a text"),
    };
    assert_eq!(reasons(LookupOutcome::OverrideCard(stamp())), 1);
    assert_eq!(reasons(LookupOutcome::SelfOverride(stamp())), 0);
}

#[test]
fn the_own_card_goes_by_the_display_name_where_it_is_known() {
    let today = Date::from_ymd_opt(2026, 1, 1).unwrap();
    let title = |name: Option<&str>| match show_card(&OwnRecord::Found(rec()), name, "rosy", today) {
        CardReply::Card(e) => e.title,
        CardReply::Text(_) => panic!("a text"),
    };
    assert_eq!(title(Some("Rosy the Rascal")).as_deref(), Some("Rosy the Rascal"));
    assert_eq!(title(None).as_deref(), Some("rosy"));
    assert_eq!(
        show_card(&OwnRecord::NoRecord, None, "rosy", today),
        CardReply::Text(NO_OWN_RECORD.to_owned())
    );
}

#[test]
fn first_check_is_allowed() {
    let mut cooldown = Cooldown::new(Duration::from_secs(180));
    assert!(cooldown.check(at(1_000)).is_ok());
}

#[test]
fn second_check_in_the_window_is_refused_with_the_time_left() {
    let mut cooldown = Cooldown::new(Duration::from_secs(180));
    cooldown.check(at(1_000)).unwrap();
    // 60s later, 120s remain.
    let remaining = cooldown.check(at(1_060)).expect_err("still in the window");
    assert_eq!(remaining, Duration::from_secs(120));
}

#[test]
fn check_after_the_window_is_allowed_again() {
    let mut cooldown = Cooldown::new(Duration::from_secs(180));
    cooldown.check(at(1_000)).unwrap();
    assert!(cooldown.check(at(1_181)).is_ok());
}

#[test]
fn the_cooldown_command_rounds_the_wait_up() {
    assert_eq!(REFRESH_COOLDOWN_SECS, 180);
    let mut cooldown = Cooldown::new(Duration::from_secs(REFRESH_COOLDOWN_SECS));
    let invoke = |c: &mut Cooldown, is_moderator: bool, millis: u64| {
        refresh_cache(
            c,
            RefreshCacheEvent::Invoked {
                is_moderator,
                now: Instant::at(Duration::from_millis(millis)),
            },
        )
    };
    assert_eq!(
        invoke(&mut cooldown, false, 0),
        RefreshCacheAction::Reply("That command is for moderators only.".to_owned())
    );
    assert_eq!(invoke(&mut cooldown, true, 0), RefreshCacheAction::Refresh);
    assert_eq!(
        invoke(&mut cooldown, true, 179_500),
        RefreshCacheAction::Reply(
            "The cache was refreshed recently. Try again in 1s.".to_owned()
        )
    );
    assert_eq!(
        invoke(&mut cooldown, true, 180_000),
        RefreshCacheAction::Refresh
    );
}

#[test]
fn a_refresh_is_reported_by_what_it_did() {
    assert_eq!(
        report_text(RefreshReport::Loaded(1)),
        "Refreshed the member cache: 1 member loaded."
    );
    assert_eq!(
        report_text(RefreshReport::Loaded(212)),
        "Refreshed the member cache: 212 members loaded."
    );
    assert_eq!(
        report_text(RefreshReport::Empty),
        "Solidarity Tech returned no members; kept the last good roster."
    );
    assert_eq!(
        report_text(RefreshReport::Failed),
        "The refresh failed; kept the last good roster."
    );
}

#[test]
fn an_empty_or_failed_sweep_replaces_nothing() {
    assert_eq!(
        refresh_once(RefreshEvent::Swept(None)),
        RefreshAction::Report(RefreshReport::Failed)
    );
    assert_eq!(
        refresh_once(RefreshEvent::Swept(Some(0))),
        RefreshAction::Report(RefreshReport::Empty)
    );
    assert_eq!(
        refresh_once(RefreshEvent::Swept(Some(3))),
        RefreshAction::Replace
    );
    assert_eq!(
        refresh_once(RefreshEvent::Written(3, true)),
        RefreshAction::Report(RefreshReport::Loaded(3))
    );
    assert_eq!(
        refresh_once(RefreshEvent::Written(3, false)),
        RefreshAction::Report(RefreshReport::Failed)
    );
}
