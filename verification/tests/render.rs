use botonio_botsci::commands::setup::pages::{page_components, Page};
use botonio_botsci::dates::Date;
use botonio_botsci::ids::{DiscordRoleId, DiscordUserId, Email, StUserId};
use botonio_botsci::migs_status::MigsStatus;
use botonio_botsci::render::bulk_verify::{
    preview_embed, progress_embed, resume_embed, summary_embed, wizard_embed,
};
use botonio_botsci::render::card::{card_with_dates, membership_card, override_card};
use botonio_botsci::render::colours::{
    COLOR_AMBER, COLOR_BLURPLE, COLOR_GREEN, COLOR_RED, COLOR_VIOLET,
};
use botonio_botsci::render::help::{help_embed, topics_for, Topic};
use botonio_botsci::render::modal::{
    email_modal, override_modal, parse_email, parse_reason, verify_title, EMAIL_FIELD_ID,
    EMAIL_MODAL_ID, OVERRIDE_MODAL_ID, REASON_FIELD_ID,
};
use botonio_botsci::render::reminders::{deadline_line, default_template};
use botonio_botsci::render::scan::{lapse_grace_embed, scan_alert_embed};
use botonio_botsci::render::setup::role_line;
use botonio_botsci::render::verify::{state_embed, VerifyState};
use botonio_botsci::role::Role;
use botonio_botsci::store::{
    BulkScope, GuildConfig, MemberRecord, MissCounts, OverrideRecord, PreviewTally, ReminderTemplateKind,
};
use botonio_botsci::ui::{Embed, Row};

fn desc(e: &Embed) -> String {
    e.description.clone().unwrap()
}

fn title(e: &Embed) -> String {
    e.title.clone().unwrap()
}

#[test]
fn resume_embed_is_blurple_and_names_starter_and_pending() {
    let counts = MissCounts {
        pending: 5,
        verified: 2,
        skipped: 1,
    };
    let e = resume_embed(BulkScope::UnmanagedOnly, DiscordUserId(42), counts);
    assert_eq!(e.colour, Some(COLOR_BLURPLE));
    let d = desc(&e);
    assert!(d.contains("<@42>"), "must mention the starter");
    assert!(
        d.contains("5 members still pending"),
        "must show pending count"
    );
    assert!(d.contains("unmanaged members only"), "must show scope");
}

#[test]
fn preview_embed_mixed_tally_skips_zero_rows_and_shows_conflicts() {
    let tally = PreviewTally {
        scanned: 16,
        matched: vec![
            (Role::Member, 4),
            (Role::DuesExpired, 0),
            (Role::Unverified, 2),
        ],
        unchanged: 6,
        misses: 3,
        conflicts: 1,
    };
    let e = preview_embed(BulkScope::WholeGuild, &tally);
    assert_eq!(e.colour, Some(COLOR_AMBER));
    let d = desc(&e);
    assert!(d.contains("Member: 4"), "Member count present");
    assert!(!d.contains("Dues Expired: 0"), "zero row must be skipped");
    assert!(d.contains("Unverified: 2"), "Unverified count present");
    assert!(
        d.contains("Already in the right role: 6"),
        "unchanged count present"
    );
    assert!(d.contains("Not matched"), "miss line present");
    assert!(d.contains("Conflicts: 1"), "conflict line present");
    assert!(d.contains("/verify"), "conflict note present");
    assert!(d.contains("the whole server"), "scope present");
}

#[test]
fn preview_embed_all_matched_is_green() {
    let tally = PreviewTally {
        scanned: 5,
        matched: vec![
            (Role::Member, 5),
            (Role::DuesExpired, 0),
            (Role::Unverified, 0),
        ],
        unchanged: 0,
        misses: 0,
        conflicts: 0,
    };
    let e = preview_embed(BulkScope::UnmanagedOnly, &tally);
    assert_eq!(e.colour, Some(COLOR_GREEN));
    assert!(
        !desc(&e).contains("Conflicts"),
        "no conflict line when zero"
    );
    assert!(
        !desc(&e).contains("Already in the right role"),
        "no unchanged line when zero"
    );
}

#[test]
fn progress_embed_shows_fraction() {
    let e = progress_embed(3, 8);
    assert_eq!(e.colour, Some(COLOR_BLURPLE));
    assert!(desc(&e).contains("3 / 8"), "must show done / total");
    assert!(title(&e).contains("Applying"), "title must say Applying");
}

#[test]
fn wizard_embed_is_amber_and_carries_handle_and_position() {
    let e = wizard_embed("Sonic", "sonic_hedgehog", "http://a/s.png", 2, 7);
    assert_eq!(e.colour, Some(COLOR_AMBER));
    let d = desc(&e);
    assert!(d.contains("@sonic_hedgehog"), "handle present");
    assert!(d.contains("Sonic"), "display name present");
    assert!(title(&e).contains("2 of 7"), "position in title");
}

#[test]
fn summary_embed_all_done_is_green_and_shows_counts() {
    let assigned = vec![
        (Role::Member, 8),
        (Role::DuesExpired, 2),
        (Role::Unverified, 0),
    ];
    let counts = MissCounts {
        pending: 0,
        verified: 3,
        skipped: 1,
    };
    let e = summary_embed(&assigned, counts);
    assert_eq!(e.colour, Some(COLOR_GREEN));
    let d = desc(&e);
    assert!(d.contains("Member: 8"), "Member count");
    assert!(d.contains("Dues Expired: 2"), "DuesExpired count");
    assert!(!d.contains("Unverified: 0"), "zero row skipped");
    assert!(d.contains("Verified from queue: 3"), "verified tally");
    assert!(d.contains("Skipped: 1"), "skipped tally");
    assert!(!d.contains("Still pending"), "no pending line when zero");
}

#[test]
fn summary_embed_with_pending_is_amber() {
    let assigned = vec![
        (Role::Member, 3),
        (Role::DuesExpired, 0),
        (Role::Unverified, 0),
    ];
    let counts = MissCounts {
        pending: 2,
        verified: 1,
        skipped: 0,
    };
    let e = summary_embed(&assigned, counts);
    assert_eq!(e.colour, Some(COLOR_AMBER));
    assert!(desc(&e).contains("Still pending: 2"), "pending tally shown");
}

fn ymd(y: i32, m: u32, d: u32) -> Date {
    Date::from_ymd_opt(y, m, d).unwrap()
}

fn rec(standing: Option<MigsStatus>, expires: Option<Date>) -> MemberRecord {
    MemberRecord {
        st_user_id: StUserId("st-card".to_owned()),
        discord_user_id: None,
        discord_handle: None,
        email: Email("a@b.test".to_owned()),
        full_name: Some("Zoop Goop".to_owned()),
        standing,
        join_date: Date::from_ymd_opt(2021, 3, 1),
        expires,
        membership_type: None,
        monthly_dues: None,
        yearly_dues: None,
    }
}

fn field_value(e: &Embed, name: &str) -> Option<String> {
    e.fields
        .iter()
        .find(|f| f.name == name)
        .map(|f| f.value.clone())
}

fn inline_of(e: &Embed, name: &str) -> Option<bool> {
    e.fields.iter().find(|f| f.name == name).map(|f| f.inline)
}

#[test]
fn good_standing_far_off_is_green() {
    let today = ymd(2026, 1, 1);
    let e = membership_card(
        &rec(
            Some(MigsStatus::MemberInGoodStanding),
            Date::from_ymd_opt(2026, 12, 31),
        ),
        "rose",
        Some("she/her"),
        today,
    );
    assert_eq!(e.colour, Some(COLOR_GREEN));
}

#[test]
fn expiring_soon_is_amber() {
    let today = ymd(2026, 12, 10);
    let e = membership_card(
        &rec(
            Some(MigsStatus::MemberInGoodStanding),
            Date::from_ymd_opt(2026, 12, 31),
        ),
        "rose",
        None,
        today,
    );
    assert_eq!(e.colour, Some(COLOR_AMBER));
}

#[test]
fn lapsed_is_red() {
    let today = ymd(2026, 1, 1);
    let e = membership_card(&rec(Some(MigsStatus::Lapsed), None), "rose", None, today);
    assert_eq!(e.colour, Some(COLOR_RED));
}

#[test]
fn good_standing_with_past_xdate_stays_member_not_expired() {
    // Standing is authoritative: a past xdate must NOT flip a good-standing member
    // to red/"Expired" - that would contradict the "Role" field, which reads "Member".
    let today = ymd(2026, 6, 1);
    let past = Date::from_ymd_opt(2026, 1, 1);
    let e = membership_card(
        &rec(Some(MigsStatus::MemberInGoodStanding), past),
        "rose",
        None,
        today,
    );
    assert_eq!(e.colour, Some(COLOR_GREEN));
    assert_eq!(desc(&e), "\u{2705} Member in Good Standing");
    assert_eq!(field_value(&e, "Role").as_deref(), Some("Member"));
}

#[test]
fn pronouns_absent_keeps_bare_nickname() {
    let today = ymd(2026, 1, 1);
    let e = membership_card(
        &rec(Some(MigsStatus::MemberInGoodStanding), None),
        "rose",
        None,
        today,
    );
    assert_eq!(title(&e), "rose");
}

#[test]
fn pronouns_present_append_to_nickname() {
    let today = ymd(2026, 1, 1);
    let e = membership_card(
        &rec(Some(MigsStatus::MemberInGoodStanding), None),
        "rose",
        Some("she/her"),
        today,
    );
    assert_eq!(title(&e), "rose \u{b7} she/her");
}

#[test]
fn role_field_uses_guild_facing_label_not_debug() {
    let today = ymd(2026, 1, 1);
    // Lapsed standing -> role() == DuesExpired; the field must read "Dues Expired".
    let e = membership_card(&rec(Some(MigsStatus::Lapsed), None), "rose", None, today);
    assert_eq!(field_value(&e, "Role").as_deref(), Some("Dues Expired"));
}

#[test]
fn expires_in_one_day_is_singular() {
    let today = ymd(2026, 1, 1);
    let tomorrow = Date::from_ymd_opt(2026, 1, 2);
    let e = membership_card(
        &rec(Some(MigsStatus::MemberInGoodStanding), tomorrow),
        "rose",
        None,
        today,
    );
    assert_eq!(
        desc(&e),
        "\u{23f3} Member in Good Standing - expires in 1 day"
    );
}

#[test]
fn expires_today_on_the_expiry_day() {
    let today = ymd(2026, 1, 1);
    let e = membership_card(
        &rec(Some(MigsStatus::MemberInGoodStanding), Some(today)),
        "rose",
        None,
        today,
    );
    let d = desc(&e);
    assert!(
        d.contains("expires today"),
        "expected 'expires today', got: {d}"
    );
    assert!(!d.contains("0 days"), "must not say '0 days', got: {d}");
}

fn stamp() -> OverrideRecord {
    OverrideRecord {
        approved_by: DiscordUserId(123),
        approved_on: ymd(2026, 6, 21),
        note: None,
    }
}

fn stamp_with_note(note: &str) -> OverrideRecord {
    OverrideRecord {
        note: Some(note.to_owned()),
        ..stamp()
    }
}

#[test]
fn override_card_shows_manual_verify_role_and_mention() {
    let e = override_card("rose", &stamp(), false);
    assert_eq!(e.colour, Some(COLOR_GREEN));
    assert_eq!(
        field_value(&e, "Role").as_deref(),
        Some("Member; Manual Verify")
    );
    assert_eq!(field_value(&e, "Approving Mod").as_deref(), Some("<@123>"));
    assert_eq!(
        field_value(&e, "Approve Date").as_deref(),
        Some("Jun 21, 2026")
    );
    assert!(desc(&e).contains("Manually Verified as Member"));
}

#[test]
fn override_card_shows_reason_for_a_moderator_view() {
    let e = override_card(
        "rose",
        &stamp_with_note("vouched at the branch meeting"),
        true,
    );
    assert_eq!(
        field_value(&e, "Reason").as_deref(),
        Some("vouched at the branch meeting")
    );
}

#[test]
fn override_card_hides_reason_on_a_self_view() {
    let e = override_card(
        "rose",
        &stamp_with_note("vouched at the branch meeting"),
        false,
    );
    assert_eq!(field_value(&e, "Reason"), None);
}

#[test]
fn override_card_omits_reason_when_absent() {
    let e = override_card("rose", &stamp(), true);
    assert_eq!(field_value(&e, "Reason"), None);
}

#[test]
fn override_card_omits_an_empty_reason() {
    let e = override_card("rose", &stamp_with_note(""), true);
    assert_eq!(field_value(&e, "Reason"), None);
}

#[test]
fn override_card_dates_share_an_inline_row() {
    let e = override_card("rose", &stamp(), false);
    assert_eq!(inline_of(&e, "Approve Date"), Some(true));
    assert_eq!(inline_of(&e, "Approving Mod"), Some(true));
    assert_eq!(inline_of(&e, "Role"), Some(false));
}

#[test]
fn very_long_name_is_not_truncated() {
    let today = ymd(2026, 1, 1);
    let long = "x".repeat(200);
    let e = membership_card(
        &rec(Some(MigsStatus::MemberInGoodStanding), None),
        &long,
        None,
        today,
    );
    assert_eq!(title(&e).len(), 200);
}

#[test]
fn join_date_and_expires_share_an_inline_row() {
    let today = ymd(2026, 1, 1);
    let e = membership_card(
        &rec(
            Some(MigsStatus::MemberInGoodStanding),
            Date::from_ymd_opt(2026, 12, 31),
        ),
        "rose",
        None,
        today,
    );
    assert_eq!(inline_of(&e, "Join Date"), Some(true));
    assert_eq!(inline_of(&e, "Expires"), Some(true));
    assert_eq!(inline_of(&e, "Name"), Some(false));
    assert_eq!(inline_of(&e, "Role"), Some(false));
}

#[test]
fn a_card_in_full() {
    let soon = membership_card(
        &rec(
            Some(MigsStatus::MemberInGoodStanding),
            Date::from_ymd_opt(2026, 1, 31),
        ),
        "rose",
        None,
        ymd(2026, 1, 1),
    );
    assert_eq!(
        desc(&soon),
        "\u{23f3} Member in Good Standing - expires in 30 days"
    );
    let fields: Vec<(&str, &str)> = soon
        .fields
        .iter()
        .map(|f| (f.name.as_str(), f.value.as_str()))
        .collect();
    assert_eq!(
        fields,
        [
            ("Name", "Zoop Goop"),
            ("Role", "Member"),
            ("Join Date", "Mar 1, 2021"),
            ("Expires", "Jan 31, 2026"),
            ("Email", "a@b.test"),
        ]
    );
    assert_eq!(
        soon.footer.as_deref(),
        Some("Pulled from Solidarity Tech \u{b7} PDX DSA")
    );
    let unknown = card_with_dates(&rec(None, None), "rose", None, ymd(2026, 1, 1), &None, &None);
    assert_eq!(desc(&unknown), "\u{2754} Status unknown");
    assert_eq!(field_value(&unknown, "Role").as_deref(), Some("Unverified"));
    assert_eq!(field_value(&unknown, "Join Date"), None);
    assert_eq!(unknown.colour, Some(COLOR_RED));
}

#[test]
fn non_moderators_never_see_the_moderator_topic() {
    assert_eq!(
        topics_for(false),
        vec![Topic::GettingVerified, Topic::MyMembership]
    );
    assert!(topics_for(true).contains(&Topic::ForModerators));
}

#[test]
fn topic_id_round_trips() {
    for t in [
        Topic::GettingVerified,
        Topic::MyMembership,
        Topic::ForModerators,
    ] {
        assert_eq!(Topic::from_id(t.id()), Some(t));
    }
    assert_eq!(Topic::from_id("nope"), None);
}

#[test]
fn each_topic_has_its_card() {
    let e = help_embed(Topic::GettingVerified, 7);
    assert_eq!(title(&e), "\u{1f4cb} Help \u{b7} Getting verified");
    assert!(desc(&e).contains("tap **Verify**"));
    assert_eq!(e.colour, Some(7));
    assert!(desc(&help_embed(Topic::MyMembership, 7)).contains("**/membership-card**"));
    assert_eq!(Topic::ForModerators.label(), "For moderators");
}

#[test]
fn modal_is_a_single_required_email_field() {
    let m = email_modal(EMAIL_MODAL_ID, "Rosy the Rascal");
    assert_eq!(m.title, "Verify Rosy the Rascal");
    assert_eq!(m.inputs.len(), 1);
    let field = &m.inputs[0];
    assert_eq!(field.label, "Member email");
    assert_eq!(field.id, EMAIL_FIELD_ID);
    assert!(!field.paragraph);
    assert!(field.required);
    assert_eq!(field.max_length, Some(254));
}

#[test]
fn override_modal_is_a_single_optional_reason_field() {
    let m = override_modal(OVERRIDE_MODAL_ID, "Rosy the Rascal");
    assert_eq!(m.title, "Approve Rosy the Rascal");
    assert_eq!(m.inputs.len(), 1);
    let field = &m.inputs[0];
    assert_eq!(field.label, "Reason (optional)");
    assert_eq!(field.id, REASON_FIELD_ID);
    assert!(field.paragraph);
    assert!(!field.required);
    assert_eq!(field.max_length, Some(300));
}

#[test]
fn parse_reason_trims_and_optionalizes() {
    assert_eq!(
        parse_reason("  vouched in person "),
        Some("vouched in person".into())
    );
    assert_eq!(parse_reason("   "), None);
    assert_eq!(parse_reason(""), None);
}

#[test]
fn title_is_truncated_to_the_cap() {
    let long = "Rosy the Rascal ".repeat(10);
    let title = verify_title(&long);
    assert_eq!(title.chars().count(), 45);
    assert!(title.ends_with("..."));
}

#[test]
fn parse_email_accepts_a_plain_address() {
    assert_eq!(
        parse_email("  rosy@example.com "),
        Some(Email("rosy@example.com".into()))
    );
}

#[test]
fn parse_email_rejects_obvious_garbage() {
    assert!(parse_email("").is_none());
    assert!(parse_email("not-an-email").is_none());
    assert!(parse_email("@nolocal.com").is_none());
    assert!(parse_email("no@domain").is_none());
    assert!(parse_email("has space@x.com").is_none());
    assert!(parse_email("a@@b.com").is_none());
}

#[test]
fn parse_email_counts_up_to_the_limit() {
    let local = "a".repeat(248);
    assert!(parse_email(&format!("{local}@b.com")).is_some());
    assert!(parse_email(&format!("{local}a@b.com")).is_none());
}

#[test]
fn deadline_line_negative() {
    assert_eq!(deadline_line(-5), "Your membership has lapsed.");
}

#[test]
fn deadline_line_zero() {
    assert_eq!(deadline_line(0), "Your membership lapses today.");
}

#[test]
fn deadline_line_one() {
    assert_eq!(deadline_line(1), "Your membership lapses tomorrow.");
}

#[test]
fn deadline_line_n() {
    assert_eq!(deadline_line(14), "Your membership lapses in 14 days.");
}

#[test]
fn default_template_expired_non_empty() {
    let body = default_template(ReminderTemplateKind::Expired);
    assert!(!body.is_empty());
}

#[test]
fn unset_role_reads_not_set() {
    assert_eq!(role_line(None), "_not set_");
    assert_eq!(role_line(Some(DiscordRoleId(42))), "<@&42>");
}

fn state(s: VerifyState) -> Embed {
    state_embed("Rosy the Rascal", "rosytherascal", "http://a/x.png", &s)
}

#[test]
fn verified_member_is_green() {
    let e = state(VerifyState::Verified(Role::Member));
    assert_eq!(e.colour, Some(COLOR_GREEN));
    assert!(desc(&e).contains("Verified as Member"));
}

#[test]
fn verified_dues_expired_is_red() {
    let e = state(VerifyState::Verified(Role::DuesExpired));
    assert_eq!(e.colour, Some(COLOR_RED));
    assert!(desc(&e).contains("Verified as Dues Expired"));
}

#[test]
fn not_found_is_amber_and_invites_retry() {
    let e = state(VerifyState::NotFound);
    assert_eq!(e.colour, Some(COLOR_AMBER));
    assert!(desc(&e).contains("try a different one"));
}

#[test]
fn conflict_is_red_and_names_a_different_account() {
    let e = state(VerifyState::Conflict);
    assert_eq!(e.colour, Some(COLOR_RED));
    assert!(desc(&e).contains("different Discord account"));
}

#[test]
fn every_state_carries_the_handle() {
    for s in [
        VerifyState::Prompt,
        VerifyState::Verified(Role::Member),
        VerifyState::NotFound,
        VerifyState::Conflict,
        VerifyState::InvalidEmail,
        VerifyState::Expired,
        VerifyState::Overridden,
        VerifyState::Error,
    ] {
        assert!(desc(&state(s)).contains("@rosytherascal"));
    }
}

#[test]
fn overridden_is_violet_and_carries_the_copy() {
    let e = state(VerifyState::Overridden);
    assert_eq!(e.colour, Some(COLOR_VIOLET));
    assert!(desc(&e).contains("Hand approved"));
    assert!(desc(&e).contains("logged"));
}

#[test]
fn the_scan_posts_read_in_full() {
    let alert = scan_alert_embed(9, 30, 20, 5);
    assert_eq!(title(&alert), "Scheduled scan paused");
    assert_eq!(
        desc(&alert),
        "The scan would have demoted 9 of 30 members, over the safety threshold (20% and at \
         least 5). No roles were changed. This usually means the membership data was incomplete \
         - check Solidarity Tech, then run /refresh-cache before the next scan."
    );
    let held = lapse_grace_embed(1, 30);
    assert!(desc(&held).starts_with("1 of 30 member are recorded as lapsed"));
    assert!(desc(&lapse_grace_embed(2, 30)).starts_with("2 of 30 members are recorded as lapsed"));
}

#[test]
fn every_setup_page_fits_a_message() {
    let cfg = GuildConfig::default();
    for page in [
        Page::Landing,
        Page::Verification,
        Page::Membership,
        Page::Dues,
        Page::Moderation,
    ] {
        let rows = page_components(page, &cfg, true);
        assert!(rows.len() <= 5);
        for row in rows {
            assert!(!matches!(row, Row::Buttons(bs) if bs.len() > 5));
        }
    }
}
