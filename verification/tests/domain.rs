use botonio_botsci::dry_run::DryRun;
use botonio_botsci::ids::{
    DiscordChannelId, DiscordHandle, DiscordUserId, Email, IdParseError, Phone, StUserId,
};
use botonio_botsci::membership::{MalformedMembership, MembershipStatus};
use botonio_botsci::migs_status::{MigsStatus, MigsStatusError, RetiredMigsStatus};
use botonio_botsci::role::Role;

#[test]
fn discord_user_id_round_trips() {
    let id: DiscordUserId = "123456789012345678".parse().unwrap();
    assert_eq!(id.to_text(), "123456789012345678");
}

#[test]
fn discord_user_id_rejects_non_numeric() {
    assert!("abc".parse::<DiscordUserId>().is_err());
}

#[test]
fn discord_channel_id_round_trips_and_rejects_non_numeric() {
    let c: DiscordChannelId = "112233445566778899".parse().unwrap();
    assert_eq!(c.to_text(), "112233445566778899");
    assert!("nope".parse::<DiscordChannelId>().is_err());
}

#[test]
fn string_newtypes_reject_empty() {
    assert!("".parse::<Email>().is_err());
    assert!("   ".parse::<DiscordHandle>().is_err());
}

#[test]
fn string_newtypes_accept_non_empty() {
    let h: DiscordHandle = "zoop".parse().unwrap();
    assert_eq!(h.as_str(), "zoop");
}

#[test]
fn snowflakes_are_bounded_and_say_why_not() {
    assert_eq!(
        DiscordUserId::parse("18446744073709551615"),
        Ok(DiscordUserId(u64::MAX))
    );
    let over = DiscordUserId::parse("18446744073709551616").unwrap_err();
    assert!(over.message().contains("number too large"));
    let empty = DiscordUserId::parse("").unwrap_err();
    assert!(empty.message().contains("empty string"));
    let letters = DiscordUserId::parse("12x").unwrap_err();
    assert!(letters.message().contains("invalid digit"));
    // A leading plus sign is part of an unsigned number, a minus sign is not.
    assert_eq!(DiscordUserId::parse("+7"), Ok(DiscordUserId(7)));
    assert!(DiscordUserId::parse("-7").is_err());
}

#[test]
fn blank_texts_are_their_own_error() {
    assert!(matches!(Phone::parse(" \t"), Err(IdParseError::Empty)));
    assert!(matches!(StUserId::parse(""), Err(IdParseError::Empty)));
    assert_eq!(Email::parse("a@b.test").unwrap().as_str(), "a@b.test");
}

#[test]
fn membership_status_converts_to_matching_role() {
    assert_eq!(Role::try_from(MembershipStatus::Member), Ok(Role::Member));
    assert_eq!(
        Role::try_from(MembershipStatus::DuesExpired),
        Ok(Role::DuesExpired)
    );
    assert_eq!(
        Role::try_from(MembershipStatus::Malformed),
        Err(MalformedMembership)
    );
}

#[test]
fn every_role_has_its_words() {
    let words: Vec<&str> = Role::ALL.iter().map(|r| r.as_str()).collect();
    assert_eq!(words, ["Member", "Dues Expired", "Unverified"]);
}

#[test]
fn decodes_the_two_live_values() {
    assert_eq!(
        MigsStatus::decode(Some("Member in Good Standing")),
        Ok(MigsStatus::MemberInGoodStanding)
    );
    assert_eq!(MigsStatus::decode(Some("Lapsed")), Ok(MigsStatus::Lapsed));
}

#[test]
fn retired_values_are_typed_errors() {
    assert_eq!(
        MigsStatus::decode(Some("Lapsed Member")),
        Err(MigsStatusError::Retired(RetiredMigsStatus::LapsedMember))
    );
    assert_eq!(
        MigsStatus::decode(Some("Constitutional Member")),
        Err(MigsStatusError::Retired(
            RetiredMigsStatus::ConstitutionalMember
        ))
    );
}

#[test]
fn missing_and_unknown_are_distinguished() {
    assert_eq!(MigsStatus::decode(None), Err(MigsStatusError::Missing));
    assert_eq!(MigsStatus::decode(Some("")), Err(MigsStatusError::Missing));
    assert_eq!(
        MigsStatus::decode(Some("   ")),
        Err(MigsStatusError::Missing)
    );
    assert_eq!(
        MigsStatus::decode(Some("wat")),
        Err(MigsStatusError::Unknown("wat".to_string()))
    );
}

#[test]
fn as_str_round_trips_live_values() {
    for s in [MigsStatus::MemberInGoodStanding, MigsStatus::Lapsed] {
        assert_eq!(MigsStatus::decode(Some(s.as_str())), Ok(s));
    }
}

#[test]
fn only_good_standing_is_good() {
    assert!(MigsStatus::MemberInGoodStanding.is_good());
    assert!(!MigsStatus::Lapsed.is_good());
}

#[test]
fn maps_to_computed_status() {
    assert_eq!(
        MembershipStatus::from(MigsStatus::MemberInGoodStanding),
        MembershipStatus::Member
    );
    assert_eq!(
        MembershipStatus::from(MigsStatus::Lapsed),
        MembershipStatus::DuesExpired
    );
}

#[test]
fn an_unknown_value_is_quoted_in_its_message() {
    let text = MigsStatus::decode(Some("wa\"t")).unwrap_err().message();
    assert!(text.contains("\"wa\\\"t\""), "{text}");
}

#[test]
fn a_dry_run_suppresses_writes() {
    assert!(DryRun::dry().is_dry());
    assert!(!DryRun::live().is_dry());
}
