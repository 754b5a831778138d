use botonio_botsci::accents::{strip_accents, strip_char};
use botonio_botsci::self_verify::{eq_fold, initial_matches, name_check, name_verdict, NameCheck};

#[test]
fn matches_first_and_last_initial_case_insensitively() {
    assert_eq!(
        name_check(Some("Rosy Rascal"), "rosy", "R"),
        NameCheck::Match
    );
    assert_eq!(
        name_check(Some("rosy rascal"), " ROSY ", "r"),
        NameCheck::Match
    );
    assert_eq!(
        name_check(Some("Rosy Rascal"), "Rosy", "R."),
        NameCheck::Match
    );
}

#[test]
fn first_name_or_initial_off_is_a_mismatch() {
    assert_eq!(
        name_check(Some("Rosy Rascal"), "Shadow", "R"),
        NameCheck::Mismatch
    );
    assert_eq!(
        name_check(Some("Rosy Rascal"), "Rosy", "Z"),
        NameCheck::Mismatch
    );
}

#[test]
fn an_absent_record_name_is_unchecked() {
    assert_eq!(name_check(None, "Rosy", "R"), NameCheck::Unchecked);
    assert_eq!(name_check(Some("   "), "Rosy", "R"), NameCheck::Unchecked);
}

#[test]
fn a_single_token_record_name_compares_first_against_last() {
    // "Cher" -> first and last token are the same; first "Cher", initial "C".
    assert_eq!(name_check(Some("Cher"), "Cher", "C"), NameCheck::Match);
}

#[test]
fn multi_token_name_uses_the_last_token_for_the_initial() {
    // "Amy Rose Hedgehog" -> first "Amy", last token "Hedgehog"; middle token "Rose" is ignored.
    assert_eq!(
        name_check(Some("Amy Rose Hedgehog"), "Amy", "H"),
        NameCheck::Match
    );
    // "R" matches the middle token "Rose", not the last - must be a mismatch.
    assert_eq!(
        name_check(Some("Amy Rose Hedgehog"), "Amy", "R"),
        NameCheck::Mismatch
    );
}

#[test]
fn empty_or_blank_last_initial_is_a_mismatch() {
    assert_eq!(
        name_check(Some("Rosy Rascal"), "Rosy", ""),
        NameCheck::Mismatch
    );
    assert_eq!(
        name_check(Some("Rosy Rascal"), "Rosy", "   "),
        NameCheck::Mismatch
    );
}

#[test]
fn a_first_name_only_record_is_not_flagged_on_the_surname() {
    // `full_name` built from a first name alone ("Rosy"): the member's real surname
    // initial must not produce a spurious mismatch.
    assert_eq!(name_check(Some("Rosy"), "Rosy", "S"), NameCheck::Match);
}

#[test]
fn a_last_name_only_record_matches_on_the_initial() {
    // `full_name` built from a last name alone ("Rascal"): the lone token is the
    // surname, so the last initial lines up even though the first name does not.
    assert_eq!(name_check(Some("Rascal"), "Rosy", "R"), NameCheck::Match);
}

#[test]
fn a_single_token_record_matching_neither_part_is_a_mismatch() {
    assert_eq!(
        name_check(Some("Rascal"), "Shadow", "H"),
        NameCheck::Mismatch
    );
}

#[test]
fn accented_names_are_not_spuriously_flagged() {
    // `eq_ignore_ascii_case` folds only ASCII, so it would wrongly mismatch an
    // accented surname initial ('\u{c9}' vs '\u{e9}') and an accented given name.
    assert_eq!(
        name_check(Some("Amy \u{c9}lodie"), "amy", "\u{e9}"),
        NameCheck::Match
    );
    assert_eq!(
        name_check(Some("\u{c9}lodie Rascal"), "\u{e9}lodie", "R"),
        NameCheck::Match
    );
}

#[test]
fn a_multi_word_given_name_matches_on_its_first_token() {
    assert_eq!(
        name_check(Some("Amy Rose Hedgehog"), "Amy Rose", "H"),
        NameCheck::Match
    );
}

#[test]
fn the_verdict_asks_both_parts_of_a_full_name_and_one_of_a_single_token() {
    assert_eq!(name_verdict(0, true, true), NameCheck::Unchecked);
    assert_eq!(name_verdict(1, true, false), NameCheck::Match);
    assert_eq!(name_verdict(1, false, false), NameCheck::Mismatch);
    assert_eq!(name_verdict(2, true, false), NameCheck::Mismatch);
    assert_eq!(name_verdict(3, true, true), NameCheck::Match);
}

#[test]
fn accents_and_letter_case_do_not_count() {
    assert!(eq_fold("Jos\u{e9}", "jose"));
    assert!(eq_fold("jose", "JOS\u{c9}"));
    // The accent may be a character of its own.
    assert!(eq_fold("Jose\u{301}", "jos\u{e9}"));
    assert!(eq_fold("Nguy\u{1ec5}n", "NGUYEN"));
    assert!(!eq_fold("Jos\u{e9}", "josie"));
    // An accent with no letter before it is not nothing.
    assert!(!eq_fold("\u{301}", ""));
    assert!(initial_matches("\u{c9}lodie", "e"));
    assert!(initial_matches("Elodie", "\u{e9}."));
    assert!(!initial_matches("\u{c9}lodie", "a"));
    assert_eq!(
        name_check(Some("Jos\u{e9} Mu\u{f1}oz"), "jose", "m"),
        NameCheck::Match
    );
    assert_eq!(
        name_check(Some("Jose \u{c1}vila"), "Jos\u{e9}", "a"),
        NameCheck::Match
    );
}

#[test]
fn letters_of_other_alphabets_are_lower_cased_too() {
    assert!(eq_fold("\u{418}\u{412}\u{410}\u{41d}", "\u{438}\u{432}\u{430}\u{43d}"));
    assert!(initial_matches("\u{418}\u{432}\u{430}\u{43d}", "\u{438}"));
    // A final sigma, and an accent on the first letter.
    assert!(eq_fold(
        "\u{386}\u{3a1}\u{397}\u{3a3}",
        "\u{3b1}\u{3c1}\u{3b7}\u{3c2}"
    ));
    assert!(!eq_fold("\u{418}", "\u{43a}"));
}

#[test]
fn stripping_leaves_plain_letters() {
    assert_eq!(strip_accents("\u{c5}sa \u{17b}a\u{303}k"), "asa zak");
    assert_eq!(strip_accents("A-1 \u{df}\u{6587}"), "a-1 \u{df}\u{6587}");
    assert_eq!(strip_char('\u{130}'), 'i');
    assert_eq!(strip_char('\u{131}'), '\u{131}');
    assert_eq!(strip_char('\u{1f8f}'), '\u{3b1}');
    assert_eq!(strip_char('\u{439}'), '\u{438}');
}
