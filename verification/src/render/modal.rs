//! The manual-verify modals, their dynamic titles, and the checks run on what a
//! moderator typed.

use vstd::prelude::*;

use crate::ids::Email;
use crate::text::{blank, chars_of, trim};
use crate::ui::{Input, Modal};

#[allow(unused_imports)]
use crate::text::{is_blank, trimmed};
#[allow(unused_imports)]
use crate::ui::{InputView, ModalView};

verus! {

/// The email text box, read back off the submission.
pub const EMAIL_FIELD_ID: &'static str = "email";

/// The email modal; submissions are filtered by it.
pub const EMAIL_MODAL_ID: &'static str = "verify_email_modal";

/// The override-reason text box.
pub const REASON_FIELD_ID: &'static str = "reason";

/// The override-reason modal.
pub const OVERRIDE_MODAL_ID: &'static str = "verify_override_modal";

/// The longest modal title Discord accepts, in characters.
pub const TITLE_MAX: usize = 45;

/// The longest reason the modal accepts.
pub const REASON_MAX: u16 = 300;

/// `"{verb} {name}"`, cut to the title cap with a trailing `...` when it overflows.
pub open spec fn title_text(verb: Seq<char>, name: Seq<char>) -> Seq<char> {
    let full = verb + " "@ + name;
    if full.len() <= TITLE_MAX {
        full
    } else {
        full.take(TITLE_MAX - 3) + "..."@
    }
}

pub(crate) fn modal_title(verb: &str, display_name: &str) -> (r: String)
    ensures
        r@ == title_text(verb@, display_name@),
{
    let full = verb.to_owned().concat(" ").concat(display_name);
    if full.as_str().unicode_len() <= TITLE_MAX {
        return full;
    }
    let kept = full.as_str().substring_char(0, TITLE_MAX - 3).to_owned();
    assert(kept@ =~= full@.take(TITLE_MAX - 3));
    kept.concat("...")
}

/// A modal title never exceeds the cap, and a name that fits is kept whole.
pub proof fn law_title_fits(verb: Seq<char>, name: Seq<char>)
    ensures
        title_text(verb, name).len() <= TITLE_MAX,
        verb.len() + 1 + name.len() <= TITLE_MAX ==> title_text(verb, name) == verb + " "@ + name,
{
    reveal_strlit(" ");
    reveal_strlit("...");
}

/// `"Verify {display_name}"`, cut to the title cap.
pub fn verify_title(display_name: &str) -> (r: String)
    ensures
        r@ == title_text("Verify"@, display_name@),
        r@.len() <= TITLE_MAX,
{
    proof {
        law_title_fits("Verify"@, display_name@);
    }
    modal_title("Verify", display_name)
}

/// The manual-verify modal.
pub open spec fn email_modal_view(custom_id: Seq<char>, display_name: Seq<char>) -> ModalView {
    ModalView {
        id: custom_id,
        title: title_text("Verify"@, display_name),
        inputs: seq![
            InputView {
                id: EMAIL_FIELD_ID@,
                label: "Member email"@,
                paragraph: false,
                placeholder: Some("name@example.com"@),
                value: None,
                required: true,
                min_length: Some(1),
                max_length: Some(254),
            },
        ],
    }
}

/// A single required **Member email** field, titled for the member being verified.
pub fn email_modal(custom_id: &str, display_name: &str) -> (r: Modal)
    ensures
        r@ == email_modal_view(custom_id@, display_name@),
{
    let input = Input {
        id: EMAIL_FIELD_ID.to_owned(),
        label: "Member email".to_owned(),
        paragraph: false,
        placeholder: Some("name@example.com".to_owned()),
        value: None,
        required: true,
        min_length: Some(1),
        max_length: Some(254),
    };
    let r = Modal {
        id: custom_id.to_owned(),
        title: verify_title(display_name),
        inputs: vec![input],
    };
    assert(r@.inputs =~= email_modal_view(custom_id@, display_name@).inputs);
    r
}

/// The override-approval modal.
pub open spec fn override_modal_view(custom_id: Seq<char>, display_name: Seq<char>) -> ModalView {
    ModalView {
        id: custom_id,
        title: title_text("Approve"@, display_name),
        inputs: seq![
            InputView {
                id: REASON_FIELD_ID@,
                label: "Reason (optional)"@,
                paragraph: true,
                placeholder: Some("Why are you approving this member? (optional)"@),
                value: None,
                required: false,
                min_length: None,
                max_length: Some(REASON_MAX),
            },
        ],
    }
}

/// A single optional paragraph "Reason" field, titled for the member being approved.
pub fn override_modal(custom_id: &str, display_name: &str) -> (r: Modal)
    ensures
        r@ == override_modal_view(custom_id@, display_name@),
{
    let input = Input {
        id: REASON_FIELD_ID.to_owned(),
        label: "Reason (optional)".to_owned(),
        paragraph: true,
        placeholder: Some("Why are you approving this member? (optional)".to_owned()),
        value: None,
        required: false,
        min_length: None,
        max_length: Some(REASON_MAX),
    };
    let r = Modal {
        id: custom_id.to_owned(),
        title: modal_title("Approve", display_name),
        inputs: vec![input],
    };
    assert(r@.inputs =~= override_modal_view(custom_id@, display_name@).inputs);
    r
}

/// The text itself once trimmed, unless nothing is left.
pub open spec fn non_empty(raw: Seq<char>) -> Option<Seq<char>> {
    if trimmed(raw).len() == 0 {
        None
    } else {
        Some(trimmed(raw))
    }
}

/// Normalize a typed reason: surrounding whitespace is dropped and an empty text is no
/// reason.
pub fn parse_reason(raw: &str) -> (r: Option<String>)
    ensures
        crate::ui::opt_view(r) == non_empty(raw@),
{
    let s = trim(raw);
    if s.is_empty() {
        None
    } else {
        Some(s.to_owned())
    }
}

/// A plausible address: at most 254 characters and no whitespace, exactly one `@` with
/// something before it, and a dot somewhere after it.
pub open spec fn plausible_email(s: Seq<char>) -> bool {
    &&& s.len() <= 254
    &&& forall|i: int| 0 <= i < s.len() ==> !is_blank(#[trigger] s[i])
    &&& exists|at: int| #[trigger]
        single_at(s, at) && exists|dot: int| at < dot < s.len() && #[trigger] s[dot] == '.'
}

/// The only `@` stands at `at`, after at least one character.
pub open spec fn single_at(s: Seq<char>, at: int) -> bool {
    &&& 0 < at < s.len()
    &&& s[at] == '@'
    &&& forall|j: int| 0 <= j < s.len() && j != at ==> #[trigger] s[j] != '@'
}

/// Minimal sanity-check on a typed email before it is looked up. Catches obvious typos;
/// full validity is for the source to confirm.
pub fn parse_email(raw: &str) -> (r: Option<Email>)
    ensures
        r is Some <==> plausible_email(trimmed(raw@)),
        r matches Some(e) ==> e@ == trimmed(raw@),
{
    let s = trim(raw);
    let cs = chars_of(s);
    if cs.len() > 254 {
        return None;
    }
    let mut at: Option<usize> = None;
    let mut dotted = false;
    let mut i: usize = 0;
    while i < cs.len()
        invariant
            i <= cs.len() <= 254,
            cs@ == s@,
            s@ == trimmed(raw@),
            forall|j: int| 0 <= j < i ==> !is_blank(#[trigger] cs@[j]),
            at matches Some(a) ==> 0 < a < i && cs@[a as int] == '@',
            forall|j: int|
                0 <= j < i && (at matches Some(a) ==> j != a) ==> #[trigger] cs@[j] != '@',
            dotted ==> (at matches Some(a) && exists|j: int| a < j < i && #[trigger] cs@[j] == '.'),
            !dotted ==> (at matches Some(a) ==> forall|j: int|
                a < j < i ==> #[trigger] cs@[j] != '.'),
        decreases cs.len() - i,
    {
        let c = cs[i];
        if blank(c) {
            assert(is_blank(s@[i as int]));
            return None;
        }
        if c == '@' {
            match at {
                Some(a) => {
                    proof {
                        if exists|k: int| #[trigger] single_at(s@, k) {
                            let k = choose|k: int| #[trigger] single_at(s@, k);
                            assert(s@[a as int] == '@' && s@[i as int] == '@');
                        }
                    }
                    return None;
                },
                None => {
                    if i == 0 {
                        proof {
                            if exists|k: int| #[trigger] single_at(s@, k) {
                                let k = choose|k: int| #[trigger] single_at(s@, k);
                                assert(s@[0] == '@');
                            }
                        }
                        return None;
                    }
                    at = Some(i);
                },
            }
        } else if c == '.' {
            if at.is_some() {
                dotted = true;
            }
        }
        i += 1;
    }
    if dotted {
        assert(single_at(s@, at->0 as int));
        Some(Email(s.to_owned()))
    } else {
        proof {
            if exists|k: int| #[trigger] single_at(s@, k) && exists|dot: int|
                k < dot < s@.len() && #[trigger] s@[dot] == '.' {
                let k = choose|k: int| #[trigger] single_at(s@, k) && exists|dot: int|
                    k < dot < s@.len() && #[trigger] s@[dot] == '.';
                assert(cs@[k] == '@');
            }
        }
        None
    }
}

/// The forms: each under the id it was given, titled for the member, with its one box, the
/// email's required and the reason's not.
pub proof fn law_forms_ask_for_one_thing(custom_id: Seq<char>, display_name: Seq<char>)
    ensures
        ({
            let email = email_modal_view(custom_id, display_name);
            let reason = override_modal_view(custom_id, display_name);
            &&& email.id == custom_id && reason.id == custom_id
            &&& email.title == title_text("Verify"@, display_name)
            &&& reason.title == title_text("Approve"@, display_name)
            &&& email.inputs.len() == 1 && reason.inputs.len() == 1
            &&& email.inputs[0].label == "Member email"@ && email.inputs[0].placeholder == Some(
                "name@example.com"@,
            ) && email.inputs[0].value is None && email.inputs[0].min_length == Some(1u16)
            &&& reason.inputs[0].label == "Reason (optional)"@ && reason.inputs[0].placeholder
                == Some("Why are you approving this member? (optional)"@)
                && reason.inputs[0].value is None && reason.inputs[0].min_length is None
            &&& email.inputs[0].id == "email"@ && email.inputs[0].required
                && !email.inputs[0].paragraph && email.inputs[0].max_length == Some(254u16)
            &&& reason.inputs[0].id == "reason"@ && !reason.inputs[0].required
                && reason.inputs[0].paragraph && reason.inputs[0].max_length == Some(300u16)
        }),
{
}

/// A title that is too long is cut and marked as cut; its beginning is kept.
pub proof fn law_a_long_title_is_cut(verb: Seq<char>, name: Seq<char>)
    requires
        verb.len() + 1 + name.len() > 45,
    ensures
        title_text(verb, name) == (verb + " "@ + name).take(42) + "..."@,
{
    reveal_strlit(" ");
}

/// What is typed counts without the blanks around it, and as nothing where nothing is left.
pub proof fn law_typed_text_is_trimmed(raw: Seq<char>)
    ensures
        non_empty(raw) is None <==> trimmed(raw).len() == 0,
        (non_empty(raw) matches Some(t) ==> t == trimmed(raw)),
{
}

/// An address with one `@`, something before it, and a dot after it is taken as typed,
/// blanks around it aside; without any of these it is not.
pub proof fn law_plain_addresses_are_taken(raw: &str, r: Option<Email>)
    requires
        call_ensures(parse_email, (raw,), r),
    ensures
        (r matches Some(e) ==> e@ == trimmed(raw@) && e@.contains('@') && e@.contains('.')
            && e@.len() <= 254),
        trimmed(raw@).len() > 254 ==> r is None,
        !trimmed(raw@).contains('@') ==> r is None,
        !trimmed(raw@).contains('.') ==> r is None,
        r is Some <==> plausible_email(trimmed(raw@)),
{
    let t = trimmed(raw@);
    if plausible_email(t) {
        let at = choose|at: int| #[trigger]
            single_at(t, at) && exists|dot: int| at < dot < t.len() && #[trigger] t[dot] == '.';
        assert(t[at] == '@');
    }
}

/// A name, an `@`, a host, a dot and an ending make an address, with no blank and no other
/// `@` in them.
pub proof fn law_an_address_has_a_name_and_a_host(
    name: Seq<char>,
    host: Seq<char>,
    ending: Seq<char>,
)
    requires
        name.len() > 0,
        name.len() + host.len() + ending.len() <= 252,
        forall|i: int| 0 <= i < name.len() ==> !is_blank(#[trigger] name[i]) && name[i] != '@',
        forall|i: int| 0 <= i < host.len() ==> !is_blank(#[trigger] host[i]) && host[i] != '@',
        forall|i: int|
            0 <= i < ending.len() ==> !is_blank(#[trigger] ending[i]) && ending[i] != '@',
    ensures
        plausible_email(name + seq!['@'] + host + seq!['.'] + ending),
        !plausible_email(seq!['@'] + host + seq!['.'] + ending),
        host.len() > 0 && !host.contains('.') ==> !plausible_email(name + seq!['@'] + host),
{
    let s = name + seq!['@'] + host + seq!['.'] + ending;
    let at = name.len() as int;
    let dot = at + 1 + host.len();
    assert forall|i: int| 0 <= i < s.len() implies !is_blank(#[trigger] s[i]) && (i != at ==> s[i]
        != '@') by {
        if i < at {
            assert(s[i] == name[i]);
        } else if at < i < dot {
            assert(s[i] == host[i - at - 1]);
        } else if i > dot {
            assert(s[i] == ending[i - dot - 1]);
        }
    }
    assert(single_at(s, at));
    assert(s[dot] == '.');
    let t = seq!['@'] + host + seq!['.'] + ending;
    assert(t[0] == '@');
    let u = name + seq!['@'] + host;
    if host.len() > 0 && !host.contains('.') {
        assert(u[at] == '@');
        assert forall|k: int| at < k < u.len() implies #[trigger] u[k] != '.' by {
            assert(u[k] == host[k - at - 1]);
        }
    }
}

} // verus!
