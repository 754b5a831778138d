//! The chapter's raw "Membership Status" field: whether a member is in good standing.
//!
//! The set of live values is closed. Two retired values decode to a typed error,
//! so a record still carrying one fails loudly instead of being silently mapped.

use vstd::prelude::*;

use crate::membership::MembershipStatus;
use crate::role::Role;
use crate::text::{same, trim};

#[allow(unused_imports)]
use crate::membership::role_of;
#[allow(unused_imports)]
use crate::text::{is_blank, trimmed};

verus! {

/// A live membership-status value.
#[derive(Debug, Clone, Copy, PartialEq, Eq, Structural)]
pub enum MigsStatus {
    MemberInGoodStanding,
    Lapsed,
}

/// A value no longer in use.
#[derive(Debug, Clone, Copy, PartialEq, Eq, Structural)]
pub enum RetiredMigsStatus {
    LapsedMember,
    ConstitutionalMember,
}

impl RetiredMigsStatus {
    /// The words `as_str` returns.
    pub open spec fn words(self) -> Seq<char> {
        match self {
            RetiredMigsStatus::LapsedMember => "Lapsed Member"@,
            RetiredMigsStatus::ConstitutionalMember => "Constitutional Member"@,
        }
    }

    /// The field value as the source wrote it.
    pub fn as_str(self) -> (r: &'static str)
        ensures
            r@ == self.words(),
    {
        match self {
            RetiredMigsStatus::LapsedMember => "Lapsed Member",
            RetiredMigsStatus::ConstitutionalMember => "Constitutional Member",
        }
    }
}

/// Why a raw field is not a live value.
#[derive(Debug, Clone, PartialEq, Eq)]
pub enum MigsStatusError {
    Missing,
    Unknown(String),
    Retired(RetiredMigsStatus),
}

/// `str`'s quoted debug form: the text in double quotes, special characters escaped.
pub uninterp spec fn quoted(s: Seq<char>) -> Seq<char>;

/// `format!` with `{:?}` on a string: the quoted, escaped form, which depends on the
/// text alone.
#[verifier::external_body]
pub(crate) fn quote(s: &str) -> (r: String)
    ensures
        r@ == quoted(s@),
{
    format!("{:?}", s)
}

impl MigsStatusError {
    /// The error as a line of text.
    pub fn message(&self) -> (r: String)
        ensures
            r@ == (match self {
                MigsStatusError::Missing => "membership status field is missing or empty"@,
                MigsStatusError::Unknown(raw) => "unrecognized membership status: "@ + quoted(raw@),
                MigsStatusError::Retired(old) => "retired membership status: "@ + old.words(),
            }),
    {
        match self {
            MigsStatusError::Missing => "membership status field is missing or empty".to_owned(),
            MigsStatusError::Unknown(raw) => {
                let mut s = "unrecognized membership status: ".to_owned();
                s.append(quote(raw.as_str()).as_str());
                s
            },
            MigsStatusError::Retired(old) => {
                let mut s = "retired membership status: ".to_owned();
                s.append(old.as_str());
                s
            },
        }
    }
}

/// Whether `r` is what a raw field decodes to.
pub open spec fn decodes_to(raw: Option<Seq<char>>, r: Result<MigsStatus, MigsStatusError>) -> bool {
    let t = match raw {
        None => Seq::<char>::empty(),
        Some(s) => trimmed(s),
    };
    if t.len() == 0 {
        r matches Err(MigsStatusError::Missing)
    } else if t == MigsStatus::MemberInGoodStanding.words() {
        r == Ok::<MigsStatus, MigsStatusError>(MigsStatus::MemberInGoodStanding)
    } else if t == MigsStatus::Lapsed.words() {
        r == Ok::<MigsStatus, MigsStatusError>(MigsStatus::Lapsed)
    } else if t == RetiredMigsStatus::LapsedMember.words() {
        r matches Err(MigsStatusError::Retired(RetiredMigsStatus::LapsedMember))
    } else if t == RetiredMigsStatus::ConstitutionalMember.words() {
        r matches Err(MigsStatusError::Retired(RetiredMigsStatus::ConstitutionalMember))
    } else {
        r matches Err(MigsStatusError::Unknown(other)) && other@ == t
    }
}

impl MigsStatus {
    /// The words `as_str` returns.
    pub open spec fn words(self) -> Seq<char> {
        match self {
            MigsStatus::MemberInGoodStanding => "Member in Good Standing"@,
            MigsStatus::Lapsed => "Lapsed"@,
        }
    }

    /// Whether the member is in good standing.
    pub fn is_good(self) -> (r: bool)
        ensures
            r == (self == MigsStatus::MemberInGoodStanding),
    {
        matches!(self, MigsStatus::MemberInGoodStanding)
    }

    /// The field value as the source writes it.
    pub fn as_str(self) -> (r: &'static str)
        ensures
            r@ == self.words(),
    {
        match self {
            MigsStatus::MemberInGoodStanding => "Member in Good Standing",
            MigsStatus::Lapsed => "Lapsed",
        }
    }

    /// Decode a raw field. Surrounding whitespace is ignored; an absent or blank field
    /// is `Missing`, a retired value `Retired`, anything else `Unknown` with the trimmed
    /// text.
    pub fn decode(raw: Option<&str>) -> (r: Result<MigsStatus, MigsStatusError>)
        ensures
            decodes_to(
                match raw {
                    None => None,
                    Some(s) => Some(s@),
                },
                r,
            ),
    {
        let t = match raw {
            None => "",
            Some(s) => trim(s),
        };
        proof {
            reveal_strlit("");
        }
        if t.is_empty() {
            Err(MigsStatusError::Missing)
        } else if same(t, "Member in Good Standing") {
            Ok(MigsStatus::MemberInGoodStanding)
        } else if same(t, "Lapsed") {
            Ok(MigsStatus::Lapsed)
        } else if same(t, "Lapsed Member") {
            Err(MigsStatusError::Retired(RetiredMigsStatus::LapsedMember))
        } else if same(t, "Constitutional Member") {
            Err(MigsStatusError::Retired(RetiredMigsStatus::ConstitutionalMember))
        } else {
            Err(MigsStatusError::Unknown(t.to_owned()))
        }
    }
}

/// The computed status a raw value folds into.
pub open spec fn status_of(status: MigsStatus) -> MembershipStatus {
    match status {
        MigsStatus::MemberInGoodStanding => MembershipStatus::Member,
        MigsStatus::Lapsed => MembershipStatus::DuesExpired,
    }
}

impl From<MigsStatus> for MembershipStatus {
    fn from(status: MigsStatus) -> (r: Self) {
        match status {
            MigsStatus::MemberInGoodStanding => MembershipStatus::Member,
            MigsStatus::Lapsed => MembershipStatus::DuesExpired,
        }
    }
}

impl vstd::std_specs::convert::FromSpecImpl<MigsStatus> for MembershipStatus {
    open spec fn obeys_from_spec() -> bool {
        true
    }

    open spec fn from_spec(status: MigsStatus) -> Self {
        status_of(status)
    }
}

/// Decoding the text of a live value gives that value back.
pub proof fn law_live_values_round_trip(status: MigsStatus, r: Result<MigsStatus, MigsStatusError>)
    requires
        decodes_to(Some(status.words()), r),
    ensures
        r == Ok::<MigsStatus, MigsStatusError>(status),
{
    reveal_strlit("Member in Good Standing");
    reveal_strlit("Lapsed");
    assert(status.words().len() > 0);
    assert(!is_blank(status.words()[0]));
    assert(!is_blank(status.words().last()));
    assert("Member in Good Standing"@.len() != "Lapsed"@.len());
}

/// A retired value never decodes to a live one.
pub proof fn law_retired_values_are_errors(
    old: RetiredMigsStatus,
    r: Result<MigsStatus, MigsStatusError>,
)
    requires
        decodes_to(Some(old.words()), r),
    ensures
        r matches Err(MigsStatusError::Retired(e)) && e == old,
{
    reveal_strlit("Member in Good Standing");
    reveal_strlit("Lapsed");
    reveal_strlit("Lapsed Member");
    reveal_strlit("Constitutional Member");
    assert(!is_blank(old.words()[0]));
    assert(!is_blank(old.words().last()));
    assert("Constitutional Member"@.len() != "Lapsed Member"@.len());
}

/// Only a member in good standing folds to a status that earns the Member role.
pub proof fn law_only_good_standing_earns_member(status: MigsStatus)
    ensures
        role_of(status_of(status)) == Ok::<Role, crate::membership::MalformedMembership>(
            Role::Member,
        ) <==> status == MigsStatus::MemberInGoodStanding,
{
}

/// A field decodes to a live value exactly when, blanks around it aside, it is that value's
/// text, letter for letter; a blank or absent one is missing, and any other is unknown under
/// its own text.
pub proof fn law_a_field_decodes_by_its_text(
    raw: Seq<char>,
    r: Result<MigsStatus, MigsStatusError>,
    absent: Result<MigsStatus, MigsStatusError>,
)
    requires
        decodes_to(Some(raw), r),
        decodes_to(None, absent),
    ensures
        r == Ok::<MigsStatus, MigsStatusError>(MigsStatus::MemberInGoodStanding) <==> trimmed(raw)
            == "Member in Good Standing"@,
        r == Ok::<MigsStatus, MigsStatusError>(MigsStatus::Lapsed) <==> trimmed(raw) == "Lapsed"@,
        (r matches Err(MigsStatusError::Retired(RetiredMigsStatus::LapsedMember))) <==> trimmed(raw)
            == "Lapsed Member"@,
        (r matches Err(MigsStatusError::Retired(RetiredMigsStatus::ConstitutionalMember)))
            <==> trimmed(raw) == "Constitutional Member"@,
        (r matches Err(MigsStatusError::Missing)) <==> trimmed(raw).len() == 0,
        (r matches Err(MigsStatusError::Unknown(t)) ==> t@ == trimmed(raw)),
        absent matches Err(MigsStatusError::Missing),
{
    reveal_strlit("Member in Good Standing");
    reveal_strlit("Lapsed");
    reveal_strlit("Lapsed Member");
    reveal_strlit("Constitutional Member");
    assert("Member in Good Standing"@.len() == 23 && "Lapsed"@.len() == 6 && "Lapsed Member"@.len()
        == 13 && "Constitutional Member"@.len() == 21);
}

/// Good standing folds to membership and a lapse to expired dues.
pub proof fn law_standing_folds_to_its_status(status: MigsStatus)
    ensures
        status_of(status) == MembershipStatus::Member <==> status
            == MigsStatus::MemberInGoodStanding,
        status_of(status) == MembershipStatus::DuesExpired <==> status == MigsStatus::Lapsed,
{
}

/// A failed decode says what was wrong, in different words for each kind.
pub proof fn law_decode_errors_say_what_was_wrong(error: &MigsStatusError, r: String)
    requires
        call_ensures(MigsStatusError::message, (error,), r),
    ensures
        (*error matches MigsStatusError::Missing) ==> r@
            == "membership status field is missing or empty"@,
        (*error matches MigsStatusError::Unknown(raw) ==> r@ == "unrecognized membership status: "@
            + quoted(raw@)),
        (*error matches MigsStatusError::Retired(old) ==> r@ == "retired membership status: "@ + (
        match old {
            RetiredMigsStatus::LapsedMember => "Lapsed Member"@,
            RetiredMigsStatus::ConstitutionalMember => "Constitutional Member"@,
        })),
{
}

} // verus!
