//! The computed membership status and its mapping to a role.

use vstd::prelude::*;

use crate::role::Role;

verus! {

/// The computed verification outcome for a member.
#[derive(Debug, Clone, Copy, PartialEq, Eq, Structural)]
pub enum MembershipStatus {
    Member,
    DuesExpired,
    Malformed,
}

/// A status with no usable standing to assign a role from.
#[derive(Debug, Clone, Copy, PartialEq, Eq, Structural)]
pub struct MalformedMembership;

impl MalformedMembership {
    /// The error as a line of text.
    pub fn message(&self) -> (r: &'static str)
        ensures
            r@ == "membership status is malformed: no usable standing to assign a role"@,
    {
        "membership status is malformed: no usable standing to assign a role"
    }
}

/// The role a computed status earns; a malformed one earns none.
pub open spec fn role_of(status: MembershipStatus) -> Result<Role, MalformedMembership> {
    match status {
        MembershipStatus::Member => Ok(Role::Member),
        MembershipStatus::DuesExpired => Ok(Role::DuesExpired),
        MembershipStatus::Malformed => Err(MalformedMembership),
    }
}

impl TryFrom<MembershipStatus> for Role {
    type Error = MalformedMembership;

    fn try_from(status: MembershipStatus) -> (r: Result<Self, MalformedMembership>) {
        match status {
            MembershipStatus::Member => Ok(Role::Member),
            MembershipStatus::DuesExpired => Ok(Role::DuesExpired),
            MembershipStatus::Malformed => Err(MalformedMembership),
        }
    }
}

impl vstd::std_specs::convert::TryFromSpecImpl<MembershipStatus> for Role {
    open spec fn obeys_try_from_spec() -> bool {
        true
    }

    open spec fn try_from_spec(status: MembershipStatus) -> Result<Self, MalformedMembership> {
        role_of(status)
    }
}

/// No status ever earns the Unverified tier, and only a current member earns Member.
pub proof fn law_member_role_needs_member_status(status: MembershipStatus)
    ensures
        role_of(status) != Ok::<Role, MalformedMembership>(Role::Unverified),
        role_of(status) == Ok::<Role, MalformedMembership>(Role::Member) <==> status
            == MembershipStatus::Member,
{
}

/// Each status earns its role: a member Member, a lapsed one Dues Expired, and a malformed
/// one none.
pub proof fn law_each_status_earns_its_role(status: MembershipStatus)
    ensures
        role_of(status) == Ok::<Role, MalformedMembership>(Role::DuesExpired) <==> status
            == MembershipStatus::DuesExpired,
        role_of(status) is Err <==> status == MembershipStatus::Malformed,
{
}

} // verus!
