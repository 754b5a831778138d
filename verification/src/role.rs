//! The three membership status tiers the bot manages on the guild.

use vstd::prelude::*;

verus! {

/// A managed role tier.
#[derive(Debug, Clone, Copy, PartialEq, Eq, Hash, Structural)]
pub enum Role {
    Member,
    DuesExpired,
    Unverified,
}

impl Role {
    /// Every tier.
    pub const ALL: [Role; 3] = [Role::Member, Role::DuesExpired, Role::Unverified];

    /// The words `as_str` returns.
    pub open spec fn words(self) -> Seq<char> {
        match self {
            Role::Member => "Member"@,
            Role::DuesExpired => "Dues Expired"@,
            Role::Unverified => "Unverified"@,
        }
    }

    /// The display name of the tier.
    pub fn as_str(self) -> (r: &'static str)
        ensures
            r@ == self.words(),
    {
        match self {
            Role::Member => "Member",
            Role::DuesExpired => "Dues Expired",
            Role::Unverified => "Unverified",
        }
    }
}

/// `Role::ALL` lists every tier, each once.
pub proof fn law_all_roles(role: Role)
    ensures
        exists|i: int| 0 <= i < 3 && Role::ALL@[i] == role,
        forall|i: int, j: int| 0 <= i < j < 3 ==> Role::ALL@[i] != Role::ALL@[j],
{
    assert(Role::ALL@[0] == Role::Member);
    assert(Role::ALL@[1] == Role::DuesExpired);
    assert(Role::ALL@[2] == Role::Unverified);
}

/// Each role goes by its own name, and no two share one.
pub proof fn law_roles_go_by_their_names(a: Role, b: Role)
    ensures
        Role::Member.words() == "Member"@,
        Role::DuesExpired.words() == "Dues Expired"@,
        Role::Unverified.words() == "Unverified"@,
        a != b ==> a.words() != b.words(),
{
    reveal_strlit("Member");
    reveal_strlit("Dues Expired");
    reveal_strlit("Unverified");
    assert("Member"@.len() == 6 && "Dues Expired"@.len() == 12 && "Unverified"@.len() == 10);
}

} // verus!
