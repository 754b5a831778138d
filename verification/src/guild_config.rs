//! The bridge from the live guild configuration to the role writer's map.

use vstd::prelude::*;

use crate::ids::DiscordRoleId;
use crate::role::Role;
use crate::store::GuildConfig;

verus! {

/// The Discord role behind each managed role.
#[derive(Debug, Clone, Copy, PartialEq, Eq, Structural)]
pub struct RoleMap {
    pub member: DiscordRoleId,
    pub dues_expired: DiscordRoleId,
    pub unverified: DiscordRoleId,
}

impl RoleMap {
    /// The Discord role behind a managed role.
    pub open spec fn at(&self, role: Role) -> DiscordRoleId {
        match role {
            Role::Member => self.member,
            Role::DuesExpired => self.dues_expired,
            Role::Unverified => self.unverified,
        }
    }

    /// The Discord role behind a managed role.
    pub fn get(&self, role: Role) -> (r: DiscordRoleId)
        ensures
            r == self.at(role),
    {
        match role {
            Role::Member => self.member,
            Role::DuesExpired => self.dues_expired,
            Role::Unverified => self.unverified,
        }
    }
}

/// The Discord role a configuration gives a managed role.
pub open spec fn configured_role(cfg: GuildConfig, role: Role) -> Option<DiscordRoleId> {
    match role {
        Role::Member => cfg.member_role,
        Role::DuesExpired => cfg.dues_expired_role,
        Role::Unverified => cfg.unverified_role,
    }
}

/// The managed-role map, or nothing if any of the three is unset: a write path reports that
/// the roles are not configured rather than acting on a partial map.
pub fn managed_role_map(cfg: &GuildConfig) -> (r: Option<RoleMap>)
    ensures
        r is Some <==> forall|role: Role| #[trigger] configured_role(*cfg, role) is Some,
        r matches Some(map) ==> forall|role: Role| #[trigger]
            configured_role(*cfg, role) == Some(map.at(role)),
{
    assert(configured_role(*cfg, Role::Member) == cfg.member_role);
    assert(configured_role(*cfg, Role::DuesExpired) == cfg.dues_expired_role);
    assert(configured_role(*cfg, Role::Unverified) == cfg.unverified_role);
    match (cfg.member_role, cfg.dues_expired_role, cfg.unverified_role) {
        (Some(member), Some(dues_expired), Some(unverified)) => Some(
            RoleMap { member, dues_expired, unverified },
        ),
        _ => None,
    }
}

/// A map has each tier's own role as it was configured, and there is one exactly when all
/// three are.
pub proof fn law_each_tier_has_its_own_role(cfg: &GuildConfig, r: Option<RoleMap>)
    requires
        call_ensures(managed_role_map, (cfg,), r),
    ensures
        r is Some <==> cfg.member_role is Some && cfg.dues_expired_role is Some
            && cfg.unverified_role is Some,
        (r matches Some(map) ==> cfg.member_role == Some(map.member) && cfg.dues_expired_role
            == Some(map.dues_expired) && cfg.unverified_role == Some(map.unverified) && map.at(
            Role::Member,
        ) == map.member && map.at(Role::DuesExpired) == map.dues_expired && map.at(Role::Unverified)
            == map.unverified),
{
    assert(configured_role(*cfg, Role::Member) == cfg.member_role);
    assert(configured_role(*cfg, Role::DuesExpired) == cfg.dues_expired_role);
    assert(configured_role(*cfg, Role::Unverified) == cfg.unverified_role);
    if cfg.member_role is Some && cfg.dues_expired_role is Some && cfg.unverified_role is Some {
        assert forall|role: Role| #[trigger] configured_role(*cfg, role) is Some by {
            match role {
                Role::Member => {},
                Role::DuesExpired => {},
                Role::Unverified => {},
            }
        }
    }
    if let Some(map) = r {
        assert(map.at(Role::Member) == map.member);
    }
}

} // verus!
