//! Which commands are registered.

use vstd::prelude::*;

verus! {

/// A command the bot can register.
#[derive(Debug, Clone, Copy, PartialEq, Eq, Structural)]
pub enum Command {
    MembershipCard,
    MembershipCardMenu,
    Lookup,
    Verify,
    BulkVerify,
    Channels,
    Grace,
    RefreshCache,
    /// With the test-send subcommand or without.
    Reminders { test_send: bool },
    Setup,
    Help,
    Forget,
    StripRoles,
}

/// The commands every deployment has, then those only a testing one asks for.
pub open spec fn registered(test_send: bool, forget: bool, strip_roles: bool) -> Seq<Command> {
    seq![
        Command::MembershipCard,
        Command::MembershipCardMenu,
        Command::Lookup,
        Command::Verify,
        Command::BulkVerify,
        Command::Channels,
        Command::Grace,
        Command::RefreshCache,
        Command::Reminders { test_send },
        Command::Setup,
        Command::Help,
    ] + (if forget {
        seq![Command::Forget]
    } else {
        Seq::empty()
    }) + (if strip_roles {
        seq![Command::StripRoles]
    } else {
        Seq::empty()
    })
}

/// Every command the bot registers. The testing affordances are there only where the
/// deployment asks for each.
pub fn all(test_send: bool, forget: bool, strip_roles: bool) -> (r: Vec<Command>)
    ensures
        r@ == registered(test_send, forget, strip_roles),
{
    let mut commands = vec![
        Command::MembershipCard,
        Command::MembershipCardMenu,
        Command::Lookup,
        Command::Verify,
        Command::BulkVerify,
        Command::Channels,
        Command::Grace,
        Command::RefreshCache,
        Command::Reminders { test_send },
        Command::Setup,
        Command::Help,
    ];
    if forget {
        commands.push(Command::Forget);
    }
    if strip_roles {
        commands.push(Command::StripRoles);
    }
    assert(commands@ =~= registered(test_send, forget, strip_roles));
    commands
}

/// A testing command is registered exactly where it is asked for.
pub proof fn law_testing_commands_are_opt_in(test_send: bool, forget: bool, strip_roles: bool)
    ensures
        registered(test_send, forget, strip_roles).contains(Command::Forget) <==> forget,
        registered(test_send, forget, strip_roles).contains(Command::StripRoles) <==> strip_roles,
        registered(test_send, forget, strip_roles).contains(
            Command::Reminders { test_send: true },
        ) <==> test_send,
{
    let all = registered(test_send, forget, strip_roles);
    assert(all[8] == Command::Reminders { test_send });
    if forget {
        assert(all[11] == Command::Forget);
    }
    if strip_roles {
        assert(all[all.len() - 1] == Command::StripRoles);
    }
}

/// Every deployment has the same eleven commands, in the same order, before any it asks for.
pub proof fn law_every_deployment_has_its_commands(test_send: bool, forget: bool, strip_roles: bool)
    ensures
        ({
            let cs = registered(test_send, forget, strip_roles);
            &&& cs.take(11) =~= seq![
                Command::MembershipCard,
                Command::MembershipCardMenu,
                Command::Lookup,
                Command::Verify,
                Command::BulkVerify,
                Command::Channels,
                Command::Grace,
                Command::RefreshCache,
                Command::Reminders { test_send },
                Command::Setup,
                Command::Help,
            ]
            &&& cs.len() == 11 + (if forget {
                1int
            } else {
                0int
            }) + if strip_roles {
                1int
            } else {
                0int
            }
        }),
{
}

} // verus!
