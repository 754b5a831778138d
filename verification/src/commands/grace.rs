//! `/grace`: grant a member a dues-grace window, or clear it. Moderators only.

use vstd::prelude::*;

use crate::commands::replies::{MODERATORS_ONLY, ROLES_NOT_CONFIGURED};
use crate::dates::Date;

#[allow(unused_imports)]
use crate::dates::MAX_DAY;
#[allow(unused_imports)]
use crate::ui::{opt_str_view, opt_view};

verus! {

pub const DAYS_MUST_BE_POSITIVE: &'static str = "Days must be greater than 0.";

/// The change asked for.
#[derive(Debug, Clone, Copy, PartialEq, Eq, Structural)]
pub enum GraceChange {
    /// Grant this many days, today included.
    Grant(u32),
    /// Lift the grace early.
    Clear,
}

/// Where a `/grace` invocation stands; from the stamp on, with the last day of grace where
/// one is granted.
#[derive(Debug, Clone, Copy, PartialEq, Eq)]
pub enum GracePhase {
    Start,
    Stamping(Option<Date>),
    Auditing(Option<Date>),
    Verifying(Option<Date>),
    Done,
}

/// What just happened to it.
#[derive(Debug, Clone, PartialEq, Eq)]
pub enum GraceEvent {
    Invoked { is_moderator: bool, today: Date },
    /// The stamp was written or lifted, or could not be.
    Stamped(bool),
    /// The audit row was written, or could not be; the managed roles are set, or not.
    Audited { written: bool, roles_configured: bool },
    /// The member was verified anew; why not, where that failed.
    Verified(Option<String>),
}

/// What it does next.
#[derive(Debug, Clone, PartialEq, Eq)]
pub enum GraceAction {
    /// Say this, privately, and stop.
    Reply(String),
    /// Write the stamp, held through this day.
    Stamp(Date),
    /// Lift the stamp.
    Lift,
    /// Fail the command.
    Fail,
    /// Write an audit row, with the number of days where there is one.
    Audit { action: &'static str, days: Option<u32> },
    /// Run the member through verification.
    Verify,
    /// Nothing: the event does not belong to this phase.
    Ignore,
}

/// What an action shows.
pub enum GraceActionView {
    Reply(Seq<char>),
    Stamp(Date),
    Lift,
    Fail,
    Audit { action: Seq<char>, days: Option<u32> },
    Verify,
    Ignore,
}

impl View for GraceAction {
    type V = GraceActionView;

    open spec fn view(&self) -> GraceActionView {
        match *self {
            GraceAction::Reply(s) => GraceActionView::Reply(s@),
            GraceAction::Stamp(d) => GraceActionView::Stamp(d),
            GraceAction::Lift => GraceActionView::Lift,
            GraceAction::Fail => GraceActionView::Fail,
            GraceAction::Audit { action, days } => GraceActionView::Audit { action: action@, days },
            GraceAction::Verify => GraceActionView::Verify,
            GraceAction::Ignore => GraceActionView::Ignore,
        }
    }
}

/// The confirmation, with the last day of grace written out where one is granted.
pub open spec fn confirmation_words(name: Seq<char>, until: Option<Seq<char>>) -> Seq<char> {
    match until {
        Some(day) => "Grace set: "@ + name + " is held at Member until "@ + day + " (inclusive)."@,
        None => "Grace cleared for "@ + name + "; role reverted to their current standing."@,
    }
}

/// Confirm a change, with the last day of grace written out where one is granted.
pub fn confirmation(name: &str, until: Option<&str>) -> (r: String)
    ensures
        r@ == confirmation_words(name@, opt_str_view(until)),
{
    match until {
        Some(day) => "Grace set: ".to_owned().concat(name).concat(
            " is held at Member until ",
        ).concat(day).concat(" (inclusive)."),
        None => "Grace cleared for ".to_owned().concat(name).concat(
            "; role reverted to their current standing.",
        ),
    }
}

/// What is said when the change was saved but the role could not be updated.
pub open spec fn not_synced_words(why: Seq<char>) -> Seq<char> {
    "The grace change was saved, but updating the role failed: "@ + why
        + ". Retry /verify to sync their role."@
}

/// The last day of grace, written out.
pub open spec fn until_words(until: Option<Date>) -> Option<Seq<char>> {
    match until {
        Some(d) => Some(d.words()),
        None => None,
    }
}

/// Whether a step of `/grace` is the one it must be.
pub open spec fn graces(
    change: GraceChange,
    name: Seq<char>,
    phase: GracePhase,
    event: GraceEvent,
    next: GracePhase,
    action: GraceActionView,
) -> bool {
    match (phase, event) {
        (GracePhase::Start, GraceEvent::Invoked { is_moderator, today }) => if !is_moderator {
            next is Done && action == GraceActionView::Reply(MODERATORS_ONLY@)
        } else {
            match change {
                GraceChange::Grant(days) => if days == 0 {
                    next is Done && action == GraceActionView::Reply(DAYS_MUST_BE_POSITIVE@)
                } else {
                    next matches GracePhase::Stamping(Some(until)) && until.day() == today.day()
                        + days - 1 && action == GraceActionView::Stamp(until)
                },
                GraceChange::Clear => next == GracePhase::Stamping(None) && action
                    == GraceActionView::Lift,
            }
        },
        (GracePhase::Stamping(until), GraceEvent::Stamped(ok)) => if ok {
            next == GracePhase::Auditing(until) && action == (match change {
                GraceChange::Grant(days) => GraceActionView::Audit {
                    action: "grace_set"@,
                    days: Some(days),
                },
                GraceChange::Clear => GraceActionView::Audit { action: "grace_clear"@, days: None },
            })
        } else {
            next is Done && action == GraceActionView::Fail
        },
        (GracePhase::Auditing(until), GraceEvent::Audited { written: _, roles_configured }) => if roles_configured {
            next == GracePhase::Verifying(until) && action == GraceActionView::Verify
        } else {
            next is Done && action == GraceActionView::Reply(ROLES_NOT_CONFIGURED@)
        },
        (GracePhase::Verifying(until), GraceEvent::Verified(failure)) => next is Done && action
            == GraceActionView::Reply(
            match failure {
                None => confirmation_words(name, until_words(until)),
                Some(why) => not_synced_words(why@),
            },
        ),
        _ => next == phase && action == GraceActionView::Ignore,
    }
}

/// Carry a `/grace` invocation one step on. The window runs from today through its last day
/// inclusive, and a moderator's must end within the calendar. The stamp comes first: once it stands, a
/// failed role update is reported as something to retry, not rolled back.
pub fn grace(change: GraceChange, name: &str, phase: GracePhase, event: GraceEvent) -> (r: (
    GracePhase,
    GraceAction,
))
    requires
        phase is Start ==> (event matches GraceEvent::Invoked { is_moderator, today } ==> (
        change matches GraceChange::Grant(days) ==> (is_moderator ==> today.day() + days - 1
            <= MAX_DAY))),
    ensures
        graces(change, name@, phase, event, r.0, r.1@),
{
    match (phase, event) {
        (GracePhase::Start, GraceEvent::Invoked { is_moderator, today }) => {
            if !is_moderator {
                return (GracePhase::Done, GraceAction::Reply(MODERATORS_ONLY.to_owned()));
            }
            match change {
                GraceChange::Grant(days) => {
                    if days == 0 {
                        return (
                            GracePhase::Done,
                            GraceAction::Reply(DAYS_MUST_BE_POSITIVE.to_owned()),
                        );
                    }
                    match today.checked_add_days((days - 1) as u64) {
                        Some(until) => (GracePhase::Stamping(Some(until)), GraceAction::Stamp(until)),
                        None => (GracePhase::Done, GraceAction::Fail),
                    }
                },
                GraceChange::Clear => (GracePhase::Stamping(None), GraceAction::Lift),
            }
        },
        (GracePhase::Stamping(until), GraceEvent::Stamped(ok)) => {
            if !ok {
                return (GracePhase::Done, GraceAction::Fail);
            }
            let row = match change {
                GraceChange::Grant(days) => GraceAction::Audit {
                    action: "grace_set",
                    days: Some(days),
                },
                GraceChange::Clear => GraceAction::Audit { action: "grace_clear", days: None },
            };
            (GracePhase::Auditing(until), row)
        },
        (GracePhase::Auditing(until), GraceEvent::Audited { written: _, roles_configured }) => {
            if roles_configured {
                (GracePhase::Verifying(until), GraceAction::Verify)
            } else {
                (GracePhase::Done, GraceAction::Reply(ROLES_NOT_CONFIGURED.to_owned()))
            }
        },
        (GracePhase::Verifying(until), GraceEvent::Verified(failure)) => {
            let said = match failure {
                None => match until {
                    Some(d) => confirmation(name, Some(d.card_text().as_str())),
                    None => confirmation(name, None),
                },
                Some(why) => "The grace change was saved, but updating the role failed: ".to_owned().concat(
                    why.as_str(),
                ).concat(". Retry /verify to sync their role."),
            };
            (GracePhase::Done, GraceAction::Reply(said))
        },
        (phase, _) => (phase, GraceAction::Ignore),
    }
}

/// Grace granted for some days holds through exactly that many, today the first.
pub proof fn law_grace_covers_the_days_asked_for(
    days: u32,
    name: Seq<char>,
    today: Date,
    next: GracePhase,
    action: GraceActionView,
    day: int,
)
    requires
        days > 0,
        graces(
            GraceChange::Grant(days),
            name,
            GracePhase::Start,
            GraceEvent::Invoked { is_moderator: true, today },
            next,
            action,
        ),
    ensures
        action matches GraceActionView::Stamp(until) && (today.day() <= day <= until.day() <==> 0
            <= day - today.day() < days),
{
}

/// Nothing is stamped, lifted, logged or verified for someone who is no moderator.
pub proof fn law_only_moderators_change_grace(
    change: GraceChange,
    name: Seq<char>,
    today: Date,
    next: GracePhase,
    action: GraceActionView,
)
    requires
        graces(
            change,
            name,
            GracePhase::Start,
            GraceEvent::Invoked { is_moderator: false, today },
            next,
            action,
        ),
    ensures
        next is Done,
        action == GraceActionView::Reply(MODERATORS_ONLY@),
{
}

/// A granted change walked to its end: the stamp runs through today and the days asked for,
/// the audit row tells the change and the days, the member is verified anew, and the answer
/// names the member and the very day that was stamped. A cleared grace is lifted, logged and
/// confirmed as cleared.
pub proof fn law_a_grace_change_is_carried_through(
    change: GraceChange,
    name: Seq<char>,
    today: Date,
    written: bool,
    p1: GracePhase,
    a1: GraceActionView,
    p2: GracePhase,
    a2: GraceActionView,
    p3: GracePhase,
    a3: GraceActionView,
    p4: GracePhase,
    a4: GraceActionView,
)
    requires
        change matches GraceChange::Grant(days) ==> days > 0,
        graces(
            change,
            name,
            GracePhase::Start,
            GraceEvent::Invoked { is_moderator: true, today },
            p1,
            a1,
        ),
        graces(change, name, p1, GraceEvent::Stamped(true), p2, a2),
        graces(
            change,
            name,
            p2,
            GraceEvent::Audited { written, roles_configured: true },
            p3,
            a3,
        ),
        graces(change, name, p3, GraceEvent::Verified(None), p4, a4),
    ensures
        a3 == GraceActionView::Verify,
        p4 is Done,
        (change matches GraceChange::Grant(days) ==> (a1 matches GraceActionView::Stamp(until)
            && until.day() == today.day() + days - 1 && a2 == (GraceActionView::Audit {
            action: "grace_set"@,
            days: Some(days),
        }) && a4 == GraceActionView::Reply(
            "Grace set: "@ + name + " is held at Member until "@ + until.words()
                + " (inclusive)."@,
        ))),
        change is Clear ==> a1 == GraceActionView::Lift && a2 == (GraceActionView::Audit {
            action: "grace_clear"@,
            days: None,
        }) && a4 == GraceActionView::Reply(
            "Grace cleared for "@ + name + "; role reverted to their current standing."@,
        ),
{
}

/// What stops a change: no days, a stamp that could not be written, roles that are not set,
/// or a role that could not be updated, each with its own answer.
pub proof fn law_a_grace_change_fails_as_it_should(
    change: GraceChange,
    name: Seq<char>,
    today: Date,
    until: Option<Date>,
    written: bool,
    why: String,
    next: GracePhase,
    action: GraceActionView,
)
    ensures
        change == GraceChange::Grant(0) && graces(
            change,
            name,
            GracePhase::Start,
            GraceEvent::Invoked { is_moderator: true, today },
            next,
            action,
        ) ==> next is Done && action == GraceActionView::Reply(DAYS_MUST_BE_POSITIVE@),
        graces(
            change,
            name,
            GracePhase::Stamping(until),
            GraceEvent::Stamped(false),
            next,
            action,
        ) ==> next is Done && action == GraceActionView::Fail,
        graces(
            change,
            name,
            GracePhase::Auditing(until),
            GraceEvent::Audited { written, roles_configured: false },
            next,
            action,
        ) ==> next is Done && action == GraceActionView::Reply(ROLES_NOT_CONFIGURED@),
        graces(
            change,
            name,
            GracePhase::Verifying(until),
            GraceEvent::Verified(Some(why)),
            next,
            action,
        ) ==> next is Done && action == GraceActionView::Reply(
            "The grace change was saved, but updating the role failed: "@ + why@
                + ". Retry /verify to sync their role."@,
        ),
{
}

/// An answered change is over, and what does not belong to where it stands changes nothing.
pub proof fn law_an_answered_grace_is_over(
    change: GraceChange,
    name: Seq<char>,
    phase: GracePhase,
    event: GraceEvent,
    next: GracePhase,
    action: GraceActionView,
)
    requires
        graces(change, name, phase, event, next, action),
    ensures
        action is Reply || action is Fail ==> next is Done,
        action is Ignore ==> next == phase,
        phase is Done ==> action is Ignore,
        action is Stamp ==> next is Stamping && phase is Start,
        action is Verify ==> next is Verifying && phase is Auditing,
{
}

} // verus!
