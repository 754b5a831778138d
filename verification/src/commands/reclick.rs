//! The dispatch decision for a button press that arrives while a modal is open.
//!
//! A modal dismissed without submitting fires no event, so the buttons on the host
//! message stay live. A press then either reopens the same modal or is handed back to
//! the wizard's main dispatch.

use vstd::prelude::*;

use crate::text::same;

verus! {

/// What a button press means while the modal opened by some trigger button is live.
#[derive(Debug, Clone, Copy, PartialEq, Eq, Structural)]
pub enum ReclickAction {
    /// Reopen the same modal in place: the button that opened it was pressed again.
    Reopen,
    /// A different control was pressed: the modal stays closed and the press is routed.
    Redispatch,
}

/// Decide what a press of `pressed` means while the modal opened by `trigger` is live.
/// Only a re-click of the trigger reopens the modal.
pub fn reclick_action(pressed: &str, trigger: &str) -> (r: ReclickAction)
    ensures
        r == ReclickAction::Reopen <==> pressed@ == trigger@,
        r == ReclickAction::Redispatch <==> pressed@ != trigger@,
{
    if same(pressed, trigger) {
        ReclickAction::Reopen
    } else {
        ReclickAction::Redispatch
    }
}

/// Only the button that opened a modal reopens it; any other press goes where it belongs.
pub proof fn law_only_the_trigger_reopens(pressed: &str, trigger: &str, r: ReclickAction)
    requires
        call_ensures(reclick_action, (pressed, trigger), r),
    ensures
        r == ReclickAction::Reopen <==> pressed@ == trigger@,
{
}

} // verus!
