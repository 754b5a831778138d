//! The dry-run flag every write path threads through.

use vstd::prelude::*;

verus! {

/// Whether a write path reports what it would do instead of doing it.
#[derive(Debug, Clone, Copy, PartialEq, Eq, Structural)]
pub struct DryRun(pub bool);

impl DryRun {
    /// Perform the writes.
    pub fn live() -> (r: DryRun)
        ensures
            r == DryRun(false),
    {
        DryRun(false)
    }

    /// Only report them.
    pub fn dry() -> (r: DryRun)
        ensures
            r == DryRun(true),
    {
        DryRun(true)
    }

    /// Whether writes are suppressed.
    pub fn is_dry(self) -> (r: bool)
        ensures
            r == self.0,
    {
        self.0
    }
}

} // verus!
