//! Asking a source whose answer is not ours to predict: the clock, the random source, the
//! service manager. What was answered can be told apart from what was made up.

use vstd::prelude::*;

verus! {

/// Ask a source, and remember that the answer is its own.
pub(crate) fn asked<T, F: Fn() -> T>(source: F) -> (r: T)
    requires
        call_requires(source, ()),
    ensures
        call_ensures(source, (), r),
{
    source()
}

} // verus!
