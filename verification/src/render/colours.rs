//! The accent colours shared by the cards.

use vstd::prelude::*;

verus! {

/// Good standing, or a finished run.
pub const COLOR_GREEN: u32 = 0x3b_a5_5d;

/// Attention needed, recoverable.
pub const COLOR_AMBER: u32 = 0xfa_a6_1a;

/// Lapsed, in conflict, or failed.
pub const COLOR_RED: u32 = 0xed_42_45;

/// Neutral or in progress.
pub const COLOR_BLURPLE: u32 = 0x58_65_f2;

/// Approved by hand rather than matched on record.
pub const COLOR_VIOLET: u32 = 0x92_56_e0;

} // verus!
