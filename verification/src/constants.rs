//! Chain-level constants used by callers when they assemble a [`crate::types::Config`].

use vstd::prelude::*;

verus! {

/// Inclusive upper bound, in days, on the voting duration a proposal may ask for.
pub const PROPOSAL_DURATION_LIMIT: u32 = 1;

/// How many clock ticks (blocks) the host chain is assumed to produce in one
/// day; a proposal open for `d` days is due `d * BLOCKS_PER_DAY` ticks after
/// its creation tick.
pub const BLOCKS_PER_DAY: u32 = 10;

} // verus!
