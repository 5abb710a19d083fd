use vstd::prelude::*;

verus! {

/// Delay that covers a complete carriage or platen motion, in milliseconds.
pub const LONG_MS: u64 = 1000;

/// Settle delay before a motion command, in milliseconds.
pub const SHORT_MS: u64 = 200;

/// Short pause between status polls, in milliseconds.
pub const TINY_MS: u64 = 50;

} // verus!
