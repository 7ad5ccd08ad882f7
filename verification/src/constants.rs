use vstd::prelude::*;

verus! {

/// Longest lock, in seconds, that a deposit may ask for (365 days).
pub const MAX_LOCK_PERIOD: u64 = 31_536_000;

/// Longest extension, in seconds, that one request may add to a lock (365 days).
pub const MAX_EXTEND_PERIOD: u64 = 31_536_000;

/// Fee, in percent of the amount, on a withdrawal made while the lock is running.
pub const LOCKED_FEE_PERCENTAGE: u64 = 5;

/// Fee, in percent of the amount, on a withdrawal made once the lock has run out.
pub const UNLOCKED_FEE_PERCENTAGE: u64 = 1;

/// What a fee percentage is a fraction of.
pub const FEE_DENOMINATOR: u64 = 100;

} // verus!
