//! The fixed unit conversion of the waiting-time formula.
//!
//! `exp(multiplier + retry_count)` is a number of milliseconds. Dividing it
//! by the three constants below, in this order, gives hours.

use vstd::prelude::*;

verus! {

/// Milliseconds in a second.
pub const MILLIS_PER_SECOND: u64 = 1000;

/// Seconds in a minute.
pub const SECONDS_PER_MINUTE: u64 = 60;

/// Minutes in an hour.
pub const MINUTES_PER_HOUR: u64 = 60;

/// Milliseconds in an hour: the product of the three steps.
pub const MILLIS_PER_HOUR: u64 = MILLIS_PER_SECOND * SECONDS_PER_MINUTE * MINUTES_PER_HOUR;

} // verus!
