//! Checks and arithmetic behind the manual-boost endpoint.

use crate::time::{is_instant, plus_minutes, NANOS_PER_MINUTE};
use vstd::prelude::*;

verus! {

/// Shortest manual boost, in minutes.
pub const MIN_BOOST_MINUTES: u32 = 1u32;

/// Longest manual boost, in minutes (eight hours).
pub const MAX_BOOST_MINUTES: u32 = 480u32;

/// A request to boost for a number of minutes.
#[derive(Debug, Clone, Copy, PartialEq, Eq, Structural)]
pub struct BoostRequest {
    pub duration_minutes: u32,
}

/// Why a boost request was refused.
#[derive(Debug, Clone, Copy, PartialEq, Eq, Structural)]
pub enum BoostError {
    /// The duration lies outside 1 ..= 480 minutes.
    DurationOutOfRange,
}

/// Whether a boost duration is accepted.
pub open spec fn boost_duration_ok(minutes: u32) -> bool {
    MIN_BOOST_MINUTES <= minutes <= MAX_BOOST_MINUTES
}

impl BoostRequest {
    /// The end of the boost requested at `now`: `now` plus the duration, or
    /// an error when the duration lies outside 1 ..= 480 minutes.
    pub fn boost_until(&self, now: i128) -> (r: Result<i128, BoostError>)
        requires
            is_instant(now as int),
            boost_duration_ok(self.duration_minutes) ==> is_instant(
                now + self.duration_minutes * NANOS_PER_MINUTE,
            ),
        ensures
            r is Err <==> !boost_duration_ok(self.duration_minutes),
            r matches Ok(t) ==> t == now + self.duration_minutes * NANOS_PER_MINUTE,
            r matches Err(e) ==> e == BoostError::DurationOutOfRange,
    {
        if self.duration_minutes < MIN_BOOST_MINUTES || self.duration_minutes > MAX_BOOST_MINUTES {
            return Err(BoostError::DurationOutOfRange);
        }
        Ok(plus_minutes(now, self.duration_minutes))
    }
}

} // verus!
