//! Flags and timestamps shared between the decision engine, the scheduler
//! and the API.

use crate::time::is_instant;
use vstd::prelude::*;

verus! {

/// The engine state that the scheduler and the API read and update.
///
/// Every timestamp is an instant (nanoseconds since the Unix epoch).
#[derive(Debug, Clone, PartialEq, Eq, Structural)]
pub struct SharedEngineState {
    pub smart_stop_active: bool,
    pub opportunity_active: bool,
    pub last_opportunity_start: Option<i128>,
    pub preheat_active: bool,
    pub boost_until: Option<i128>,
    pub last_high_temp_event: Option<i128>,
    /// When true the scheduler observes and reports but never commands the
    /// element.
    pub read_only_mode: bool,
}

/// Whether an optional instant is absent or inside the covered calendar.
pub open spec fn optional_instant(t: Option<i128>) -> bool {
    match t {
        Some(v) => is_instant(v as int),
        None => true,
    }
}

/// Whether a manual boost is in force at `now`: a boost end is set and lies
/// strictly after `now`.
pub open spec fn boosting(state: SharedEngineState, now: int) -> bool {
    match state.boost_until {
        Some(t) => t > now,
        None => false,
    }
}

impl SharedEngineState {
    /// Every timestamp the state holds lies inside the covered calendar.
    pub open spec fn wf(&self) -> bool {
        &&& optional_instant(self.last_opportunity_start)
        &&& optional_instant(self.boost_until)
        &&& optional_instant(self.last_high_temp_event)
    }

    /// The state in which every flag is off and no timestamp is set.
    pub open spec fn inactive() -> SharedEngineState {
        SharedEngineState {
            smart_stop_active: false,
            opportunity_active: false,
            last_opportunity_start: None,
            preheat_active: false,
            boost_until: None,
            last_high_temp_event: None,
            read_only_mode: false,
        }
    }

    /// A state with every flag off and no timestamp set.
    pub fn new() -> (s: SharedEngineState)
        ensures
            s == SharedEngineState::inactive(),
    {
        SharedEngineState {
            smart_stop_active: false,
            opportunity_active: false,
            last_opportunity_start: None,
            preheat_active: false,
            boost_until: None,
            last_high_temp_event: None,
            read_only_mode: false,
        }
    }

    /// Records whether a pre-heat is in force.
    pub fn set_preheat(&mut self, active: bool)
        ensures
            *final(self) == (SharedEngineState { preheat_active: active, ..*old(self) }),
    {
        self.preheat_active = active;
    }

    /// Records whether smart-stop is in force.
    pub fn set_smart_stop(&mut self, active: bool)
        ensures
            *final(self) == (SharedEngineState { smart_stop_active: active, ..*old(self) }),
    {
        self.smart_stop_active = active;
    }

    /// Records whether an opportunity session is in force, and `now` as the
    /// start of the latest session change.
    pub fn set_opportunity(&mut self, active: bool, now: i128)
        ensures
            *final(self) == (SharedEngineState {
                opportunity_active: active,
                last_opportunity_start: Some(now),
                ..*old(self)
            }),
    {
        self.opportunity_active = active;
        self.last_opportunity_start = Some(now);
    }

    /// Sets or clears the end of a manual boost.
    pub fn set_boost_until(&mut self, until: Option<i128>)
        ensures
            *final(self) == (SharedEngineState { boost_until: until, ..*old(self) }),
    {
        self.boost_until = until;
    }

    /// Records `at` as the latest time the tank held legionella-safe heat.
    pub fn record_high_temp_event(&mut self, at: i128)
        ensures
            *final(self) == (SharedEngineState { last_high_temp_event: Some(at), ..*old(self) }),
    {
        self.last_high_temp_event = Some(at);
    }

    /// Switches read-only mode on or off.
    pub fn set_read_only(&mut self, active: bool)
        ensures
            *final(self) == (SharedEngineState { read_only_mode: active, ..*old(self) }),
    {
        self.read_only_mode = active;
    }
}

impl Default for SharedEngineState {
    fn default() -> (s: SharedEngineState)
        ensures
            s == SharedEngineState::inactive(),
    {
        SharedEngineState::new()
    }
}

/// Whether a manual boost is in force at `now`.
pub fn is_boosting(state: &SharedEngineState, now: i128) -> (b: bool)
    ensures
        b == boosting(*state, now as int),
{
    match state.boost_until {
        Some(t) => t > now,
        None => false,
    }
}

} // verus!
