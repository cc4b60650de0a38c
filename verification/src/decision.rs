//! The decision engine: one tick turns the tank readings, the shared flags
//! and the learned usage pattern into a heating intent.
//!
//! The priorities are fixed: a manual boost passes straight through, then a
//! due legionella cycle forces heat, then a likely use within the heating
//! lead time pre-heats, then an unlikely use soon with a hot tank stops
//! heating, and otherwise the engine idles.
//!
//! The temperature comparisons and the usage probabilities are computed by
//! the caller with floating point and arrive here as flags: one per
//! comparison, and one per hour-of-week bucket for each probability
//! threshold.

use crate::pattern::{bucket_index, hour_of_week, BUCKET_COUNT};
use crate::shared_state::{boosting, is_boosting, SharedEngineState};
use crate::time::{
    is_instant, lemma_instant_bounds, plus_minutes, whole_days, whole_days_between,
    NANOS_PER_MINUTE,
};
use vstd::prelude::*;

verus! {

/// Consecutive hot minutes after which the tank counts as disinfected.
pub const HIGH_TEMP_MINUTES_FOR_EVENT: u32 = 30u32;

/// Why an opportunity heating session was triggered.
#[derive(Debug, Clone, Copy, PartialEq, Eq, Structural)]
pub enum OpportunityReason {
    /// Battery full and actively exporting to the grid.
    BatteryFullExporting,
    /// Battery full and PV generation covers the element draw.
    BatteryFullPvCoverage,
    /// Battery full and the solar window is active (state of charge only).
    BatteryFullSocOnly,
}

/// The temperature a pre-heat aims for.
#[derive(Debug, Clone, Copy, PartialEq, Eq, Structural)]
pub enum HeatTarget {
    /// The legionella-safe temperature (65 °C).
    Legionella,
    /// The configured setpoint.
    Setpoint,
}

/// The output of one decision-engine tick.
#[derive(Debug, Clone, Copy, PartialEq, Eq, Structural)]
pub enum DecisionIntent {
    /// No action needed.
    Idle,
    /// Pre-heat the tank to at least `target`.
    Preheat { target: HeatTarget },
    /// Manual override in force until the instant `until`.
    Boost { until: i128 },
    /// Suppress heating: no use is expected soon.
    SmartStop,
    /// Heat on surplus PV energy.
    Opportunity { reason: OpportunityReason },
}

/// What a tick reads of the world.
pub struct TickReading {
    /// The element or heat pump is heating.
    pub heating_active: bool,
    /// The tank is at or above the legionella-safe temperature.
    pub tank_at_or_above_legionella_temp: bool,
    /// The tank is below the legionella-safe temperature.
    pub tank_below_legionella_temp: bool,
    /// The tank is below the setpoint minus the hysteresis.
    pub tank_below_band: bool,
    /// The tank is at or above the setpoint minus the hysteresis.
    pub tank_at_or_above_band: bool,
    /// Minutes the element needs to bring the tank to the setpoint.
    pub lead_minutes: u32,
    /// Per hour-of-week bucket: the learned use probability meets the
    /// pre-heat threshold.
    pub preheat_hours: Vec<bool>,
    /// Per hour-of-week bucket: the learned use probability lies below the
    /// late-use threshold.
    pub quiet_hours: Vec<bool>,
}

/// The settings and the counter of a decision engine.
pub struct DecisionEngineView {
    pub legionella_interval_days: u32,
    pub cutoff_buffer_min: u32,
    pub safety_margin_min: u32,
    pub high_temp_minutes: u32,
}

/// Pattern-based pre-heat scheduling, smart-stop and legionella safety.
pub struct DecisionEngine {
    legionella_interval_days: u32,
    cutoff_buffer_min: u32,
    safety_margin_min: u32,
    /// Consecutive ticks with a hot tank while heating.
    high_temp_minutes: u32,
}

impl View for DecisionEngine {
    type V = DecisionEngineView;

    closed spec fn view(&self) -> DecisionEngineView {
        DecisionEngineView {
            legionella_interval_days: self.legionella_interval_days,
            cutoff_buffer_min: self.cutoff_buffer_min,
            safety_margin_min: self.safety_margin_min,
            high_temp_minutes: self.high_temp_minutes,
        }
    }
}

/// The engine after one step of legionella tracking and the shared state
/// after it: a hot tick while heating adds a minute, any other tick resets
/// the count, and the thirtieth consecutive minute records `now` as a
/// high-temperature event and restarts the count.
pub open spec fn after_tracking(
    e: DecisionEngineView,
    shared: SharedEngineState,
    now: i128,
    hot: bool,
) -> (DecisionEngineView, SharedEngineState) {
    let m: int = if hot {
        e.high_temp_minutes + 1
    } else {
        0
    };
    if m >= HIGH_TEMP_MINUTES_FOR_EVENT {
        (
            DecisionEngineView { high_temp_minutes: 0, ..e },
            SharedEngineState { last_high_temp_event: Some(now), ..shared },
        )
    } else {
        (DecisionEngineView { high_temp_minutes: m as u32, ..e }, shared)
    }
}

/// Whether a tick with reading `r` counts as a hot minute.
pub open spec fn hot_minute(r: &TickReading) -> bool {
    r.heating_active && r.tank_at_or_above_legionella_temp
}

/// Whether a legionella cycle is due: none was ever recorded, or the last
/// one lies at least the configured number of whole days before `now`.
pub open spec fn legionella_due(e: DecisionEngineView, shared: SharedEngineState, now: i128) -> bool {
    match shared.last_high_temp_event {
        None => true,
        Some(last) => whole_days(now - last) >= e.legionella_interval_days,
    }
}

/// Whether the lead time schedules no pre-heat: it is `u32::MAX`, the lead
/// time of an element that is offline or cannot bring the tank to the
/// setpoint, or adding the safety margin to it overflows `u32`.
pub open spec fn lead_offline(e: DecisionEngineView, r: &TickReading) -> bool {
    r.lead_minutes == u32::MAX || r.lead_minutes + e.safety_margin_min > u32::MAX
}

/// The instant at which a use would have to be served if heating started
/// now: the lead time plus the safety margin ahead.
pub open spec fn look_ahead(e: DecisionEngineView, now: i128, r: &TickReading) -> int {
    now + (r.lead_minutes + e.safety_margin_min) * NANOS_PER_MINUTE
}

/// The end of the cutoff buffer after `now`.
pub open spec fn buffer_end(e: DecisionEngineView, now: i128) -> int {
    now + e.cutoff_buffer_min * NANOS_PER_MINUTE
}

/// Whether a tick gets past the boost and legionella checks to the pattern
/// queries.
pub open spec fn reaches_pattern(
    e: DecisionEngineView,
    shared: SharedEngineState,
    now: i128,
    r: &TickReading,
) -> bool {
    let (e1, s1) = after_tracking(e, shared, now, hot_minute(r));
    !boosting(s1, now as int) && !(legionella_due(e1, s1, now) && r.tank_below_legionella_temp)
}

/// The intent of one tick.
pub open spec fn tick_intent(
    e: DecisionEngineView,
    shared: SharedEngineState,
    now: i128,
    r: &TickReading,
) -> DecisionIntent {
    let (e1, s1) = after_tracking(e, shared, now, hot_minute(r));
    if boosting(s1, now as int) {
        DecisionIntent::Boost { until: s1.boost_until->0 }
    } else if legionella_due(e1, s1, now) && r.tank_below_legionella_temp {
        DecisionIntent::Preheat { target: HeatTarget::Legionella }
    } else if !lead_offline(e1, r) && r.preheat_hours@[hour_of_week(look_ahead(e1, now, r))]
        && r.tank_below_band {
        DecisionIntent::Preheat { target: HeatTarget::Setpoint }
    } else if r.quiet_hours@[hour_of_week(buffer_end(e1, now))] && r.tank_at_or_above_band {
        DecisionIntent::SmartStop
    } else {
        DecisionIntent::Idle
    }
}

/// The shared state after a tick that produced `intent`: the pre-heat flag
/// is on exactly for a pre-heat and the smart-stop flag exactly for a
/// smart-stop.
pub open spec fn with_intent_flags(s: SharedEngineState, intent: DecisionIntent) -> SharedEngineState {
    SharedEngineState {
        preheat_active: intent is Preheat,
        smart_stop_active: intent is SmartStop,
        ..s
    }
}

/// The shared state after one tick.
pub open spec fn tick_shared(
    e: DecisionEngineView,
    shared: SharedEngineState,
    now: i128,
    r: &TickReading,
) -> SharedEngineState {
    with_intent_flags(after_tracking(e, shared, now, hot_minute(r)).1, tick_intent(e, shared, now, r))
}

/// What a tick needs of its inputs: instants in the calendar, one flag per
/// bucket, and, when the tick reaches the pattern queries, queried instants
/// inside the calendar (the use instant only where the lead is not offline).
pub open spec fn tick_ready(
    e: DecisionEngineView,
    shared: SharedEngineState,
    now: i128,
    r: &TickReading,
) -> bool {
    &&& shared.wf()
    &&& is_instant(now as int)
    &&& r.preheat_hours@.len() == BUCKET_COUNT
    &&& r.quiet_hours@.len() == BUCKET_COUNT
    &&& reaches_pattern(e, shared, now, r) ==> {
        &&& !lead_offline(e, r) ==> is_instant(look_ahead(e, now, r))
        &&& is_instant(buffer_end(e, now))
    }
}

impl DecisionEngine {
    #[verifier::type_invariant]
    spec fn counter_below_event(self) -> bool {
        self.high_temp_minutes < HIGH_TEMP_MINUTES_FOR_EVENT
    }

    /// A fresh engine with the given legionella interval, cutoff buffer and
    /// safety margin, and no hot minutes counted.
    pub fn new(legionella_interval_days: u32, cutoff_buffer_min: u32, safety_margin_min: u32) -> (e: DecisionEngine)
        ensures
            e@.legionella_interval_days == legionella_interval_days,
            e@.cutoff_buffer_min == cutoff_buffer_min,
            e@.safety_margin_min == safety_margin_min,
            e@.high_temp_minutes == 0,
    {
        DecisionEngine { legionella_interval_days, cutoff_buffer_min, safety_margin_min, high_temp_minutes: 0 }
    }

    /// Whether a tick at `now` with `reading` gets past the boost and
    /// legionella checks to the pattern queries; only then does it add the
    /// safety margin to the lead time and query the pattern.
    pub fn reaches_pattern(&self, shared: &SharedEngineState, now: i128, reading: &TickReading) -> (b: bool)
        requires
            shared.wf(),
            is_instant(now as int),
        ensures
            b == reaches_pattern(self@, *shared, now, reading),
    {
        proof {
            use_type_invariant(self);
        }
        let hot = reading.heating_active && reading.tank_at_or_above_legionella_temp;
        let records = hot && self.high_temp_minutes + 1 >= HIGH_TEMP_MINUTES_FOR_EVENT;
        let boosted = match shared.boost_until {
            Some(t) => t > now,
            None => false,
        };
        if boosted {
            return false;
        }
        let due = if records {
            self.legionella_interval_days == 0
        } else {
            match shared.last_high_temp_event {
                None => true,
                Some(last) => whole_days_between(last, now) >= self.legionella_interval_days as i128,
            }
        };
        proof {
            if records {
                assert(whole_days(now - now) == 0);
            }
        }
        !(due && reading.tank_below_legionella_temp)
    }

    /// The lead time plus the safety margin, in minutes, or `None` where the
    /// lead is offline and no pre-heat is scheduled.
    pub fn use_lead_minutes(&self, reading: &TickReading) -> (m: Option<u32>)
        ensures
            m is None <==> lead_offline(self@, reading),
            m matches Some(x) ==> x == reading.lead_minutes + self@.safety_margin_min,
    {
        if reading.lead_minutes == u32::MAX || reading.lead_minutes > u32::MAX - self.safety_margin_min {
            None
        } else {
            Some(reading.lead_minutes + self.safety_margin_min)
        }
    }

    /// Run one decision cycle at `now`.
    pub fn tick(&mut self, shared: &mut SharedEngineState, now: i128, reading: &TickReading) -> (intent: DecisionIntent)
        requires
            tick_ready(old(self)@, *old(shared), now, reading),
        ensures
            intent == tick_intent(old(self)@, *old(shared), now, reading),
            final(self)@ == after_tracking(old(self)@, *old(shared), now, hot_minute(reading)).0,
            *final(shared) == tick_shared(old(self)@, *old(shared), now, reading),
    {
        proof {
            use_type_invariant(&*self);
        }
        let ghost e0 = self@;
        let ghost s0 = *shared;
        // 1. Legionella tracking.
        let hot = reading.heating_active && reading.tank_at_or_above_legionella_temp;
        let minutes: u32 = if hot {
            self.high_temp_minutes + 1
        } else {
            0
        };
        if minutes >= HIGH_TEMP_MINUTES_FOR_EVENT {
            shared.record_high_temp_event(now);
            self.high_temp_minutes = 0;
        } else {
            self.high_temp_minutes = minutes;
        }
        let ghost e1 = self@;
        let ghost s1 = *shared;
        assert(after_tracking(e0, s0, now, hot) == (e1, s1));
        // 2. Boost passthrough.
        if is_boosting(shared, now) {
            let until = shared.boost_until.unwrap();
            shared.set_preheat(false);
            shared.set_smart_stop(false);
            return DecisionIntent::Boost { until };
        }
        // 3. Legionella force-heat.
        let needs_legionella = match shared.last_high_temp_event {
            None => true,
            Some(last) => whole_days_between(last, now) >= self.legionella_interval_days as i128,
        };
        if needs_legionella && reading.tank_below_legionella_temp {
            shared.set_preheat(true);
            shared.set_smart_stop(false);
            return DecisionIntent::Preheat { target: HeatTarget::Legionella };
        }
        // 4. Lead time and the instants to query.
        assert(reaches_pattern(e0, s0, now, reading));
        let buffer_at = plus_minutes(now, self.cutoff_buffer_min);
        // 5. Pattern queries; an offline lead schedules no pre-heat.
        let use_likely = match self.use_lead_minutes(reading) {
            Some(lead_minutes) => {
                let use_at = plus_minutes(now, lead_minutes);
                reading.preheat_hours[bucket_index(use_at)]
            },
            None => false,
        };
        let use_unlikely_soon = reading.quiet_hours[bucket_index(buffer_at)];
        // 6. Pre-heat trigger.
        if use_likely && reading.tank_below_band {
            shared.set_preheat(true);
            shared.set_smart_stop(false);
            return DecisionIntent::Preheat { target: HeatTarget::Setpoint };
        }
        // 7. Smart-stop trigger.
        if use_unlikely_soon && reading.tank_at_or_above_band {
            shared.set_smart_stop(true);
            shared.set_preheat(false);
            return DecisionIntent::SmartStop;
        }
        // 8. Default.
        shared.set_preheat(false);
        shared.set_smart_stop(false);
        DecisionIntent::Idle
    }
}

/// A manual boost in force passes straight through: whatever the readings,
/// the tick answers with the boost and its end.
pub proof fn lemma_boost_passes_through(
    e: DecisionEngineView,
    shared: SharedEngineState,
    now: i128,
    r: &TickReading,
)
    requires
        boosting(shared, now as int),
    ensures
        tick_intent(e, shared, now, r) == (DecisionIntent::Boost { until: shared.boost_until->0 }),
        !tick_shared(e, shared, now, r).preheat_active,
        !tick_shared(e, shared, now, r).smart_stop_active,
{
}

/// After every tick the pre-heat flag is on exactly when the tick pre-heats,
/// the smart-stop flag is on exactly when it smart-stops, and the two are
/// never on together.
pub proof fn lemma_flags_follow_intent(
    e: DecisionEngineView,
    shared: SharedEngineState,
    now: i128,
    r: &TickReading,
)
    ensures
        tick_shared(e, shared, now, r).preheat_active <==> tick_intent(e, shared, now, r) is Preheat,
        tick_shared(e, shared, now, r).smart_stop_active <==> tick_intent(e, shared, now, r) is SmartStop,
        !(tick_shared(e, shared, now, r).preheat_active && tick_shared(e, shared, now, r).smart_stop_active),
{
}

/// Without a boost, a due legionella cycle with a tank below the
/// legionella-safe temperature forces a pre-heat to that temperature.
pub proof fn lemma_legionella_forces_heat(
    e: DecisionEngineView,
    shared: SharedEngineState,
    now: i128,
    r: &TickReading,
)
    requires
        e.high_temp_minutes < HIGH_TEMP_MINUTES_FOR_EVENT,
        !boosting(shared, now as int),
        !(r.heating_active && r.tank_at_or_above_legionella_temp),
        shared.last_high_temp_event matches Some(last) ==> whole_days(now - last) >= e.legionella_interval_days,
        r.tank_below_legionella_temp,
    ensures
        tick_intent(e, shared, now, r) == (DecisionIntent::Preheat { target: HeatTarget::Legionella }),
{
}

/// Without a boost or a due legionella cycle, and with an element that is not
/// offline, a tank below the band pre-heats to the setpoint exactly when a
/// use is likely in the hour that lies the lead time plus the safety margin
/// ahead.
pub proof fn lemma_preheat_ahead_of_likely_use(
    e: DecisionEngineView,
    shared: SharedEngineState,
    now: i128,
    r: &TickReading,
)
    requires
        e.high_temp_minutes < HIGH_TEMP_MINUTES_FOR_EVENT,
        !(r.heating_active && r.tank_at_or_above_legionella_temp),
        !boosting(shared, now as int),
        r.tank_below_legionella_temp ==> (shared.last_high_temp_event matches Some(last)
            && whole_days(now - last) < e.legionella_interval_days),
        r.lead_minutes < u32::MAX,
        r.lead_minutes + e.safety_margin_min <= u32::MAX,
        r.tank_below_band,
    ensures
        (tick_intent(e, shared, now, r) == (DecisionIntent::Preheat { target: HeatTarget::Setpoint }))
            <==> r.preheat_hours@[hour_of_week(
            now + (r.lead_minutes + e.safety_margin_min) * NANOS_PER_MINUTE,
        )],
{
}

/// A lead that is offline never pre-heats to the setpoint, whatever the
/// pattern and the tank temperature say.
pub proof fn lemma_offline_lead_never_preheats_to_setpoint(
    e: DecisionEngineView,
    shared: SharedEngineState,
    now: i128,
    r: &TickReading,
)
    requires
        lead_offline(e, r),
    ensures
        tick_intent(e, shared, now, r) != (DecisionIntent::Preheat { target: HeatTarget::Setpoint }),
{
}

/// Without a boost or a due legionella cycle, and without a likely use
/// within the lead time for a cold tank, a tank at or above the band stops
/// heating exactly when a use is unlikely within the cutoff buffer.
pub proof fn lemma_smart_stop_when_use_unlikely_soon(
    e: DecisionEngineView,
    shared: SharedEngineState,
    now: i128,
    r: &TickReading,
)
    requires
        e.high_temp_minutes < HIGH_TEMP_MINUTES_FOR_EVENT,
        !(r.heating_active && r.tank_at_or_above_legionella_temp),
        !boosting(shared, now as int),
        r.tank_below_legionella_temp ==> (shared.last_high_temp_event matches Some(last)
            && whole_days(now - last) < e.legionella_interval_days),
        !r.tank_below_band,
        r.tank_at_or_above_band,
    ensures
        (tick_intent(e, shared, now, r) == DecisionIntent::SmartStop) <==> r.quiet_hours@[hour_of_week(
            now + e.cutoff_buffer_min * NANOS_PER_MINUTE,
        )],
{
}

/// A pre-heat to the setpoint only comes for a tank below the band, an
/// element that is not offline, and a likely use in the hour that lies the
/// lead time plus the safety margin after `now`; a smart-stop only comes for
/// a tank at or above the band with no likely use in the hour that lies the
/// cutoff buffer after `now`. Neither comes during a boost.
pub proof fn lemma_heating_decisions_need_their_reasons(
    e: DecisionEngineView,
    shared: SharedEngineState,
    now: i128,
    r: &TickReading,
)
    ensures
        tick_intent(e, shared, now, r) == (DecisionIntent::Preheat { target: HeatTarget::Setpoint }) ==> {
            &&& r.tank_below_band
            &&& r.lead_minutes < u32::MAX
            &&& r.lead_minutes + e.safety_margin_min <= u32::MAX
            &&& r.preheat_hours@[hour_of_week(now + (r.lead_minutes + e.safety_margin_min) * NANOS_PER_MINUTE)]
            &&& !boosting(shared, now as int)
        },
        tick_intent(e, shared, now, r) is Boost <==> (shared.boost_until matches Some(t) && t > now),
        tick_intent(e, shared, now, r) matches DecisionIntent::Boost { until } ==> shared.boost_until
            == Some(until) && until > now,
        tick_intent(e, shared, now, r) == (DecisionIntent::Preheat { target: HeatTarget::Legionella })
            ==> r.tank_below_legionella_temp && !boosting(shared, now as int),
        tick_intent(e, shared, now, r) == DecisionIntent::SmartStop ==> {
            &&& r.tank_at_or_above_band
            &&& r.quiet_hours@[hour_of_week(now + e.cutoff_buffer_min * NANOS_PER_MINUTE)]
            &&& !boosting(shared, now as int)
        },
{
}

/// Legionella tracking counts only minutes in which the element heats a tank
/// at or above the legionella-safe temperature: any other tick resets the
/// count and records nothing, a hot tick adds a minute, and the thirtieth
/// hot minute in a row records `now` as the last high-temperature event and
/// restarts the count. Nothing else in the shared state changes but the two
/// flags.
pub proof fn lemma_only_hot_heating_minutes_count(
    e: DecisionEngineView,
    shared: SharedEngineState,
    now: i128,
    r: &TickReading,
)
    requires
        e.high_temp_minutes < HIGH_TEMP_MINUTES_FOR_EVENT,
    ensures
        ({
            let e1 = after_tracking(e, shared, now, hot_minute(r)).0;
            let s1 = tick_shared(e, shared, now, r);
            &&& s1.boost_until == shared.boost_until
            &&& !(r.heating_active && r.tank_at_or_above_legionella_temp) ==> {
                &&& e1.high_temp_minutes == 0
                &&& s1.last_high_temp_event == shared.last_high_temp_event
            }
            &&& (r.heating_active && r.tank_at_or_above_legionella_temp && e.high_temp_minutes + 1 < 30)
                ==> {
                &&& e1.high_temp_minutes == e.high_temp_minutes + 1
                &&& s1.last_high_temp_event == shared.last_high_temp_event
            }
            &&& (r.heating_active && r.tank_at_or_above_legionella_temp && e.high_temp_minutes + 1 == 30)
                ==> {
                &&& e1.high_temp_minutes == 0
                &&& s1.last_high_temp_event == Some(now)
            }
            &&& e1.legionella_interval_days == e.legionella_interval_days
            &&& e1.cutoff_buffer_min == e.cutoff_buffer_min
            &&& e1.safety_margin_min == e.safety_margin_min
        }),
{
}

/// The engine and shared state after a streak of hot minutes at the
/// instants `nows`, in order.
pub open spec fn hot_streak(
    e: DecisionEngineView,
    shared: SharedEngineState,
    nows: Seq<i128>,
) -> (DecisionEngineView, SharedEngineState)
    decreases nows.len(),
{
    if nows.len() == 0 {
        (e, shared)
    } else {
        let prev = hot_streak(e, shared, nows.drop_last());
        after_tracking(prev.0, prev.1, nows.last(), true)
    }
}

/// Counting from zero, fewer than thirty consecutive hot minutes record
/// nothing, and the thirtieth records its own instant as the last
/// high-temperature event and restarts the count.
pub proof fn lemma_thirty_hot_minutes_record_event(
    e: DecisionEngineView,
    shared: SharedEngineState,
    nows: Seq<i128>,
)
    requires
        e.high_temp_minutes == 0,
        nows.len() <= HIGH_TEMP_MINUTES_FOR_EVENT,
    ensures
        nows.len() < HIGH_TEMP_MINUTES_FOR_EVENT ==> hot_streak(e, shared, nows) == (
            DecisionEngineView { high_temp_minutes: nows.len() as u32, ..e },
            shared,
        ),
        nows.len() == HIGH_TEMP_MINUTES_FOR_EVENT ==> hot_streak(e, shared, nows) == (
            DecisionEngineView { high_temp_minutes: 0, ..e },
            SharedEngineState { last_high_temp_event: Some(nows.last()), ..shared },
        ),
    decreases nows.len(),
{
    if nows.len() > 0 {
        lemma_thirty_hot_minutes_record_event(e, shared, nows.drop_last());
    }
}

} // verus!
