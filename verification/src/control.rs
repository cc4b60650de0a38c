//! What the scheduler commands the hardware after each tick.
//!
//! A geyser either has a native boost mode or it does not. Commands are
//! only sent when the wanted state differs from the last one sent, and in
//! read-only mode nothing is sent: the scheduler only reports what it would
//! have sent.

use crate::decision::DecisionIntent;
use vstd::prelude::*;

verus! {

/// Whether `intent` asks for the native boost mode.
pub open spec fn wants_boost(intent: DecisionIntent) -> bool {
    intent is Boost
}

/// Whether `intent` asks for the element to heat.
pub open spec fn wants_element(intent: DecisionIntent) -> bool {
    intent is Preheat || intent is Boost || intent is Opportunity
}

/// The commands of one control step. `set_*` are sent to the hardware;
/// `skipped_*` are what read-only mode held back.
#[derive(Debug, Clone, Copy, PartialEq, Eq, Structural)]
pub struct ControlCommands {
    pub set_boost: Option<bool>,
    pub set_element: Option<bool>,
    pub skipped_boost: Option<bool>,
    pub skipped_element: Option<bool>,
}

/// The last boost and element states the scheduler acted on; `None` until
/// the first one.
#[derive(Debug, Clone, Copy, PartialEq, Eq, Structural)]
pub struct ElementControl {
    pub last_boost_active: Option<bool>,
    pub last_element_on: Option<bool>,
}

/// No command.
pub open spec fn no_commands() -> ControlCommands {
    ControlCommands { set_boost: None, set_element: None, skipped_boost: None, skipped_element: None }
}

/// The element part of a step: with `last` the last element state acted on,
/// send (or, read-only, skip) the wanted state when it differs, and
/// remember it.
pub open spec fn element_step(
    last: Option<bool>,
    want: bool,
    read_only: bool,
    cmds: ControlCommands,
) -> (Option<bool>, ControlCommands) {
    let changed = last != Some(want);
    let cmds2 = if !changed {
        cmds
    } else if read_only {
        ControlCommands { skipped_element: Some(want), ..cmds }
    } else {
        ControlCommands { set_element: Some(want), ..cmds }
    };
    (Some(want), cmds2)
}

/// One control step for `intent`.
pub open spec fn control_step(
    c: ElementControl,
    intent: DecisionIntent,
    has_native_boost: bool,
    read_only: bool,
) -> (ElementControl, ControlCommands) {
    let is_boost = wants_boost(intent);
    let element_on = wants_element(intent);
    if has_native_boost {
        let boost_changed = c.last_boost_active != Some(is_boost);
        let cmds1 = if !boost_changed {
            no_commands()
        } else if read_only {
            ControlCommands { skipped_boost: Some(is_boost), ..no_commands() }
        } else {
            ControlCommands { set_boost: Some(is_boost), ..no_commands() }
        };
        let last_element1 = if boost_changed && !read_only && !is_boost {
            None
        } else {
            c.last_element_on
        };
        if is_boost {
            (ElementControl { last_boost_active: Some(true), last_element_on: last_element1 }, cmds1)
        } else {
            let (le, cmds2) = element_step(last_element1, element_on, read_only, cmds1);
            (ElementControl { last_boost_active: Some(false), last_element_on: le }, cmds2)
        }
    } else {
        let (le, cmds) = element_step(c.last_element_on, element_on, read_only, no_commands());
        (ElementControl { last_element_on: le, ..c }, cmds)
    }
}

impl ElementControl {
    /// A controller that has not acted yet.
    pub fn new() -> (c: ElementControl)
        ensures
            c.last_boost_active is None,
            c.last_element_on is None,
    {
        ElementControl { last_boost_active: None, last_element_on: None }
    }

    /// The element part of a step.
    fn element(&mut self, want: bool, read_only: bool, cmds: &mut ControlCommands)
        ensures
            (final(self).last_element_on, *final(cmds)) == element_step(
                old(self).last_element_on,
                want,
                read_only,
                *old(cmds),
            ),
            final(self).last_boost_active == old(self).last_boost_active,
    {
        let changed = match self.last_element_on {
            Some(b) => b != want,
            None => true,
        };
        if changed {
            if read_only {
                cmds.skipped_element = Some(want);
            } else {
                cmds.set_element = Some(want);
            }
        }
        self.last_element_on = Some(want);
    }

    /// Decides the commands for `intent`, given whether the geyser has a
    /// native boost mode and whether read-only mode is on, and remembers the
    /// states acted on.
    pub fn step(&mut self, intent: &DecisionIntent, has_native_boost: bool, read_only: bool) -> (cmds: ControlCommands)
        ensures
            (*final(self), cmds) == control_step(*old(self), *intent, has_native_boost, read_only),
    {
        let is_boost = matches!(intent, DecisionIntent::Boost { .. });
        let element_on = matches!(
            intent,
            DecisionIntent::Preheat { .. } | DecisionIntent::Boost { .. } | DecisionIntent::Opportunity { .. }
        );
        let mut cmds = ControlCommands {
            set_boost: None,
            set_element: None,
            skipped_boost: None,
            skipped_element: None,
        };
        if has_native_boost {
            let boost_changed = match self.last_boost_active {
                Some(b) => b != is_boost,
                None => true,
            };
            if boost_changed {
                if read_only {
                    cmds.skipped_boost = Some(is_boost);
                } else {
                    cmds.set_boost = Some(is_boost);
                    if !is_boost {
                        self.last_element_on = None;
                    }
                }
            }
            self.last_boost_active = Some(is_boost);
            if !is_boost {
                self.element(element_on, read_only, &mut cmds);
            }
        } else {
            self.element(element_on, read_only, &mut cmds);
        }
        cmds
    }
}

/// In read-only mode no command reaches the hardware.
pub proof fn lemma_read_only_sends_nothing(c: ElementControl, intent: DecisionIntent, has_native_boost: bool)
    ensures
        control_step(c, intent, has_native_boost, true).1.set_boost is None,
        control_step(c, intent, has_native_boost, true).1.set_element is None,
{
}

/// Every command sent carries the state the intent asks for.
pub proof fn lemma_commands_follow_intent(
    c: ElementControl,
    intent: DecisionIntent,
    has_native_boost: bool,
    read_only: bool,
)
    ensures
        control_step(c, intent, has_native_boost, read_only).1.set_boost matches Some(b) ==> b
            == wants_boost(intent),
        control_step(c, intent, has_native_boost, read_only).1.set_element matches Some(b) ==> b
            == wants_element(intent),
        !has_native_boost ==> control_step(c, intent, has_native_boost, read_only).1.set_boost is None,
{
}

/// With a native boost and commands going out, the step that leaves a boost
/// switches the boost off and sends the element state again, whatever was
/// last sent before the boost: on for a pre-heat or an opportunity, off
/// otherwise.
pub proof fn lemma_leaving_boost_resends_element(c: ElementControl, intent: DecisionIntent)
    requires
        c.last_boost_active == Some(true),
        !(intent is Boost),
    ensures
        control_step(c, intent, true, false).1.set_boost == Some(false),
        control_step(c, intent, true, false).1.set_element == Some(intent is Preheat || intent is Opportunity),
{
}

/// Acting twice on the same intent sends nothing the second time.
pub proof fn lemma_repeat_sends_nothing(
    c: ElementControl,
    intent: DecisionIntent,
    has_native_boost: bool,
    read_only: bool,
)
    ensures
        ({
            let c1 = control_step(c, intent, has_native_boost, read_only).0;
            let cmds = control_step(c1, intent, has_native_boost, read_only).1;
            cmds == no_commands()
        }),
{
}

/// Remembers the day on which the scheduler last applied the daily decay.
#[derive(Debug, Clone, Copy, PartialEq, Eq, Structural)]
pub struct DailyGate {
    pub last_day: Option<i64>,
}

impl DailyGate {
    /// A gate that has not opened yet.
    pub fn new() -> (g: DailyGate)
        ensures
            g.last_day is None,
    {
        DailyGate { last_day: None }
    }

    /// Whether `today` differs from the last day seen; `today` becomes the
    /// last day seen.
    pub fn open_for(&mut self, today: i64) -> (opens: bool)
        ensures
            opens == (old(self).last_day != Some(today)),
            final(self).last_day == Some(today),
    {
        let opens = match self.last_day {
            Some(d) => d != today,
            None => true,
        };
        self.last_day = Some(today);
        opens
    }
}

} // verus!
