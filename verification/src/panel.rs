//! Selection logic of the three-button panel.
//!
//! The panel offers three mutually exclusive choices: off (allow sleep), keep
//! the system awake, keep the monitor awake. [`Selection`] is the one toggled
//! button; making it an enum of exactly three variants rules out by
//! construction both an "away" mode reaching the panel and the panel holding
//! no or two toggled buttons. The shortcut keys cycle the selection forward
//! and backward; the event plumbing that reads keys and redraws buttons lives
//! in the surrounding application.

use vstd::prelude::*;

use crate::mode::State;

verus! {

/// The toggled button of the panel.
#[derive(Clone, Copy, Debug, PartialEq, Eq, Structural)]
pub enum Selection {
    /// Allow sleep.
    Off,
    /// Keep the system awake; the display may sleep.
    NoSystemSleep,
    /// Keep the system and the display awake.
    NoMonitorSleep,
}

/// The mode a selection stands for.
pub open spec fn spec_selected_mode(s: Selection) -> State {
    match s {
        Selection::Off => State::Default,
        Selection::NoSystemSleep => State::NoSystemSleep,
        Selection::NoMonitorSleep => State::NoMonitorSleep,
    }
}

/// The next selection in forward cycling order: off, no system sleep, no
/// monitor sleep, and around.
pub open spec fn spec_cycle_forward(s: Selection) -> Selection {
    match s {
        Selection::Off => Selection::NoSystemSleep,
        Selection::NoSystemSleep => Selection::NoMonitorSleep,
        Selection::NoMonitorSleep => Selection::Off,
    }
}

/// The next selection in backward cycling order: the inverse of forward
/// cycling.
pub open spec fn spec_cycle_back(s: Selection) -> Selection {
    match s {
        Selection::Off => Selection::NoMonitorSleep,
        Selection::NoSystemSleep => Selection::Off,
        Selection::NoMonitorSleep => Selection::NoSystemSleep,
    }
}

/// The mode to send to the worker for a selection. Never an away mode: the
/// panel cannot express one.
pub fn selected_mode(s: Selection) -> (m: State)
    ensures
        m == spec_selected_mode(s),
        !(m is AwayMode),
{
    match s {
        Selection::Off => State::Default,
        Selection::NoSystemSleep => State::NoSystemSleep,
        Selection::NoMonitorSleep => State::NoMonitorSleep,
    }
}

/// Advance the selection one step forward.
pub fn cycle_forward(s: Selection) -> (r: Selection)
    ensures
        r == spec_cycle_forward(s),
{
    match s {
        Selection::Off => Selection::NoSystemSleep,
        Selection::NoSystemSleep => Selection::NoMonitorSleep,
        Selection::NoMonitorSleep => Selection::Off,
    }
}

/// Advance the selection one step backward; undoes one forward step.
pub fn cycle_back(s: Selection) -> (r: Selection)
    ensures
        r == spec_cycle_back(s),
        spec_cycle_forward(r) == s,
{
    match s {
        Selection::Off => Selection::NoMonitorSleep,
        Selection::NoSystemSleep => Selection::Off,
        Selection::NoMonitorSleep => Selection::NoSystemSleep,
    }
}

} // verus!
