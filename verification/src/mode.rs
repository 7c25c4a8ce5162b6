//! Keep-awake modes and their power-manager flag sets.
//!
//! A [`State`] is the user-selectable keep-awake policy. [`flags_for`] maps it
//! to the execution-state flag set that the worker asserts to the operating
//! system's power manager. The numeric values are the Windows execution-state
//! flags, but nothing here calls the OS: the mapping is a total, pure function.

use vstd::prelude::*;

verus! {

/// The flag that marks an assertion as persistent until the next assertion.
pub const ES_CONTINUOUS: u32 = 0x8000_0000;
/// The flag that keeps the system from suspending.
pub const ES_SYSTEM_REQUIRED: u32 = 0x0000_0001;
/// The flag that keeps the display from sleeping.
pub const ES_DISPLAY_REQUIRED: u32 = 0x0000_0002;
/// The flag that keeps background work running while the machine appears asleep.
pub const ES_AWAYMODE_REQUIRED: u32 = 0x0000_0040;

/// A keep-awake mode.
#[derive(Clone, Copy, Debug, PartialEq, Eq, Structural)]
pub enum State {
    /// Allow the system and the display to sleep.
    Default,
    /// Keep the system running; the display may sleep.
    NoSystemSleep,
    /// Keep the system running and the display on.
    NoMonitorSleep,
    /// Keep background work running while the machine appears asleep.
    AwayMode,
}

/// The flag set that must be asserted for a mode.
pub open spec fn spec_flags(state: State) -> u32 {
    match state {
        State::Default => ES_CONTINUOUS,
        State::NoSystemSleep => ES_CONTINUOUS | ES_SYSTEM_REQUIRED,
        State::NoMonitorSleep => ES_CONTINUOUS | ES_DISPLAY_REQUIRED,
        State::AwayMode => ES_CONTINUOUS | ES_AWAYMODE_REQUIRED,
    }
}

/// Translate a mode into the flag set to assert. Total over the closed set of
/// modes; computes only, the assertion call is the worker's.
pub fn flags_for(state: State) -> (flags: u32)
    ensures
        flags == spec_flags(state),
{
    match state {
        State::Default => ES_CONTINUOUS,
        State::NoSystemSleep => ES_CONTINUOUS | ES_SYSTEM_REQUIRED,
        State::NoMonitorSleep => ES_CONTINUOUS | ES_DISPLAY_REQUIRED,
        State::AwayMode => ES_CONTINUOUS | ES_AWAYMODE_REQUIRED,
    }
}

/// Every mode's flag set includes the continuous flag.
pub proof fn lemma_flags_continuous(m: State)
    ensures
        spec_flags(m) & ES_CONTINUOUS == ES_CONTINUOUS,
{
    assert(0x8000_0000u32 & 0x8000_0000u32 == 0x8000_0000u32) by (bit_vector);
    assert((0x8000_0000u32 | 0x0000_0001u32) & 0x8000_0000u32 == 0x8000_0000u32) by (bit_vector);
    assert((0x8000_0000u32 | 0x0000_0002u32) & 0x8000_0000u32 == 0x8000_0000u32) by (bit_vector);
    assert((0x8000_0000u32 | 0x0000_0040u32) & 0x8000_0000u32 == 0x8000_0000u32) by (bit_vector);
}

/// The flag sets of the four modes are pairwise distinct: two modes have the
/// same flag set only if they are the same mode.
pub proof fn lemma_flags_distinct(a: State, b: State)
    ensures
        spec_flags(a) == spec_flags(b) <==> a == b,
{
    assert(0x8000_0000u32 | 0x0000_0001u32 == 0x8000_0001u32) by (bit_vector);
    assert(0x8000_0000u32 | 0x0000_0002u32 == 0x8000_0002u32) by (bit_vector);
    assert(0x8000_0000u32 | 0x0000_0040u32 == 0x8000_0040u32) by (bit_vector);
}

} // verus!
