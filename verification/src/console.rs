//! Console-control-event dispatch for platforms that deliver interrupt and
//! break requests through a single process-wide callback.
//!
//! On such a platform there is no per-signal installation and no previous
//! handler to chain to — the operating system keeps its own chain of
//! registered callbacks.  The table is created with
//! [`crate::registry::Registry::new_ready`] holding [`CONSOLE_EVENT_COUNT`]
//! slots, and the callback dispatches each recognized event code to its
//! slot; unrecognized codes are reported as not handled so the OS passes
//! them on.

use vstd::prelude::*;

verus! {

/// Number of distinct console control events represented: interrupt and
/// break.
pub const CONSOLE_EVENT_COUNT: usize = 2;

/// The OS code of the console interrupt ("Ctrl+C") event.
pub const CONSOLE_INTERRUPT_EVENT: u32 = 0;

/// The OS code of the console break ("Ctrl+Break") event.
pub const CONSOLE_BREAK_EVENT: u32 = 1;

/// Which slot a console control event code dispatches to: the interrupt and
/// break events each have a slot of their own; any other code is not
/// handled.
pub open spec fn console_slot_of(event: u32) -> Option<usize> {
    if event == CONSOLE_INTERRUPT_EVENT {
        Some(0usize)
    } else if event == CONSOLE_BREAK_EVENT {
        Some(1usize)
    } else {
        None
    }
}

/// Map a delivered console control event code to its slot; `None` means the
/// event is not handled here and the OS should offer it to the next
/// callback in its own chain.
pub fn console_event_slot(event: u32) -> (r: Option<usize>)
    ensures
        r == console_slot_of(event),
        r matches Some(s) ==> s < CONSOLE_EVENT_COUNT,
{
    if event == CONSOLE_INTERRUPT_EVENT {
        Some(0)
    } else if event == CONSOLE_BREAK_EVENT {
        Some(1)
    } else {
        None
    }
}

} // verus!
