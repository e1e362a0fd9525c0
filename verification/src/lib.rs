//! Bridge asynchronous operating-system process signals into synchronous,
//! multi-consumer notification channels.
//!
//! The crate keeps one process-wide table of signal slots, one per
//! representable signal number.  Subscribing to a signal ensures the
//! OS-level handler is installed for that slot exactly once, appends a fresh
//! mailbox producer to the slot, and returns a [`signal::Signal`] handle that
//! owns the consumer side.  When the operating system delivers a signal, the
//! slot's producers each receive one notification token and any previously
//! installed handler is chained to, so other components of the process keep
//! their signal handling.
//!
//! The unverifiable edges — the raw OS handler, the `sigaction` call, the
//! console control callback — live outside this crate; they drive the
//! verified [`registry::Registry`] transitions and perform the actions those
//! transitions request.

use vstd::prelude::*;

pub mod console;
pub mod laws;
pub mod mailbox;
pub mod model;
pub mod prev;
pub mod registry;
pub mod signal;

pub use signal::Signal;

verus! {

/// Number of distinct classical signal numbers a full-size registry
/// represents; signal identifiers at or above this bound are invalid.
pub const SIGNAL_CAPACITY: usize = 32;

/// Why a subscription request was refused.
#[derive(Clone, Copy, Debug, PartialEq, Eq, Structural)]
pub enum SignalError {
    /// The requested signal identifier is outside the representable range;
    /// nothing was changed and no OS-level call was attempted.
    InvalidSignal,
    /// The operating system rejected installation of the handler for this
    /// signal, now or on an earlier attempt.
    RegistrationFailed,
}

} // verus!
