//! Model of the handler that was installed for a signal before this crate
//! took the signal over, and of the decision to forward ("chain") a delivered
//! signal to it.
//!
//! The previously installed action is kept as a tagged variant instead of a
//! raw function-pointer-and-flags pair: classification happens once, when the
//! handler is captured at installation time, and delivery then dispatches on
//! the variant alone.

use vstd::prelude::*;

verus! {

/// The action that was installed for a signal number before this crate's
/// handler replaced it.  Handler identities are carried as plain integers
/// (the numeric value of the OS-level function pointer); this crate never
/// calls through them itself, it only decides whether its caller must.
#[derive(Clone, Copy, Debug, PartialEq, Eq, Structural)]
pub enum PrevHandler {
    /// No handler had ever been installed for this signal.
    NoPrevious,
    /// The OS default action was in force.
    DefaultAction,
    /// The signal was explicitly ignored.
    IgnoreAction,
    /// A plain handler taking only the signal number.
    Simple(u64),
    /// An extended-info handler taking the signal number plus extra context.
    Extended(u64),
}

/// What a delivery must do about the previously installed handler, after the
/// slot's subscribers have all been notified.
#[derive(Clone, Copy, Debug, PartialEq, Eq, Structural)]
pub enum ChainDecision {
    /// Nothing to forward to: there was no previous handler, or it was the
    /// default action or explicit-ignore, neither of which is chained.
    NoChain,
    /// Invoke the previous plain handler, once, with the signal number.
    CallSimple(u64),
    /// Invoke the previous extended-info handler, once, with the signal
    /// number and the extra context the OS handed over.
    CallExtended(u64),
}

/// How a raw captured action is read as a [`PrevHandler`].  `default_code`
/// and `ignore_code` are the platform's encodings of "default action" and
/// "ignore"; `wants_extended` is the captured flag saying the old handler
/// used the extended-info calling convention.
pub open spec fn classify_spec(
    raw: u64,
    default_code: u64,
    ignore_code: u64,
    wants_extended: bool,
) -> PrevHandler {
    if raw == 0 {
        PrevHandler::NoPrevious
    } else if raw == default_code {
        PrevHandler::DefaultAction
    } else if raw == ignore_code {
        PrevHandler::IgnoreAction
    } else if wants_extended {
        PrevHandler::Extended(raw)
    } else {
        PrevHandler::Simple(raw)
    }
}

/// Turn the raw action captured from the OS at installation time into its
/// tagged representation.
pub fn classify_previous(raw: u64, default_code: u64, ignore_code: u64, wants_extended: bool) -> (r:
    PrevHandler)
    ensures
        r == classify_spec(raw, default_code, ignore_code, wants_extended),
{
    if raw == 0 {
        PrevHandler::NoPrevious
    } else if raw == default_code {
        PrevHandler::DefaultAction
    } else if raw == ignore_code {
        PrevHandler::IgnoreAction
    } else if wants_extended {
        PrevHandler::Extended(raw)
    } else {
        PrevHandler::Simple(raw)
    }
}

/// The chaining a delivery owes to the previous handler: real handlers are
/// invoked with their original calling convention; the default action and
/// explicit-ignore are never forwarded to.
pub open spec fn chain_of_prev(prev: PrevHandler) -> ChainDecision {
    match prev {
        PrevHandler::NoPrevious => ChainDecision::NoChain,
        PrevHandler::DefaultAction => ChainDecision::NoChain,
        PrevHandler::IgnoreAction => ChainDecision::NoChain,
        PrevHandler::Simple(h) => ChainDecision::CallSimple(h),
        PrevHandler::Extended(h) => ChainDecision::CallExtended(h),
    }
}

/// Compute the chaining owed to a previous handler.
pub fn chain_for(prev: PrevHandler) -> (r: ChainDecision)
    ensures
        r == chain_of_prev(prev),
{
    match prev {
        PrevHandler::NoPrevious => ChainDecision::NoChain,
        PrevHandler::DefaultAction => ChainDecision::NoChain,
        PrevHandler::IgnoreAction => ChainDecision::NoChain,
        PrevHandler::Simple(h) => ChainDecision::CallSimple(h),
        PrevHandler::Extended(h) => ChainDecision::CallExtended(h),
    }
}

} // verus!
