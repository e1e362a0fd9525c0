//! The caller-visible subscription handle.
//!
//! A [`Signal`] represents one independent registration for notifications of
//! one signal number.  It owns the consumer half of its mailbox and records
//! the token under which its producer stands in the registry, so that
//! exactly that producer — and no other subscriber of the same signal — can
//! be removed when the handle is given up.

use vstd::prelude::*;

use may::sync::mpsc::Receiver;

use crate::mailbox::{channel_pair, poll_notification, pull_notification, PollOutcome};
use crate::model::{subscribe_tr, SlotStatus};
use crate::registry::Registry;
use crate::SignalError;

verus! {

/// One independent subscription to one signal number: the consumer half of
/// its mailbox, plus the identity under which its producer is registered.
pub struct Signal {
    signal: usize,
    token: u64,
    rx: Receiver<()>,
}

impl Signal {
    /// The signal number this handle is subscribed to.
    pub closed spec fn signal_spec(&self) -> int {
        self.signal as int
    }

    /// The token identifying this handle's producer in the registry.
    pub closed spec fn token_spec(&self) -> u64 {
        self.token
    }

    /// Subscribe to notifications of `signal`.  The slot's one-time OS-level
    /// installation must already be resolved (see
    /// [`Registry::enable_request`]); the caller performing that step is
    /// what keeps this constructor free of OS work.
    ///
    /// An out-of-range identifier is refused with `InvalidSignal` and
    /// changes nothing; a slot whose installation failed is refused with
    /// `RegistrationFailed` and changes nothing.  Otherwise a fresh mailbox
    /// pair is created, its producer joins the slot under a fresh token, and
    /// the handle owning the consumer half is returned.  Other subscribers
    /// of the same signal are untouched.
    pub fn new(reg: &mut Registry, signal: usize) -> (r: Result<Signal, SignalError>)
        requires
            old(reg).wf(),
            old(reg).model().next < u64::MAX,
            signal < old(reg).model().slots.len() ==> !(old(reg).model().slots[signal as int].status
                is Uninstalled),
        ensures
            final (reg).wf(),
            signal >= old(reg).model().slots.len() ==> r == Result::<Signal, SignalError>::Err(
                SignalError::InvalidSignal,
            ) && final (reg).model() == old(reg).model(),
            signal < old(reg).model().slots.len() && old(reg).model().slots[signal as int].status
                is Failed ==> r == Result::<Signal, SignalError>::Err(
                SignalError::RegistrationFailed,
            ) && final (reg).model() == old(reg).model(),
            signal < old(reg).model().slots.len() && old(reg).model().slots[signal as int].status
                is Active ==> {
                &&& r is Ok
                &&& r->Ok_0.signal_spec() == signal
                &&& r->Ok_0.token_spec() == old(reg).model().next
                &&& final (reg).model() == subscribe_tr(old(reg).model(), signal as int)
            },
    {
        if signal >= reg.slot_count() {
            return Err(SignalError::InvalidSignal);
        }
        match reg.slot_status(signal) {
            SlotStatus::Failed => Err(SignalError::RegistrationFailed),
            SlotStatus::Uninstalled => Err(SignalError::RegistrationFailed),
            SlotStatus::Active { .. } => {
                let (tx, rx) = channel_pair();
                let token = reg.add_entry(signal, tx);
                Ok(Signal { signal, token, rx })
            },
        }
    }

    /// The signal number this handle is subscribed to.
    pub fn signal_number(&self) -> (r: usize)
        ensures
            r == self.signal_spec(),
    {
        self.signal
    }

    /// The token identifying this handle's producer; unregistration removes
    /// exactly the entry carrying it.
    pub fn token(&self) -> (r: u64)
        ensures
            r == self.token_spec(),
    {
        self.token
    }

    /// Block until the next notification of this handle's signal arrives;
    /// `true` means one occurrence was observed, `false` that the producer
    /// side is gone and nothing further will arrive.
    pub fn recv(&self) -> bool {
        pull_notification(&self.rx)
    }

    /// Poll for a notification without blocking.
    pub fn try_recv(&self) -> PollOutcome {
        poll_notification(&self.rx)
    }

    /// The handle's infinite notification sequence, limited to `n` items:
    /// consume notifications one blocking receive at a time until `n` have
    /// arrived or the mailbox disconnects.  Returns how many arrived and
    /// whether the sequence was cut short: unless the mailbox disconnected
    /// first, exactly `n` notifications were consumed; a disconnection
    /// stopped the count strictly short of `n`.
    pub fn take_count(&self, n: usize) -> (r: (usize, bool))
        ensures
            r.0 <= n,
            !r.1 ==> r.0 == n,
            r.1 ==> r.0 < n,
    {
        let mut got: usize = 0;
        while got < n
            invariant
                got <= n,
            decreases n - got,
        {
            if !self.recv() {
                return (got, true);
            }
            got += 1;
        }
        (got, false)
    }
}

} // verus!
