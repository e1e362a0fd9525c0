//! The notification mailbox: one `may::sync::mpsc` channel per subscriber,
//! carrying only presence-of-occurrence tokens.
//!
//! The channel is an external collaborator.  Its two halves are opaque here;
//! what it returns depends on concurrent senders and receivers, so the
//! wrappers state nothing of their results and the logic around them is
//! verified for every outcome.  Send failures are swallowed: the producer
//! side is driven from OS handler context, where a full or closed mailbox
//! must never turn into a crash.

use vstd::prelude::*;

use may::sync::mpsc::{Receiver, Sender};

verus! {

#[verifier::external_type_specification]
#[verifier::external_body]
#[verifier::reject_recursive_types(T)]
pub struct ExSender<T>(Sender<T>);

#[verifier::external_type_specification]
#[verifier::external_body]
#[verifier::reject_recursive_types(T)]
pub struct ExReceiver<T>(Receiver<T>);

/// Outcome of a non-blocking poll of a subscription's mailbox.
#[derive(Clone, Copy, Debug, PartialEq, Eq, Structural)]
pub enum PollOutcome {
    /// One notification token was consumed.
    Received,
    /// No notification is pending right now.
    Empty,
    /// The producer side is gone and nothing further will arrive.
    Disconnected,
}

/// Relies on `may::sync::mpsc::channel`: creates a fresh channel and returns
/// its producer and consumer halves.
#[verifier::external_body]
pub(crate) fn channel_pair() -> (r: (Sender<()>, Receiver<()>)) {
    may::sync::mpsc::channel()
}

/// Relies on `may::sync::mpsc::Sender::send`: enqueues one notification
/// token.  A send that the mailbox refuses (consumer already gone) is
/// dropped silently.
#[verifier::external_body]
pub(crate) fn push_notification(tx: &Sender<()>) {
    let _ = tx.send(());
}

/// Relies on `may::sync::mpsc::Receiver::recv`: blocks until a notification
/// arrives or every producer is gone; `true` means one notification token
/// was consumed.
#[verifier::external_body]
pub(crate) fn pull_notification(rx: &Receiver<()>) -> (r: bool) {
    match rx.recv() {
        Ok(()) => true,
        Err(_) => false,
    }
}

/// Relies on `may::sync::mpsc::Receiver::try_recv`: polls without blocking,
/// reporting a consumed token, an empty mailbox, or disconnection.
#[verifier::external_body]
pub(crate) fn poll_notification(rx: &Receiver<()>) -> (r: PollOutcome) {
    match rx.try_recv() {
        Ok(()) => PollOutcome::Received,
        Err(std::sync::mpsc::TryRecvError::Empty) => PollOutcome::Empty,
        Err(std::sync::mpsc::TryRecvError::Disconnected) => PollOutcome::Disconnected,
    }
}

} // verus!
