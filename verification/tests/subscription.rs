use may_signal::mailbox::PollOutcome;
use may_signal::model::{EnableStep, InstallOutcome};
use may_signal::prev::{ChainDecision, PrevHandler};
use may_signal::registry::Registry;
use may_signal::signal::Signal;
use may_signal::SignalError;

const SIGINT_NO: usize = 2;

fn installed_registry(signal: usize) -> Registry {
    let mut reg = Registry::new(32);
    assert_eq!(reg.enable_request(signal), EnableStep::NeedInstall);
    reg.apply_install(signal, InstallOutcome::Accepted(PrevHandler::DefaultAction));
    reg
}

#[test]
fn two_subscribers_each_notified_once() {
    let mut reg = installed_registry(SIGINT_NO);
    let a = Signal::new(&mut reg, SIGINT_NO).unwrap();
    let b = Signal::new(&mut reg, SIGINT_NO).unwrap();
    assert_ne!(a.token(), b.token());

    let d = reg.deliver(SIGINT_NO);
    assert_eq!(d.chain, ChainDecision::NoChain);

    assert_eq!(a.try_recv(), PollOutcome::Received);
    assert_eq!(a.try_recv(), PollOutcome::Empty);
    assert_eq!(b.try_recv(), PollOutcome::Received);
    assert_eq!(b.try_recv(), PollOutcome::Empty);
}

#[test]
fn dropping_one_handle_leaves_the_other() {
    let mut reg = installed_registry(SIGINT_NO);
    let a = Signal::new(&mut reg, SIGINT_NO).unwrap();
    let b = Signal::new(&mut reg, SIGINT_NO).unwrap();
    assert_eq!(reg.recipient_count(SIGINT_NO), 2);

    reg.unsubscribe(a.signal_number(), a.token());
    assert_eq!(reg.recipient_count(SIGINT_NO), 1);

    reg.deliver(SIGINT_NO);
    assert_eq!(a.try_recv(), PollOutcome::Disconnected);
    assert_eq!(b.try_recv(), PollOutcome::Received);
    assert_eq!(b.try_recv(), PollOutcome::Empty);
}

#[test]
fn unsubscribing_unknown_token_changes_nothing() {
    let mut reg = installed_registry(SIGINT_NO);
    let a = Signal::new(&mut reg, SIGINT_NO).unwrap();
    reg.unsubscribe(SIGINT_NO, a.token() + 17);
    reg.unsubscribe(9999, a.token());
    assert_eq!(reg.recipient_count(SIGINT_NO), 1);
    reg.deliver(SIGINT_NO);
    assert_eq!(a.try_recv(), PollOutcome::Received);
}

#[test]
fn out_of_range_identifier_is_refused_without_side_effects() {
    let mut reg = installed_registry(SIGINT_NO);
    assert_eq!(reg.enable_request(32), EnableStep::Invalid);
    assert_eq!(reg.enable_request(usize::MAX), EnableStep::Invalid);
    let r = Signal::new(&mut reg, 32);
    assert!(matches!(r, Err(SignalError::InvalidSignal)));
    assert_eq!(reg.slot_count(), 32);
    assert_eq!(reg.recipient_count(SIGINT_NO), 0);
}

#[test]
fn failed_installation_is_reported_to_subscribers() {
    let mut reg = Registry::new(32);
    assert_eq!(reg.enable_request(7), EnableStep::NeedInstall);
    reg.apply_install(7, InstallOutcome::Rejected);
    assert_eq!(reg.enable_request(7), EnableStep::AlreadyFailed);
    let r = Signal::new(&mut reg, 7);
    assert!(matches!(r, Err(SignalError::RegistrationFailed)));
}

#[test]
fn three_deliveries_yield_three_notifications() {
    let mut reg = installed_registry(SIGINT_NO);
    let ctrl_c = Signal::new(&mut reg, SIGINT_NO).unwrap();
    for _ in 0..3 {
        reg.deliver(SIGINT_NO);
    }
    assert_eq!(ctrl_c.take_count(3), (3, false));
    assert_eq!(ctrl_c.try_recv(), PollOutcome::Empty);
}

#[test]
fn two_independent_subscriptions_take_three_and_four() {
    let mut reg = installed_registry(SIGINT_NO);
    let a = Signal::new(&mut reg, SIGINT_NO).unwrap();
    let b = Signal::new(&mut reg, SIGINT_NO).unwrap();
    for _ in 0..4 {
        reg.deliver(SIGINT_NO);
    }
    assert_eq!(a.take_count(3), (3, false));
    assert_eq!(b.take_count(4), (4, false));
    assert_eq!(a.try_recv(), PollOutcome::Received);
    assert_eq!(a.try_recv(), PollOutcome::Empty);
    assert_eq!(b.try_recv(), PollOutcome::Empty);
}

#[test]
fn previously_installed_handler_is_chained_after_notification() {
    let mut reg = Registry::new(32);
    let prior_handler_id: u64 = 0x1234;
    assert_eq!(reg.enable_request(SIGINT_NO), EnableStep::NeedInstall);
    reg.apply_install(
        SIGINT_NO,
        InstallOutcome::Accepted(PrevHandler::Simple(prior_handler_id)),
    );
    let sub = Signal::new(&mut reg, SIGINT_NO).unwrap();

    let d = reg.deliver(SIGINT_NO);
    assert_eq!(sub.try_recv(), PollOutcome::Received);
    assert_eq!(d.chain, ChainDecision::CallSimple(prior_handler_id));
    assert_eq!(sub.try_recv(), PollOutcome::Empty);
}
