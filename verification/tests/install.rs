use may_signal::console::{
    console_event_slot, CONSOLE_BREAK_EVENT, CONSOLE_EVENT_COUNT, CONSOLE_INTERRUPT_EVENT,
};
use may_signal::mailbox::PollOutcome;
use may_signal::model::{EnableStep, InstallOutcome};
use may_signal::prev::{chain_for, classify_previous, ChainDecision, PrevHandler};
use may_signal::registry::Registry;
use may_signal::signal::Signal;

// Plays the role of the code around the registry: resolves the enable step,
// counting every OS-level installation it is asked to perform.
fn enable_counting(reg: &mut Registry, signal: usize, installs: &mut u32) -> Result<(), EnableStep> {
    match reg.enable_request(signal) {
        EnableStep::Ready => Ok(()),
        EnableStep::NeedInstall => {
            *installs += 1;
            reg.apply_install(signal, InstallOutcome::Accepted(PrevHandler::DefaultAction));
            Ok(())
        }
        step => Err(step),
    }
}

#[test]
fn repeated_enable_installs_exactly_once() {
    let mut reg = Registry::new(32);
    let mut installs: u32 = 0;
    for _ in 0..5 {
        enable_counting(&mut reg, 15, &mut installs).unwrap();
    }
    assert_eq!(installs, 1);

    let _a = Signal::new(&mut reg, 15).unwrap();
    let _b = Signal::new(&mut reg, 15).unwrap();
    enable_counting(&mut reg, 15, &mut installs).unwrap();
    assert_eq!(installs, 1);
}

#[test]
fn enabling_two_signals_installs_each_once() {
    let mut reg = Registry::new(32);
    let mut installs: u32 = 0;
    enable_counting(&mut reg, 2, &mut installs).unwrap();
    enable_counting(&mut reg, 15, &mut installs).unwrap();
    enable_counting(&mut reg, 2, &mut installs).unwrap();
    enable_counting(&mut reg, 15, &mut installs).unwrap();
    assert_eq!(installs, 2);
}

#[test]
fn classification_of_captured_actions() {
    let dfl: u64 = 0;
    let ign: u64 = 1;
    assert_eq!(classify_previous(0, dfl, ign, false), PrevHandler::NoPrevious);
    assert_eq!(classify_previous(1, dfl, ign, false), PrevHandler::IgnoreAction);
    assert_eq!(
        classify_previous(0xbeef, dfl, ign, false),
        PrevHandler::Simple(0xbeef)
    );
    assert_eq!(
        classify_previous(0xbeef, dfl, ign, true),
        PrevHandler::Extended(0xbeef)
    );
    // A platform where "default" has a nonzero encoding of its own.
    assert_eq!(classify_previous(5, 5, 6, true), PrevHandler::DefaultAction);
}

#[test]
fn chain_decisions_follow_the_captured_action() {
    assert_eq!(chain_for(PrevHandler::NoPrevious), ChainDecision::NoChain);
    assert_eq!(chain_for(PrevHandler::DefaultAction), ChainDecision::NoChain);
    assert_eq!(chain_for(PrevHandler::IgnoreAction), ChainDecision::NoChain);
    assert_eq!(chain_for(PrevHandler::Simple(7)), ChainDecision::CallSimple(7));
    assert_eq!(
        chain_for(PrevHandler::Extended(9)),
        ChainDecision::CallExtended(9)
    );
}

#[test]
fn console_events_map_to_their_slots() {
    assert_eq!(console_event_slot(CONSOLE_INTERRUPT_EVENT), Some(0));
    assert_eq!(console_event_slot(CONSOLE_BREAK_EVENT), Some(1));
    assert_eq!(console_event_slot(2), None);
    assert_eq!(console_event_slot(u32::MAX), None);
}

#[test]
fn console_registry_needs_no_per_slot_installation() {
    let mut reg = Registry::new_ready(CONSOLE_EVENT_COUNT);
    assert_eq!(reg.enable_request(0), EnableStep::Ready);
    assert_eq!(reg.enable_request(1), EnableStep::Ready);
    assert_eq!(reg.enable_request(2), EnableStep::Invalid);

    let slot = console_event_slot(CONSOLE_INTERRUPT_EVENT).unwrap();
    let h = Signal::new(&mut reg, slot).unwrap();
    let d = reg.deliver(slot);
    assert_eq!(d.chain, ChainDecision::NoChain);
    assert_eq!(h.try_recv(), PollOutcome::Received);
    assert_eq!(h.try_recv(), PollOutcome::Empty);
}

#[test]
fn take_count_of_zero_takes_nothing() {
    let mut reg = Registry::new_ready(1);
    let h = Signal::new(&mut reg, 0).unwrap();
    reg.deliver(0);
    assert_eq!(h.take_count(0), (0, false));
    assert_eq!(h.try_recv(), PollOutcome::Received);
}

#[test]
fn take_count_stops_on_disconnection() {
    let mut reg = Registry::new_ready(1);
    let h = Signal::new(&mut reg, 0).unwrap();
    reg.deliver(0);
    reg.deliver(0);
    reg.unsubscribe(h.signal_number(), h.token());
    // Two notifications were delivered before the producer was removed,
    // so the sequence is cut short at two.
    assert_eq!(h.take_count(5), (2, true));
}
