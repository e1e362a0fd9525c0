//! The broadcast and lifecycle laws of the registry, stated over the ghost
//! model and proved once and for all.
//!
//! Each law quantifies over every well-formed registry state, so it covers
//! every history of subscriptions, unsubscriptions and deliveries that the
//! executable operations — whose contracts are exactly these transitions —
//! can produce.

use vstd::prelude::*;

use crate::model::{
    deliver_tokens, enable_step_of, in_range, install_tr, lemma_subscribe_preserves_wf, model_wf,
    subscribe_tr, unsubscribe_tr, EnableStep, InstallOutcome, RegistryModel, SlotStatus,
};
use crate::prev::{ChainDecision, PrevHandler};
use crate::registry::chain_of_status;

verus! {

broadcast use vstd::seq_lib::group_to_multiset_ensures, vstd::multiset::group_multiset_axioms;

/// A token the registry has never issued occurs in no slot.
proof fn lemma_fresh_token_absent(m: RegistryModel, s: int, t: u64)
    requires
        model_wf(m),
        in_range(m, s),
        t >= m.next,
    ensures
        !m.slots[s].tokens.contains(t),
        m.slots[s].tokens.to_multiset().count(t) == 0,
{
    let ts = m.slots[s].tokens;
    assert forall|i: int| 0 <= i < ts.len() implies ts[i] != t by {
        assert(ts[i] < m.next);
    }
}

/// Law: for any valid signal, subscribing twice and then delivering one
/// occurrence of the signal notifies each of the two new subscribers
/// exactly once.
pub proof fn lemma_two_subscribers_one_delivery(m: RegistryModel, s: int)
    requires
        model_wf(m),
        in_range(m, s),
        m.slots[s].status is Active,
        m.next + 2 <= u64::MAX,
    ensures
        ({
            let t1 = m.next;
            let m1 = subscribe_tr(m, s);
            let t2 = m1.next;
            let m2 = subscribe_tr(m1, s);
            let notified = deliver_tokens(m2, s);
            &&& t1 != t2
            &&& notified.to_multiset().count(t1) == 1
            &&& notified.to_multiset().count(t2) == 1
        }),
{
    let t1 = m.next;
    let m1 = subscribe_tr(m, s);
    let t2 = m1.next;
    let m2 = subscribe_tr(m1, s);
    let ts = m.slots[s].tokens;
    let notified = deliver_tokens(m2, s);
    assert(notified =~= ts.push(t1).push(t2));
    lemma_fresh_token_absent(m, s, t1);
    lemma_fresh_token_absent(m, s, t2);
    assert(notified.to_multiset() =~= ts.to_multiset().insert(t1).insert(t2));
}

/// Law: with two subscribers to the same signal, dropping the first and
/// then delivering the signal notifies only the remaining one, and the
/// slot's producer list has grown by exactly one entry over where it began
/// — the dropped subscriber's entry is fully reclaimed.
pub proof fn lemma_drop_leaves_other_intact(m: RegistryModel, s: int)
    requires
        model_wf(m),
        in_range(m, s),
        m.slots[s].status is Active,
        m.next + 2 <= u64::MAX,
    ensures
        ({
            let t1 = m.next;
            let m1 = subscribe_tr(m, s);
            let t2 = m1.next;
            let m2 = subscribe_tr(m1, s);
            let m3 = unsubscribe_tr(m2, s, t1);
            let notified = deliver_tokens(m3, s);
            &&& !notified.contains(t1)
            &&& notified.to_multiset().count(t2) == 1
            &&& m3.slots[s].tokens.len() == m.slots[s].tokens.len() + 1
        }),
{
    let t1 = m.next;
    let m1 = subscribe_tr(m, s);
    let t2 = m1.next;
    let m2 = subscribe_tr(m1, s);
    let m3 = unsubscribe_tr(m2, s, t1);
    let ts = m.slots[s].tokens;
    let ts2 = m2.slots[s].tokens;
    assert(ts2 =~= ts.push(t1).push(t2));
    lemma_fresh_token_absent(m, s, t1);
    lemma_fresh_token_absent(m, s, t2);
    assert(ts2[ts.len() as int] == t1);
    assert(ts2.contains(t1));
    let p = ts2.index_of(t1);
    assert(0 <= p < ts2.len() && ts2[p] == t1);
    lemma_subscribe_preserves_wf(m, s);
    lemma_subscribe_preserves_wf(m1, s);
    assert(p == ts.len()) by {
        if p != ts.len() {
            assert(ts2[p] == ts2[ts.len() as int]);
        }
    }
    let notified = deliver_tokens(m3, s);
    assert(notified =~= ts.push(t2));
    assert forall|i: int| 0 <= i < notified.len() implies notified[i] != t1 by {
        if i < ts.len() {
            assert(notified[i] < m.next);
        }
    }
    assert(notified.to_multiset() =~= ts.to_multiset().insert(t2));
}

/// Law: an out-of-range signal identifier is refused before anything else —
/// the enable step for it is `Invalid`, which requests no OS-level
/// installation and touches no state.
pub proof fn lemma_out_of_range_refused(m: RegistryModel, s: int)
    requires
        !in_range(m, s),
    ensures
        enable_step_of(m, s) == EnableStep::Invalid,
{
}

/// Law: a slot is installed at most once.  While a slot has never been
/// installed the enable step asks for the one installation; as soon as the
/// outcome is recorded, every further enable request for the slot asks for
/// no OS-level action, whatever it was.
pub proof fn lemma_enable_after_install(m: RegistryModel, s: int, p: PrevHandler)
    requires
        in_range(m, s),
        m.slots[s].status is Uninstalled,
    ensures
        enable_step_of(m, s) == EnableStep::NeedInstall,
        enable_step_of(install_tr(m, s, InstallOutcome::Accepted(p)), s) == EnableStep::Ready,
        enable_step_of(install_tr(m, s, InstallOutcome::Rejected), s) == EnableStep::AlreadyFailed,
{
}

/// Law: once a slot is active, enabling it again performs no OS-level
/// action, and no amount of subscribing or unsubscribing changes that.
pub proof fn lemma_install_exactly_once(m: RegistryModel, s: int)
    requires
        in_range(m, s),
        m.slots[s].status is Active,
    ensures
        enable_step_of(m, s) == EnableStep::Ready,
        enable_step_of(subscribe_tr(m, s), s) == EnableStep::Ready,
        forall|t: u64|
            #[trigger] enable_step_of(unsubscribe_tr(m, s, t), s) == EnableStep::Ready,
{
}

/// Law: one delivery of a signal notifies every subscriber registered in
/// its slot exactly once — no subscriber is skipped and none is notified
/// twice.
pub proof fn lemma_delivery_notifies_each_once(m: RegistryModel, s: int)
    requires
        model_wf(m),
        in_range(m, s),
    ensures
        deliver_tokens(m, s) == m.slots[s].tokens,
        forall|i: int|
            0 <= i < m.slots[s].tokens.len() ==> deliver_tokens(m, s).to_multiset().count(
                #[trigger] m.slots[s].tokens[i],
            ) == 1,
{
    let ts = m.slots[s].tokens;
    assert(ts.no_duplicates()) by {
        reveal(Seq::no_duplicates);
    }
    ts.lemma_multiset_has_no_duplicates();
    assert forall|i: int| 0 <= i < ts.len() implies ts.to_multiset().count(ts[i]) == 1 by {
        assert(ts.contains(ts[i]));
    }
}

/// Law: when a real previous plain handler was captured for a slot, one
/// delivery of the signal notifies every subscriber of the slot exactly
/// once and owes exactly one invocation of that handler — owed only after
/// the notifications, which is the order `Registry::deliver` fixes.
pub proof fn lemma_previous_handler_chained(m: RegistryModel, s: int, h: u64)
    requires
        model_wf(m),
        in_range(m, s),
        m.slots[s].status == (SlotStatus::Active { prev: PrevHandler::Simple(h) }),
    ensures
        deliver_tokens(m, s) == m.slots[s].tokens,
        forall|i: int|
            0 <= i < m.slots[s].tokens.len() ==> deliver_tokens(m, s).to_multiset().count(
                #[trigger] m.slots[s].tokens[i],
            ) == 1,
        chain_of_status(m.slots[s].status) == ChainDecision::CallSimple(h),
{
    lemma_delivery_notifies_each_once(m, s);
}

} // verus!
