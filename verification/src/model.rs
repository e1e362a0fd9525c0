//! Mathematical model of the process-wide signal table.
//!
//! A registry is a finite sequence of slots, one per representable signal
//! number, together with the next unissued subscriber token.  Each slot
//! records its one-time installation state and the tokens of the producers
//! currently registered for it, in the order they were appended.  The
//! executable [`crate::registry::Registry`] states each of its operations as
//! one of the transition functions below acting on this model.

use vstd::prelude::*;

use crate::prev::PrevHandler;

verus! {

/// One-time OS-level installation state of a slot.  Carrying the captured
/// previous handler inside the `Active` variant makes the invariant "no slot
/// is installed with its previous handler unrecorded" structural: there is no
/// installed state without a recorded previous action.
#[derive(Clone, Copy, Debug, PartialEq, Eq, Structural)]
pub enum SlotStatus {
    /// Installation for this signal has never been attempted.
    Uninstalled,
    /// The bridge handler is installed; `prev` is the action that was
    /// captured, atomically with installation, as previously in force.
    Active { prev: PrevHandler },
    /// Installation was attempted once and the OS rejected it.
    Failed,
}

/// Model of one signal slot.
pub struct SlotModel {
    /// One-time installation state.
    pub status: SlotStatus,
    /// Tokens of the registered producers, in registration order.
    pub tokens: Seq<u64>,
}

/// Model of the whole registry.
pub struct RegistryModel {
    /// One slot per representable signal number.
    pub slots: Seq<SlotModel>,
    /// The next token to hand to a subscriber; every issued token is below it.
    pub next: u64,
}

/// What a caller asking to enable a signal must do next.
#[derive(Clone, Copy, Debug, PartialEq, Eq, Structural)]
pub enum EnableStep {
    /// The identifier is out of range: refuse it, attempt nothing.
    Invalid,
    /// The slot is already installed: nothing further, success.
    Ready,
    /// The slot has never been installed: perform the one OS-level
    /// installation and record its outcome.
    NeedInstall,
    /// A previous installation attempt failed: report the failure.
    AlreadyFailed,
}

/// The reported result of the one OS-level installation attempt.
#[derive(Clone, Copy, Debug, PartialEq, Eq, Structural)]
pub enum InstallOutcome {
    /// The OS accepted the handler; the action previously in force was
    /// captured as given.
    Accepted(PrevHandler),
    /// The OS rejected the handler.
    Rejected,
}

/// Well-formedness of one slot: registered tokens are pairwise distinct, and
/// a slot that was never installed has no subscribers (producers are only
/// ever added after installation succeeded).
pub open spec fn slot_wf(s: SlotModel) -> bool {
    &&& forall|i: int, j: int|
        0 <= i < j < s.tokens.len() ==> s.tokens[i] != s.tokens[j]
    &&& s.status is Uninstalled ==> s.tokens.len() == 0
}

/// Well-formedness of the registry: every slot is well formed and every
/// issued token lies below `next`, so a fresh token collides with nothing.
pub open spec fn model_wf(m: RegistryModel) -> bool {
    &&& forall|k: int| 0 <= k < m.slots.len() ==> slot_wf(#[trigger] m.slots[k])
    &&& forall|k: int, i: int|
        0 <= k < m.slots.len() && 0 <= i < m.slots[k].tokens.len() ==> #[trigger] m.slots[k].tokens[i]
            < m.next
}

/// Whether `s` is a representable signal number of `m`.
pub open spec fn in_range(m: RegistryModel, s: int) -> bool {
    0 <= s < m.slots.len()
}

/// The step a caller asking to enable signal `s` owes: out-of-range
/// identifiers are refused before any OS-level action, an installed slot
/// requires nothing further, a never-installed slot requires the one
/// installation, and a slot whose installation failed reports the failure.
pub open spec fn enable_step_of(m: RegistryModel, s: int) -> EnableStep {
    if !in_range(m, s) {
        EnableStep::Invalid
    } else {
        match m.slots[s].status {
            SlotStatus::Uninstalled => EnableStep::NeedInstall,
            SlotStatus::Active { .. } => EnableStep::Ready,
            SlotStatus::Failed => EnableStep::AlreadyFailed,
        }
    }
}

/// Recording the outcome of the one OS-level installation attempt for slot
/// `s`: acceptance makes the slot active with the captured previous action,
/// rejection marks it failed; subscribers and every other slot are untouched.
pub open spec fn install_tr(m: RegistryModel, s: int, outcome: InstallOutcome) -> RegistryModel {
    RegistryModel {
        slots: m.slots.update(
            s,
            SlotModel {
                status: match outcome {
                    InstallOutcome::Accepted(prev) => SlotStatus::Active { prev },
                    InstallOutcome::Rejected => SlotStatus::Failed,
                },
                tokens: m.slots[s].tokens,
            },
        ),
        next: m.next,
    }
}

/// Registering one new subscriber for slot `s`: the fresh token `m.next` is
/// appended to the slot's producers and the token counter advances; the
/// slot's installation state and every other slot are untouched.
pub open spec fn subscribe_tr(m: RegistryModel, s: int) -> RegistryModel {
    RegistryModel {
        slots: m.slots.update(
            s,
            SlotModel { status: m.slots[s].status, tokens: m.slots[s].tokens.push(m.next) },
        ),
        next: (m.next + 1) as u64,
    }
}

/// The producers of slot `s` after the entry with token `t` is removed:
/// exactly the occurrence of `t` leaves, every other entry stays in order.
pub open spec fn remove_token(ts: Seq<u64>, t: u64) -> Seq<u64> {
    if ts.contains(t) {
        ts.remove(ts.index_of(t))
    } else {
        ts
    }
}

/// Unregistering the subscriber with token `t` from slot `s`; slots other
/// than `s`, the slot's installation state and the token counter are
/// untouched, and tokens other than `t` all stay.
pub open spec fn unsubscribe_tr(m: RegistryModel, s: int, t: u64) -> RegistryModel {
    RegistryModel {
        slots: m.slots.update(
            s,
            SlotModel { status: m.slots[s].status, tokens: remove_token(m.slots[s].tokens, t) },
        ),
        next: m.next,
    }
}

/// The fan-out of one delivered occurrence of signal `s`: every producer
/// registered in the slot, each exactly once, in registration order.
pub open spec fn deliver_tokens(m: RegistryModel, s: int) -> Seq<u64> {
    if in_range(m, s) {
        m.slots[s].tokens
    } else {
        Seq::empty()
    }
}

/// Registering a subscriber preserves well-formedness: the fresh token is
/// above every issued one, so distinctness survives the append.
pub proof fn lemma_subscribe_preserves_wf(m: RegistryModel, s: int)
    requires
        model_wf(m),
        in_range(m, s),
        m.slots[s].status is Active,
        m.next < u64::MAX,
    ensures
        model_wf(subscribe_tr(m, s)),
{
    let m2 = subscribe_tr(m, s);
    assert forall|k: int| 0 <= k < m2.slots.len() implies slot_wf(#[trigger] m2.slots[k]) by {
        if k == s {
            let old_ts = m.slots[s].tokens;
            let ts = m2.slots[s].tokens;
            assert forall|i: int, j: int| 0 <= i < j < ts.len() implies ts[i] != ts[j] by {
                if j < old_ts.len() {
                } else {
                    assert(ts[i] == old_ts[i] && old_ts[i] < m.next);
                }
            }
        }
    }
}

/// Recording an installation outcome preserves well-formedness.
pub proof fn lemma_install_preserves_wf(m: RegistryModel, s: int, outcome: InstallOutcome)
    requires
        model_wf(m),
        in_range(m, s),
        m.slots[s].status is Uninstalled,
    ensures
        model_wf(install_tr(m, s, outcome)),
{
}

/// Unregistering a subscriber preserves well-formedness: the surviving
/// tokens are a subset of the old ones, kept in order.
pub proof fn lemma_unsubscribe_preserves_wf(m: RegistryModel, s: int, t: u64)
    requires
        model_wf(m),
        in_range(m, s),
    ensures
        model_wf(unsubscribe_tr(m, s, t)),
{
    let m2 = unsubscribe_tr(m, s, t);
    let old_ts = m.slots[s].tokens;
    let ts = m2.slots[s].tokens;
    if old_ts.contains(t) {
        let p = old_ts.index_of(t);
        assert forall|i: int, j: int| 0 <= i < j < ts.len() implies ts[i] != ts[j] by {
            assert(ts[i] == if i < p {
                old_ts[i]
            } else {
                old_ts[i + 1]
            });
            assert(ts[j] == if j < p {
                old_ts[j]
            } else {
                old_ts[j + 1]
            });
        }
        assert forall|i: int| 0 <= i < ts.len() implies #[trigger] ts[i] < m.next by {
            assert(ts[i] == if i < p {
                old_ts[i]
            } else {
                old_ts[i + 1]
            });
        }
        assert(slot_wf(m2.slots[s]));
    }
}

} // verus!
