//! The process-wide signal slot table.
//!
//! A [`Registry`] holds one slot per representable signal number.  Each slot
//! carries its one-time OS-level installation state and the producers
//! registered for it, each under a unique token.  Every operation's contract
//! is stated as a transition of the ghost model in [`crate::model`]; the code
//! that actually talks to the operating system lives outside the crate and
//! only performs the steps these operations decide.

use vstd::prelude::*;

use may::sync::mpsc::Sender;

use crate::mailbox::push_notification;
use crate::model::{
    deliver_tokens, enable_step_of, in_range, install_tr, lemma_install_preserves_wf,
    lemma_subscribe_preserves_wf, lemma_unsubscribe_preserves_wf, model_wf, remove_token,
    subscribe_tr, unsubscribe_tr, EnableStep, InstallOutcome, RegistryModel, SlotModel, SlotStatus,
};
use crate::prev::{chain_for, chain_of_prev, ChainDecision, PrevHandler};

verus! {

/// One registered producer: its identifying token and the sending half of
/// the subscriber's mailbox.  The token, not the producer value, is what
/// identifies the entry, so unregistration is precise among producers that
/// are otherwise indistinguishable.
pub(crate) struct Entry {
    pub token: u64,
    pub tx: Sender<()>,
}

/// One signal slot: installation state plus the registered producers in
/// registration order.
pub(crate) struct Slot {
    pub status: SlotStatus,
    pub entries: Vec<Entry>,
}

impl Slot {
    /// The slot as the ghost model sees it: its state and its tokens.
    pub(crate) closed spec fn model(&self) -> SlotModel {
        SlotModel { status: self.status, tokens: self.entries@.map_values(|e: Entry| e.token) }
    }
}

/// What one delivered signal occurrence did: which producers were handed a
/// notification, and what the caller owes the previously installed handler
/// once those notifications are out.
pub struct Delivery {
    /// The chaining still owed: the previous handler, if it was a real
    /// handler, is to be invoked exactly once, after the notifications.
    pub chain: ChainDecision,
    /// The tokens whose producers were each handed exactly one notification,
    /// in registration order.
    pub notified: Ghost<Seq<u64>>,
}

/// The process-wide table of signal slots.
pub struct Registry {
    slots: Vec<Slot>,
    next_token: u64,
}

impl Registry {
    /// The registry as the ghost model sees it.
    pub closed spec fn model(&self) -> RegistryModel {
        RegistryModel {
            slots: self.slots@.map_values(|sl: Slot| sl.model()),
            next: self.next_token,
        }
    }

    /// Well-formedness: tokens are pairwise distinct within a slot and all
    /// lie below the next unissued token.
    pub open spec fn wf(&self) -> bool {
        model_wf(self.model())
    }

    /// A fresh table of `n` slots, none installed, none subscribed.
    pub fn new(n: usize) -> (r: Registry)
        ensures
            r.wf(),
            r.model().slots.len() == n,
            forall|k: int|
                0 <= k < n ==> (#[trigger] r.model().slots[k]).status is Uninstalled
                    && r.model().slots[k].tokens.len() == 0,
            r.model().next == 0,
    {
        Registry { slots: Self::fresh_slots(n, SlotStatus::Uninstalled), next_token: 0 }
    }

    /// A fresh table of `n` slots that need no per-slot OS installation, for
    /// platforms whose single process-wide callback is registered when the
    /// table is created: every slot starts active with no previous handler
    /// to chain to, and no subscribers.
    pub fn new_ready(n: usize) -> (r: Registry)
        ensures
            r.wf(),
            r.model().slots.len() == n,
            forall|k: int|
                0 <= k < n ==> (#[trigger] r.model().slots[k]).status == (SlotStatus::Active {
                    prev: PrevHandler::NoPrevious,
                }) && r.model().slots[k].tokens.len() == 0,
            r.model().next == 0,
    {
        Registry {
            slots: Self::fresh_slots(n, SlotStatus::Active { prev: PrevHandler::NoPrevious }),
            next_token: 0,
        }
    }

    /// `n` empty slots, each in state `status`.
    fn fresh_slots(n: usize, status: SlotStatus) -> (r: Vec<Slot>)
        ensures
            r@.len() == n,
            forall|k: int|
                0 <= k < n ==> (#[trigger] r@[k]).status == status && r@[k].entries@.len() == 0,
    {
        let mut slots: Vec<Slot> = Vec::new();
        let mut i: usize = 0;
        while i < n
            invariant
                i <= n,
                slots@.len() == i,
                forall|k: int|
                    0 <= k < i ==> (#[trigger] slots@[k]).status == status && slots@[k].entries@.len()
                        == 0,
            decreases n - i,
        {
            slots.push(Slot { status, entries: Vec::new() });
            i += 1;
        }
        slots
    }

    /// How many distinct signal numbers this table represents.
    pub fn slot_count(&self) -> (r: usize)
        ensures
            r == self.model().slots.len(),
    {
        self.slots.len()
    }

    /// How many subscriber tokens have been issued so far; the next
    /// subscription, if any, receives exactly this value as its token.
    pub fn tokens_issued(&self) -> (r: u64)
        ensures
            r == self.model().next,
    {
        self.next_token
    }

    /// The installation state of a valid slot.
    pub fn slot_status(&self, s: usize) -> (r: SlotStatus)
        requires
            s < self.model().slots.len(),
        ensures
            r == self.model().slots[s as int].status,
    {
        self.slots[s].status
    }

    /// How many producers are currently registered for a valid slot.
    pub fn recipient_count(&self, s: usize) -> (r: usize)
        requires
            s < self.model().slots.len(),
        ensures
            r == self.model().slots[s as int].tokens.len(),
    {
        self.slots[s].entries.len()
    }

    /// What a caller asking to enable signal `s` must do next.  An
    /// out-of-range identifier is refused here, before any OS-level action;
    /// an installed slot asks for nothing further, however often this is
    /// called; a never-installed slot asks for the one OS-level
    /// installation; a slot whose installation failed reports that.
    pub fn enable_request(&self, s: usize) -> (r: EnableStep)
        ensures
            r == enable_step_of(self.model(), s as int),
    {
        if s >= self.slots.len() {
            EnableStep::Invalid
        } else {
            match self.slots[s].status {
                SlotStatus::Uninstalled => EnableStep::NeedInstall,
                SlotStatus::Active { .. } => EnableStep::Ready,
                SlotStatus::Failed => EnableStep::AlreadyFailed,
            }
        }
    }

    /// Record the outcome of the one OS-level installation attempt for slot
    /// `s`.  Acceptance stores the captured previous handler in the same
    /// step, so the slot is never installed with its previous handler
    /// unrecorded; rejection marks the slot failed.
    pub fn apply_install(&mut self, s: usize, outcome: InstallOutcome)
        requires
            old(self).wf(),
            s < old(self).model().slots.len(),
            old(self).model().slots[s as int].status is Uninstalled,
        ensures
            final (self).wf(),
            final (self).model() == install_tr(old(self).model(), s as int, outcome),
    {
        let mut slot = self.slots.remove(s);
        slot.status = match outcome {
            InstallOutcome::Accepted(prev) => SlotStatus::Active { prev },
            InstallOutcome::Rejected => SlotStatus::Failed,
        };
        self.slots.insert(s, slot);
        proof {
            let mo = old(self).model();
            let mi = install_tr(mo, s as int, outcome);
            assert(self.model().slots =~= mi.slots);
            assert(self.model() == mi);
            lemma_install_preserves_wf(mo, s as int, outcome);
        }
    }

    /// Register one new producer for the active slot `s` under a fresh
    /// token, which is returned.  The token is appended to the slot's list;
    /// no other slot and no other entry is touched.
    pub(crate) fn add_entry(&mut self, s: usize, tx: Sender<()>) -> (token: u64)
        requires
            old(self).wf(),
            s < old(self).model().slots.len(),
            old(self).model().slots[s as int].status is Active,
            old(self).model().next < u64::MAX,
        ensures
            final (self).wf(),
            token == old(self).model().next,
            final (self).model() == subscribe_tr(old(self).model(), s as int),
    {
        let token = self.next_token;
        self.next_token = self.next_token + 1;
        let mut slot = self.slots.remove(s);
        slot.entries.push(Entry { token, tx });
        self.slots.insert(s, slot);
        proof {
            let mo = old(self).model();
            let ms = subscribe_tr(mo, s as int);
            assert(self.model().slots[s as int].tokens =~= ms.slots[s as int].tokens);
            assert(self.model().slots =~= ms.slots);
            assert(self.model() == ms);
            lemma_subscribe_preserves_wf(mo, s as int);
        }
        token
    }

    /// Unregister the producer with token `token` from slot `s`: exactly
    /// that entry leaves, every other subscriber of the signal stays.  A
    /// token that is not registered, or an out-of-range identifier, changes
    /// nothing.
    pub fn unsubscribe(&mut self, s: usize, token: u64)
        requires
            old(self).wf(),
        ensures
            final (self).wf(),
            s < old(self).model().slots.len() ==> final (self).model() == unsubscribe_tr(
                old(self).model(),
                s as int,
                token,
            ),
            s >= old(self).model().slots.len() ==> final (self).model() == old(self).model(),
    {
        if s >= self.slots.len() {
            return;
        }
        let mut slot = self.slots.remove(s);
        let ghost mo = old(self).model();
        let ghost ts = mo.slots[s as int].tokens;
        let n = slot.entries.len();
        let mut idx: usize = n;
        let mut i: usize = 0;
        while i < n
            invariant
                i <= n,
                n == slot.entries@.len(),
                slot.entries@.map_values(|e: Entry| e.token) == ts,
                idx == n || (idx < i && ts[idx as int] == token),
                idx == n ==> forall|j: int| 0 <= j < i ==> ts[j] != token,
            decreases n - i,
        {
            if idx == n && slot.entries[i].token == token {
                idx = i;
            }
            i += 1;
        }
        if idx < n {
            slot.entries.remove(idx);
        }
        self.slots.insert(s, slot);
        proof {
            let mu = unsubscribe_tr(mo, s as int, token);
            if idx < n {
                assert(ts.contains(token));
                let p = ts.index_of(token);
                assert(0 <= p < ts.len() && ts[p] == token);
                assert(p == idx) by {
                    if p != idx {
                        assert(ts[p] == ts[idx as int]);
                    }
                }
                assert(self.model().slots[s as int].tokens =~= remove_token(ts, token));
            } else {
                assert(!ts.contains(token));
                assert(self.model().slots[s as int].tokens =~= remove_token(ts, token));
            }
            assert(self.model().slots =~= mu.slots);
            assert(self.model() == mu);
            lemma_unsubscribe_preserves_wf(mo, s as int, token);
        }
    }

    /// Fan one delivered occurrence of signal `s` out to every producer
    /// registered in its slot, each exactly once, in registration order, and
    /// report the chaining owed to the previously installed handler.  An
    /// out-of-range number notifies nobody and owes nothing, so a stray
    /// delivery is harmless.
    pub fn deliver(&self, s: usize) -> (r: Delivery)
        ensures
            r.notified@ == deliver_tokens(self.model(), s as int),
            in_range(self.model(), s as int) ==> r.chain == chain_of_status(
                self.model().slots[s as int].status,
            ),
            !in_range(self.model(), s as int) ==> r.chain == ChainDecision::NoChain,
    {
        if s >= self.slots.len() {
            return Delivery { chain: ChainDecision::NoChain, notified: Ghost(Seq::empty()) };
        }
        let n = self.slots[s].entries.len();
        let mut i: usize = 0;
        while i < n
            invariant
                i <= n,
                s < self.slots@.len(),
                n == self.slots@[s as int].entries@.len(),
            decreases n - i,
        {
            push_notification(&self.slots[s].entries[i].tx);
            i += 1;
        }
        let chain = match self.slots[s].status {
            SlotStatus::Active { prev } => chain_for(prev),
            SlotStatus::Uninstalled => ChainDecision::NoChain,
            SlotStatus::Failed => ChainDecision::NoChain,
        };
        Delivery { chain, notified: Ghost(self.model().slots[s as int].tokens) }
    }
}

/// The chaining a delivery owes given a slot's installation state: only an
/// active slot with a real previous handler is chained from.
pub open spec fn chain_of_status(st: SlotStatus) -> ChainDecision {
    match st {
        SlotStatus::Active { prev } => chain_of_prev(prev),
        SlotStatus::Uninstalled => ChainDecision::NoChain,
        SlotStatus::Failed => ChainDecision::NoChain,
    }
}

} // verus!
