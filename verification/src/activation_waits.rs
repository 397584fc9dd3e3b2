use vstd::prelude::*;
use crate::activation_wait_preflight::{
    pending_activation_wait_is, store_owned_activation_is, unqueued_running_activation_is,
};
use crate::base::{ActivationCleanupRecord, ActivationWaitRecord, RuntimeActivationRecord, WaitRecord};
use crate::cleanup_transaction::appended_labeled_event;
use crate::events::{appended_event, label_views, EventDomain, EventKind};
use crate::graph::{SemanticGraph, Table};
use crate::lookup2::pending_wait_is;
use crate::search::{find_first, first_match, lemma_first_match_facts};
use crate::types::{
    ActivationCleanupId, ActivationId, ActivationWaitId, ActivationWaitState, ContractObjectRef, Generation,
    RuntimeActivationState, SemanticWaitKind, StoreId, WaitCancelReason, WaitId, WaitRestartPolicy, WaitState,
};

verus! {

/// `new` is `old` after a running activation blocked on a new wait token: the token (generation
/// 1, pending, owned by the activation's task and store) and the activation wait (generation 1,
/// pending) are added, the activation is marked blocked, and the blocking is logged with the
/// note.
pub open spec fn blocked_activation_on_wait(
    old: SemanticGraph,
    new: SemanticGraph,
    activation_wait: ActivationWaitId,
    activation: ActivationId,
    activation_generation: Generation,
    wait: WaitId,
    kind: SemanticWaitKind,
    blockers: Vec<ContractObjectRef>,
    deadline: Option<u64>,
    restart_policy: WaitRestartPolicy,
    note: Seq<char>,
) -> bool {
    let k = first_match(old.runtime_activations@, unqueued_running_activation_is(activation, activation_generation))->0;
    let a = old.runtime_activations@[k];
    &&& new.agrees_except(&old, set![Table::EventLog, Table::Waits, Table::ActivationWaits, Table::RuntimeActivations])
    &&& new.waits@ == old.waits@.push(WaitRecord {
        id: wait,
        generation: 1,
        kind,
        blockers,
        owner_store: a.owner_store,
        owner_store_generation: a.owner_store_generation,
        owner_task: Some(a.owner_task),
        deadline,
        restart_policy,
        saved_context: None,
        state: WaitState::Pending,
        cancel_reason: None,
        errno: None,
    })
    &&& new.activation_waits@ == old.activation_waits@.push(ActivationWaitRecord {
        id: activation_wait,
        generation: 1,
        activation,
        activation_generation,
        wait,
        wait_generation: 1,
        state: ActivationWaitState::Pending,
    })
    &&& new.runtime_activations@ == old.runtime_activations@.update(k,
        RuntimeActivationRecord { state: RuntimeActivationState::Blocked, ..a })
    &&& appended_labeled_event(old, new, EventDomain::Scheduler, EventKind::ActivationBlockedOnWait {
        activation_wait,
        activation,
        activation_generation,
        wait,
        wait_generation: 1,
    }, seq![note])
}

/// `new` is `old` after a pending activation wait was cancelled: the activation wait is marked
/// cancelled, and its wait token of `wait_generation` is cancelled for `reason` with `errno` and
/// the cancellation logged.
pub open spec fn cancelled_activation_wait(
    old: SemanticGraph,
    new: SemanticGraph,
    activation_wait: ActivationWaitId,
    activation_wait_generation: Generation,
    wait_generation: Generation,
    errno: i32,
    reason: WaitCancelReason,
) -> bool {
    let i = first_match(old.activation_waits@, pending_activation_wait_is(activation_wait,
        activation_wait_generation, wait_generation))->0;
    let r = old.activation_waits@[i];
    let k = first_match(old.waits@, pending_wait_is(r.wait, wait_generation))->0;
    let w = old.waits@[k];
    &&& new.agrees_except(&old, set![Table::EventLog, Table::Waits, Table::ActivationWaits])
    &&& new.activation_waits@ == old.activation_waits@.update(i,
        ActivationWaitRecord { state: ActivationWaitState::Cancelled, ..r })
    &&& new.waits@ == old.waits@.update(k, WaitRecord {
        state: WaitState::Cancelled,
        cancel_reason: Some(reason),
        errno: Some(errno),
        ..w
    })
    &&& appended_event(old.event_log, new.event_log, EventDomain::Wait,
        EventKind::WaitCancelled { wait: w.id, generation: w.generation, errno, reason })
}

/// `new` is `old` after an activation of a faulted store was cleaned up: the cleanup is recorded
/// (with the wait it names), the activation is marked dead, and the cleanup is logged with its
/// reason and note.
pub open spec fn cleaned_up_activation_for_store_fault(
    old: SemanticGraph,
    new: SemanticGraph,
    cleanup: ActivationCleanupId,
    store: StoreId,
    store_generation: Generation,
    activation: ActivationId,
    activation_generation: Generation,
    wait: Option<WaitId>,
    wait_generation: Option<Generation>,
    reason: Seq<char>,
    note: Seq<char>,
) -> bool {
    let k = first_match(old.runtime_activations@, store_owned_activation_is(activation, activation_generation,
        store, store_generation))->0;
    let a = old.runtime_activations@[k];
    &&& new.agrees_except(&old, set![Table::EventLog, Table::ActivationCleanups, Table::RuntimeActivations])
    &&& new.activation_cleanups@ == old.activation_cleanups@.push(ActivationCleanupRecord {
        id: cleanup,
        store,
        store_generation,
        activation,
        activation_generation,
        wait,
        wait_generation,
    })
    &&& new.runtime_activations@ == old.runtime_activations@.update(k,
        RuntimeActivationRecord { state: RuntimeActivationState::Dead, ..a })
    &&& appended_labeled_event(old, new, EventDomain::Scheduler, EventKind::ActivationCleanedUpForStoreFault {
        cleanup,
        store,
        store_generation,
        activation,
        activation_generation,
    }, seq![reason, note])
}

impl SemanticGraph {
    /// Blocks a running activation on a new wait token when the graph accepts it; returns
    /// whether it did.
    pub fn block_activation_on_wait_with_id(
        &mut self,
        activation_wait: ActivationWaitId,
        activation: ActivationId,
        activation_generation: Generation,
        wait: WaitId,
        kind: SemanticWaitKind,
        blockers: Vec<ContractObjectRef>,
        deadline: Option<u64>,
        restart_policy: WaitRestartPolicy,
        note: &str,
    ) -> (ok: bool)
        requires
            old(self).event_log.next_event_id < u64::MAX,
        ensures
            ok == (old(self).block_activation_on_wait_verdict(activation_wait, activation, activation_generation,
                wait, blockers@, deadline) is Ok),
            !ok ==> *final(self) == *old(self),
            ok ==> blocked_activation_on_wait(*old(self), *final(self), activation_wait, activation,
                activation_generation, wait, kind, blockers, deadline, restart_policy, note@),
    {
        if self.check_block_activation_on_wait(activation_wait, activation, activation_generation, wait, &blockers,
            deadline).is_err() {
            return false;
        }
        let found = find_first(
            &self.runtime_activations,
            |a: &RuntimeActivationRecord| -> (b: bool)
                ensures b == unqueued_running_activation_is(activation, activation_generation)(*a)
            { a.id == activation && a.generation == activation_generation
                && a.state == RuntimeActivationState::Running && a.runnable_queue.is_none()
                && a.runnable_queue_generation.is_none() },
            Ghost(unqueued_running_activation_is(activation, activation_generation)),
        );
        let k = found.unwrap();
        let owner_task = self.runtime_activations[k].owner_task;
        let owner_store = self.runtime_activations[k].owner_store;
        let owner_store_generation = self.runtime_activations[k].owner_store_generation;
        self.waits.push(WaitRecord {
            id: wait,
            generation: 1,
            kind,
            blockers,
            owner_store,
            owner_store_generation,
            owner_task: Some(owner_task),
            deadline,
            restart_policy,
            saved_context: None,
            state: WaitState::Pending,
            cancel_reason: None,
            errno: None,
        });
        self.activation_waits.push(ActivationWaitRecord {
            id: activation_wait,
            generation: 1,
            activation,
            activation_generation,
            wait,
            wait_generation: 1,
            state: ActivationWaitState::Pending,
        });
        self.runtime_activations[k].state = RuntimeActivationState::Blocked;
        proof {
            let a = old(self).runtime_activations@[k as int];
            assert(self.runtime_activations@ =~= old(self).runtime_activations@.update(k as int,
                RuntimeActivationRecord { state: RuntimeActivationState::Blocked, ..a }));
        }
        let mut texts: Vec<String> = Vec::new();
        texts.push(note.to_owned());
        let ghost v = texts@;
        self.event_log.push_labeled(EventDomain::Scheduler, EventKind::ActivationBlockedOnWait {
            activation_wait,
            activation,
            activation_generation,
            wait,
            wait_generation: 1,
        }, texts);
        proof { assert(label_views(v) =~= seq![note@]); }
        true
    }

    /// Cancels a pending activation wait and its wait token when the graph accepts it; returns
    /// whether it did.
    pub fn cancel_activation_wait(
        &mut self,
        activation_wait: ActivationWaitId,
        activation_wait_generation: Generation,
        wait_generation: Generation,
        errno: i32,
        reason: WaitCancelReason,
    ) -> (ok: bool)
        requires
            old(self).event_log.next_event_id < u64::MAX,
        ensures
            ok == (old(self).cancel_activation_wait_verdict(activation_wait, activation_wait_generation,
                wait_generation) is Ok),
            !ok ==> *final(self) == *old(self),
            ok ==> cancelled_activation_wait(*old(self), *final(self), activation_wait, activation_wait_generation,
                wait_generation, errno, reason),
    {
        if self.check_cancel_activation_wait(activation_wait, activation_wait_generation, wait_generation).is_err() {
            return false;
        }
        let found = find_first(
            &self.activation_waits,
            |w: &ActivationWaitRecord| -> (b: bool)
                ensures b == pending_activation_wait_is(activation_wait, activation_wait_generation, wait_generation)(*w)
            { w.id == activation_wait && w.generation == activation_wait_generation
                && w.wait_generation == wait_generation && w.state == ActivationWaitState::Pending },
            Ghost(pending_activation_wait_is(activation_wait, activation_wait_generation, wait_generation)),
        );
        let i = found.unwrap();
        let token = self.activation_waits[i].wait;
        proof { lemma_first_match_facts(self.waits@, pending_wait_is(token, wait_generation)); }
        self.activation_waits[i].state = ActivationWaitState::Cancelled;
        proof {
            let r = old(self).activation_waits@[i as int];
            assert(self.activation_waits@ =~= old(self).activation_waits@.update(i as int,
                ActivationWaitRecord { state: ActivationWaitState::Cancelled, ..r }));
        }
        self.cancel_wait_token(token, wait_generation, errno, reason);
        true
    }

    /// Records the cleanup of an activation of a faulted store and marks the activation dead,
    /// when the graph accepts it; returns whether it did.
    pub fn cleanup_activation_for_store_fault_with_id(
        &mut self,
        cleanup: ActivationCleanupId,
        store: StoreId,
        store_generation: Generation,
        activation: ActivationId,
        activation_generation: Generation,
        wait: Option<WaitId>,
        wait_generation: Option<Generation>,
        reason: &str,
        note: &str,
    ) -> (ok: bool)
        requires
            old(self).event_log.next_event_id < u64::MAX,
        ensures
            ok == (old(self).activation_store_fault_cleanup_verdict(cleanup, store, store_generation, activation,
                activation_generation, wait, wait_generation, reason@) is Ok),
            !ok ==> *final(self) == *old(self),
            ok ==> cleaned_up_activation_for_store_fault(*old(self), *final(self), cleanup, store, store_generation,
                activation, activation_generation, wait, wait_generation, reason@, note@),
    {
        if self.check_activation_store_fault_cleanup(cleanup, store, store_generation, activation,
            activation_generation, wait, wait_generation, reason).is_err() {
            return false;
        }
        let found = find_first(
            &self.runtime_activations,
            |a: &RuntimeActivationRecord| -> (b: bool)
                ensures b == store_owned_activation_is(activation, activation_generation, store, store_generation)(*a)
            { a.id == activation && a.generation == activation_generation && a.owner_store == Some(store)
                && a.owner_store_generation == Some(store_generation)
                && a.state != RuntimeActivationState::Dead && a.state != RuntimeActivationState::Exited },
            Ghost(store_owned_activation_is(activation, activation_generation, store, store_generation)),
        );
        proof {
            lemma_first_match_facts(self.runtime_activations@, store_owned_activation_is(activation,
                activation_generation, store, store_generation));
        }
        let k = found.unwrap();
        self.activation_cleanups.push(ActivationCleanupRecord {
            id: cleanup,
            store,
            store_generation,
            activation,
            activation_generation,
            wait,
            wait_generation,
        });
        self.runtime_activations[k].state = RuntimeActivationState::Dead;
        proof {
            let a = old(self).runtime_activations@[k as int];
            assert(self.runtime_activations@ =~= old(self).runtime_activations@.update(k as int,
                RuntimeActivationRecord { state: RuntimeActivationState::Dead, ..a }));
        }
        let mut texts: Vec<String> = Vec::new();
        texts.push(reason.to_owned());
        texts.push(note.to_owned());
        let ghost v = texts@;
        self.event_log.push_labeled(EventDomain::Scheduler, EventKind::ActivationCleanedUpForStoreFault {
            cleanup,
            store,
            store_generation,
            activation,
            activation_generation,
        }, texts);
        proof { assert(label_views(v) =~= seq![reason@, note@]); }
        true
    }
}

} // verus!
