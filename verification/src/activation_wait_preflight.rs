use vstd::prelude::*;
use crate::activation_preflight::{live_store_is, owner_store_verdict};
use crate::base::{ActivationCleanupRecord, ActivationWaitRecord, RuntimeActivationRecord, StoreRecord, TaskRecord, WaitRecord};
use crate::graph::SemanticGraph;
use crate::lookup2::pending_wait_is;
use crate::search::{any_match, exists_match, find_first, first_match, lemma_first_match_facts};
use crate::types::{
    ActivationCleanupId, ActivationId, ActivationWaitId, ActivationWaitState, ContractObjectRef, Generation,
    RuntimeActivationState, StoreId, StoreState, TaskId, TaskState, WaitId, WaitState,
};

verus! {

/// An activation wait with this id (in any state).
pub open spec fn activation_wait_id_is(id: ActivationWaitId) -> spec_fn(ActivationWaitRecord) -> bool {
    |w: ActivationWaitRecord| w.id == id
}

/// A wait token with this id (of any generation or state).
pub open spec fn wait_id_is(id: WaitId) -> spec_fn(WaitRecord) -> bool {
    |w: WaitRecord| w.id == id
}

/// A running activation of this id and generation that sits on no runnable queue.
pub open spec fn unqueued_running_activation_is(id: ActivationId, generation: Generation) -> spec_fn(RuntimeActivationRecord) -> bool {
    |a: RuntimeActivationRecord| a.id == id && a.generation == generation && a.state == RuntimeActivationState::Running
        && a.runnable_queue is None && a.runnable_queue_generation is None
}

/// A task of this id and generation that is runnable or running.
pub open spec fn schedulable_task_is(id: TaskId, generation: Generation) -> spec_fn(TaskRecord) -> bool {
    |t: TaskRecord| t.id == id && t.generation == generation
        && (t.state == TaskState::Runnable || t.state == TaskState::Running)
}

/// A pending activation wait of this id and generation on a wait token of `wait_generation`.
pub open spec fn pending_activation_wait_is(id: ActivationWaitId, generation: Generation, wait_generation: Generation) -> spec_fn(ActivationWaitRecord) -> bool {
    |w: ActivationWaitRecord| w.id == id && w.generation == generation && w.wait_generation == wait_generation
        && w.state == ActivationWaitState::Pending
}

/// An activation cleanup with this id.
pub open spec fn activation_cleanup_id_is(id: ActivationCleanupId) -> spec_fn(ActivationCleanupRecord) -> bool {
    |c: ActivationCleanupRecord| c.id == id
}

/// An activation of this id and generation owned by this store generation that has neither
/// exited nor died.
pub open spec fn store_owned_activation_is(
    id: ActivationId,
    generation: Generation,
    store: StoreId,
    store_generation: Generation,
) -> spec_fn(RuntimeActivationRecord) -> bool {
    |a: RuntimeActivationRecord| a.id == id && a.generation == generation && a.owner_store == Some(store)
        && a.owner_store_generation == Some(store_generation)
        && a.state != RuntimeActivationState::Dead && a.state != RuntimeActivationState::Exited
}

/// A pending wait token of this id and generation owned by this store generation.
pub open spec fn store_owned_pending_wait_is(
    id: WaitId,
    generation: Generation,
    store: StoreId,
    store_generation: Generation,
) -> spec_fn(WaitRecord) -> bool {
    |w: WaitRecord| w.id == id && w.generation == generation && w.state == WaitState::Pending
        && w.owner_store == Some(store) && w.owner_store_generation == Some(store_generation)
}

impl SemanticGraph {
    /// Whether a running activation generation may block on a new wait token: both ids are
    /// nonzero and unused, there is a blocker or a deadline, the activation is on no runnable
    /// queue, its task is runnable or running, and its owner store (if any) lives.
    pub open spec fn block_activation_on_wait_verdict(
        &self,
        activation_wait: ActivationWaitId,
        activation: ActivationId,
        activation_generation: Generation,
        wait: WaitId,
        blockers: Seq<ContractObjectRef>,
        deadline: Option<u64>,
    ) -> Result<(), &'static str> {
        if activation_wait == 0 {
            Err("activation wait id=0 is invalid")
        } else if wait == 0 {
            Err("wait id=0 is invalid")
        } else if blockers.len() == 0 && deadline is None {
            Err("activation wait requires blocker or deadline")
        } else if any_match(self.activation_waits@, activation_wait_id_is(activation_wait)) {
            Err("activation wait already exists")
        } else if any_match(self.waits@, wait_id_is(wait)) {
            Err("wait already exists")
        } else {
            match first_match(self.runtime_activations@, unqueued_running_activation_is(activation, activation_generation)) {
                None => Err("activation wait target generation is not running"),
                Some(k) => {
                    let a = self.runtime_activations@[k];
                    if !any_match(self.tasks@, schedulable_task_is(a.owner_task, a.owner_task_generation)) {
                        Err("activation wait owner task generation is missing or not runnable")
                    } else {
                        owner_store_verdict(self.stores@, a.owner_store, a.owner_store_generation,
                            "activation wait owner store generation is required",
                            "activation wait owner store generation is missing or dead")
                    }
                },
            }
        }
    }

    /// Whether a pending activation wait generation may be cancelled: its wait token of that
    /// generation is pending too.
    pub open spec fn cancel_activation_wait_verdict(
        &self,
        activation_wait: ActivationWaitId,
        activation_wait_generation: Generation,
        wait_generation: Generation,
    ) -> Result<(), &'static str> {
        match first_match(self.activation_waits@, pending_activation_wait_is(activation_wait,
            activation_wait_generation, wait_generation)) {
            None => Err("activation wait generation is missing or not pending"),
            Some(i) => if any_match(self.waits@, pending_wait_is(self.activation_waits@[i].wait, wait_generation)) {
                Ok(())
            } else {
                Err("activation wait token generation is missing or not pending")
            },
        }
    }

    /// Whether an activation of a faulted store may be cleaned up: the cleanup id is nonzero and
    /// unused, a reason is given, the store generation lives and owns the activation, and a
    /// named wait is a pending token of that store, named with its generation.
    pub open spec fn activation_store_fault_cleanup_verdict(
        &self,
        cleanup: ActivationCleanupId,
        store: StoreId,
        store_generation: Generation,
        activation: ActivationId,
        activation_generation: Generation,
        wait: Option<WaitId>,
        wait_generation: Option<Generation>,
        reason: Seq<char>,
    ) -> Result<(), &'static str> {
        if cleanup == 0 {
            Err("activation cleanup id=0 is invalid")
        } else if reason.len() == 0 {
            Err("activation cleanup reason is empty")
        } else if any_match(self.activation_cleanups@, activation_cleanup_id_is(cleanup)) {
            Err("activation cleanup already exists")
        } else if !any_match(self.stores@, live_store_is(store, store_generation)) {
            Err("cleanup target store generation is missing or dead")
        } else if !any_match(self.runtime_activations@, store_owned_activation_is(activation, activation_generation,
            store, store_generation)) {
            Err("cleanup target activation generation is missing or not store-owned")
        } else {
            match (wait, wait_generation) {
                (Some(w), Some(g)) => if any_match(self.waits@, store_owned_pending_wait_is(w, g, store, store_generation)) {
                    Ok(())
                } else {
                    Err("cleanup wait generation is missing or not pending")
                },
                (None, None) => Ok(()),
                _ => Err("cleanup wait and wait generation must be paired"),
            }
        }
    }

    pub(crate) fn check_block_activation_on_wait(
        &self,
        activation_wait: ActivationWaitId,
        activation: ActivationId,
        activation_generation: Generation,
        wait: WaitId,
        blockers: &Vec<ContractObjectRef>,
        deadline: Option<u64>,
    ) -> (r: Result<(), &'static str>)
        ensures
            r == self.block_activation_on_wait_verdict(activation_wait, activation, activation_generation, wait,
                blockers@, deadline),
    {
        if activation_wait == 0 {
            return Err("activation wait id=0 is invalid");
        }
        if wait == 0 {
            return Err("wait id=0 is invalid");
        }
        if blockers.len() == 0 && deadline.is_none() {
            return Err("activation wait requires blocker or deadline");
        }
        if exists_match(
            &self.activation_waits,
            |w: &ActivationWaitRecord| -> (b: bool)
                ensures b == activation_wait_id_is(activation_wait)(*w)
            { w.id == activation_wait },
            Ghost(activation_wait_id_is(activation_wait)),
        ) {
            return Err("activation wait already exists");
        }
        if exists_match(
            &self.waits,
            |w: &WaitRecord| -> (b: bool)
                ensures b == wait_id_is(wait)(*w)
            { w.id == wait },
            Ghost(wait_id_is(wait)),
        ) {
            return Err("wait already exists");
        }
        let Some(k) = find_first(
            &self.runtime_activations,
            |a: &RuntimeActivationRecord| -> (b: bool)
                ensures b == unqueued_running_activation_is(activation, activation_generation)(*a)
            { a.id == activation && a.generation == activation_generation
                && a.state == RuntimeActivationState::Running && a.runnable_queue.is_none()
                && a.runnable_queue_generation.is_none() },
            Ghost(unqueued_running_activation_is(activation, activation_generation)),
        ) else {
            return Err("activation wait target generation is not running");
        };
        let a = &self.runtime_activations[k];
        let (task, task_generation) = (a.owner_task, a.owner_task_generation);
        if !exists_match(
            &self.tasks,
            |t: &TaskRecord| -> (b: bool)
                ensures b == schedulable_task_is(task, task_generation)(*t)
            { t.id == task && t.generation == task_generation
                && (t.state == TaskState::Runnable || t.state == TaskState::Running) },
            Ghost(schedulable_task_is(task, task_generation)),
        ) {
            return Err("activation wait owner task generation is missing or not runnable");
        }
        match a.owner_store {
            None => Ok(()),
            Some(store) => match a.owner_store_generation {
                None => Err("activation wait owner store generation is required"),
                Some(generation) => if self.has_live_store(store, generation) {
                    Ok(())
                } else {
                    Err("activation wait owner store generation is missing or dead")
                },
            },
        }
    }

    fn has_live_store(&self, store: StoreId, generation: Generation) -> (b: bool)
        ensures
            b == any_match(self.stores@, live_store_is(store, generation)),
    {
        exists_match(
            &self.stores,
            |s: &StoreRecord| -> (b: bool)
                ensures b == live_store_is(store, generation)(*s)
            { s.id == store && s.generation == generation && s.state != StoreState::Dead },
            Ghost(live_store_is(store, generation)),
        )
    }

    pub(crate) fn check_cancel_activation_wait(
        &self,
        activation_wait: ActivationWaitId,
        activation_wait_generation: Generation,
        wait_generation: Generation,
    ) -> (r: Result<(), &'static str>)
        ensures
            r == self.cancel_activation_wait_verdict(activation_wait, activation_wait_generation, wait_generation),
    {
        let Some(i) = find_first(
            &self.activation_waits,
            |w: &ActivationWaitRecord| -> (b: bool)
                ensures b == pending_activation_wait_is(activation_wait, activation_wait_generation, wait_generation)(*w)
            { w.id == activation_wait && w.generation == activation_wait_generation
                && w.wait_generation == wait_generation && w.state == ActivationWaitState::Pending },
            Ghost(pending_activation_wait_is(activation_wait, activation_wait_generation, wait_generation)),
        ) else {
            return Err("activation wait generation is missing or not pending");
        };
        let token = self.activation_waits[i].wait;
        if exists_match(
            &self.waits,
            |w: &WaitRecord| -> (b: bool)
                ensures b == pending_wait_is(token, wait_generation)(*w)
            { w.id == token && w.generation == wait_generation && w.state == WaitState::Pending },
            Ghost(pending_wait_is(token, wait_generation)),
        ) {
            Ok(())
        } else {
            Err("activation wait token generation is missing or not pending")
        }
    }

    pub(crate) fn check_activation_store_fault_cleanup(
        &self,
        cleanup: ActivationCleanupId,
        store: StoreId,
        store_generation: Generation,
        activation: ActivationId,
        activation_generation: Generation,
        wait: Option<WaitId>,
        wait_generation: Option<Generation>,
        reason: &str,
    ) -> (r: Result<(), &'static str>)
        ensures
            r == self.activation_store_fault_cleanup_verdict(cleanup, store, store_generation, activation,
                activation_generation, wait, wait_generation, reason@),
    {
        if cleanup == 0 {
            return Err("activation cleanup id=0 is invalid");
        }
        if reason.unicode_len() == 0 {
            return Err("activation cleanup reason is empty");
        }
        if exists_match(
            &self.activation_cleanups,
            |c: &ActivationCleanupRecord| -> (b: bool)
                ensures b == activation_cleanup_id_is(cleanup)(*c)
            { c.id == cleanup },
            Ghost(activation_cleanup_id_is(cleanup)),
        ) {
            return Err("activation cleanup already exists");
        }
        if !self.has_live_store(store, store_generation) {
            return Err("cleanup target store generation is missing or dead");
        }
        if !exists_match(
            &self.runtime_activations,
            |a: &RuntimeActivationRecord| -> (b: bool)
                ensures b == store_owned_activation_is(activation, activation_generation, store, store_generation)(*a)
            { a.id == activation && a.generation == activation_generation && a.owner_store == Some(store)
                && a.owner_store_generation == Some(store_generation)
                && a.state != RuntimeActivationState::Dead && a.state != RuntimeActivationState::Exited },
            Ghost(store_owned_activation_is(activation, activation_generation, store, store_generation)),
        ) {
            return Err("cleanup target activation generation is missing or not store-owned");
        }
        match (wait, wait_generation) {
            (Some(w), Some(g)) => if exists_match(
                &self.waits,
                |x: &WaitRecord| -> (b: bool)
                    ensures b == store_owned_pending_wait_is(w, g, store, store_generation)(*x)
                { x.id == w && x.generation == g && x.state == WaitState::Pending && x.owner_store == Some(store)
                    && x.owner_store_generation == Some(store_generation) },
                Ghost(store_owned_pending_wait_is(w, g, store, store_generation)),
            ) {
                Ok(())
            } else {
                Err("cleanup wait generation is missing or not pending")
            },
            (None, None) => Ok(()),
            _ => Err("cleanup wait and wait generation must be paired"),
        }
    }
}

/// When blocking an activation on a new wait is accepted, both ids are new and nonzero, there is a
/// blocker or a deadline, and the activation generation is running on no queue, with an owner task
/// generation that is runnable or running.
pub proof fn lemma_accepted_block_is_of_a_running_activation(
    g: SemanticGraph,
    activation_wait: ActivationWaitId,
    activation: ActivationId,
    activation_generation: Generation,
    wait: WaitId,
    blockers: Seq<ContractObjectRef>,
    deadline: Option<u64>,
)
    requires
        g.block_activation_on_wait_verdict(activation_wait, activation, activation_generation, wait, blockers,
            deadline) is Ok,
    ensures
        activation_wait != 0 && wait != 0,
        blockers.len() > 0 || deadline is Some,
        forall|i: int| 0 <= i < g.activation_waits@.len() ==> (#[trigger] g.activation_waits@[i]).id != activation_wait,
        forall|i: int| 0 <= i < g.waits@.len() ==> (#[trigger] g.waits@[i]).id != wait,
        exists|k: int, t: int| #![trigger g.runtime_activations@[k], g.tasks@[t]]
            0 <= k < g.runtime_activations@.len() && 0 <= t < g.tasks@.len() && {
            let a = g.runtime_activations@[k];
            let task = g.tasks@[t];
            &&& a.id == activation && a.generation == activation_generation
            &&& a.state == RuntimeActivationState::Running && a.runnable_queue is None
            &&& task.id == a.owner_task && task.generation == a.owner_task_generation
            &&& (task.state == TaskState::Runnable || task.state == TaskState::Running)
        },
{
    assert forall|i: int| 0 <= i < g.activation_waits@.len() implies (#[trigger] g.activation_waits@[i]).id != activation_wait by {
        if g.activation_waits@[i].id == activation_wait {
            assert(activation_wait_id_is(activation_wait)(g.activation_waits@[i]));
        }
    }
    assert forall|i: int| 0 <= i < g.waits@.len() implies (#[trigger] g.waits@[i]).id != wait by {
        if g.waits@[i].id == wait {
            assert(wait_id_is(wait)(g.waits@[i]));
        }
    }
    lemma_first_match_facts(g.runtime_activations@, unqueued_running_activation_is(activation, activation_generation));
    let k = first_match(g.runtime_activations@, unqueued_running_activation_is(activation, activation_generation))->0;
    let a = g.runtime_activations@[k];
    assert(unqueued_running_activation_is(activation, activation_generation)(a));
    let t = choose|t: int| 0 <= t < g.tasks@.len() && schedulable_task_is(a.owner_task, a.owner_task_generation)(#[trigger] g.tasks@[t]);
    assert(schedulable_task_is(a.owner_task, a.owner_task_generation)(g.tasks@[t]));
}

/// When cancelling an activation wait is accepted, the activation wait generation is pending on a
/// token of the named generation, and that token is pending.
pub proof fn lemma_accepted_activation_wait_cancellation_is_pending(
    g: SemanticGraph,
    activation_wait: ActivationWaitId,
    activation_wait_generation: Generation,
    wait_generation: Generation,
)
    requires
        g.cancel_activation_wait_verdict(activation_wait, activation_wait_generation, wait_generation) is Ok,
    ensures
        exists|i: int, k: int| #![trigger g.activation_waits@[i], g.waits@[k]]
            0 <= i < g.activation_waits@.len() && 0 <= k < g.waits@.len() && {
            let r = g.activation_waits@[i];
            let w = g.waits@[k];
            &&& r.id == activation_wait && r.generation == activation_wait_generation
            &&& r.wait_generation == wait_generation && r.state == ActivationWaitState::Pending
            &&& w.id == r.wait && w.generation == wait_generation && w.state == WaitState::Pending
        },
{
    lemma_first_match_facts(g.activation_waits@, pending_activation_wait_is(activation_wait, activation_wait_generation,
        wait_generation));
    let i = first_match(g.activation_waits@, pending_activation_wait_is(activation_wait, activation_wait_generation,
        wait_generation))->0;
    let r = g.activation_waits@[i];
    assert(pending_activation_wait_is(activation_wait, activation_wait_generation, wait_generation)(r));
    let k = choose|k: int| 0 <= k < g.waits@.len() && pending_wait_is(r.wait, wait_generation)(#[trigger] g.waits@[k]);
    assert(pending_wait_is(r.wait, wait_generation)(g.waits@[k]));
}

/// When cleaning up an activation after a store fault is accepted, the cleanup id is new and
/// nonzero, a reason is given, the store generation exists and is not dead, the activation
/// generation is owned by that store generation and has neither exited nor died, and a named wait
/// comes with its generation and is a pending token owned by that store generation.
pub proof fn lemma_accepted_store_fault_cleanup_is_store_owned(
    g: SemanticGraph,
    cleanup: ActivationCleanupId,
    store: StoreId,
    store_generation: Generation,
    activation: ActivationId,
    activation_generation: Generation,
    wait: Option<WaitId>,
    wait_generation: Option<Generation>,
    reason: Seq<char>,
)
    requires
        g.activation_store_fault_cleanup_verdict(cleanup, store, store_generation, activation, activation_generation,
            wait, wait_generation, reason) is Ok,
    ensures
        cleanup != 0 && reason.len() > 0,
        forall|i: int| 0 <= i < g.activation_cleanups@.len() ==> (#[trigger] g.activation_cleanups@[i]).id != cleanup,
        exists|s: int| 0 <= s < g.stores@.len() && (#[trigger] g.stores@[s]).id == store
            && g.stores@[s].generation == store_generation && g.stores@[s].state != StoreState::Dead,
        exists|k: int| 0 <= k < g.runtime_activations@.len() && {
            let a = #[trigger] g.runtime_activations@[k];
            &&& a.id == activation && a.generation == activation_generation
            &&& a.owner_store == Some(store) && a.owner_store_generation == Some(store_generation)
            &&& a.state != RuntimeActivationState::Dead && a.state != RuntimeActivationState::Exited
        },
        wait is Some <==> wait_generation is Some,
        wait is Some ==> exists|k: int| 0 <= k < g.waits@.len() && {
            let w = #[trigger] g.waits@[k];
            &&& w.id == wait->Some_0 && w.generation == wait_generation->Some_0 && w.state == WaitState::Pending
            &&& w.owner_store == Some(store) && w.owner_store_generation == Some(store_generation)
        },
{
    assert forall|i: int| 0 <= i < g.activation_cleanups@.len() implies (#[trigger] g.activation_cleanups@[i]).id != cleanup by {
        if g.activation_cleanups@[i].id == cleanup {
            assert(activation_cleanup_id_is(cleanup)(g.activation_cleanups@[i]));
        }
    }
    let s = choose|s: int| 0 <= s < g.stores@.len() && live_store_is(store, store_generation)(#[trigger] g.stores@[s]);
    assert(live_store_is(store, store_generation)(g.stores@[s]));
    let k = choose|k: int| 0 <= k < g.runtime_activations@.len()
        && store_owned_activation_is(activation, activation_generation, store, store_generation)(#[trigger] g.runtime_activations@[k]);
    assert(store_owned_activation_is(activation, activation_generation, store, store_generation)(g.runtime_activations@[k]));
    if wait is Some {
        let w = wait->Some_0;
        let wg = wait_generation->Some_0;
        let j = choose|j: int| 0 <= j < g.waits@.len()
            && store_owned_pending_wait_is(w, wg, store, store_generation)(#[trigger] g.waits@[j]);
        assert(store_owned_pending_wait_is(w, wg, store, store_generation)(g.waits@[j]));
    }
}

} // verus!
