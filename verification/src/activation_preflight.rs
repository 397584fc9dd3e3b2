use vstd::prelude::*;
use crate::base::{
    HartRecord, RunnableQueueEntry, RunnableQueueRecord, RuntimeActivationRecord, SchedulerDecisionRecord,
    StoreRecord, TaskRecord,
};
use crate::cross_scheduler::{active_runnable_queue_is, hart_is};
use crate::graph::SemanticGraph;
use crate::scheduler_preflight::{entry_for_activation, runnable_queue_with_id};
use crate::search::{any_match, exists_match, find_first, first_match, lemma_first_match_facts};
use crate::types::{
    ActivationId, ContractObjectKind, ContractObjectRef, Generation, HartId, HartState, RunnableQueueId,
    RunnableQueueState, RuntimeActivationState, SchedulerDecisionId, StoreId, StoreState, TaskId, TaskState,
};

verus! {

/// A task of this id and generation.
pub open spec fn task_is(id: TaskId, generation: Generation) -> spec_fn(TaskRecord) -> bool {
    |t: TaskRecord| t.id == id && t.generation == generation
}

/// A store of this id and generation that is not dead.
pub open spec fn live_store_is(id: StoreId, generation: Generation) -> spec_fn(StoreRecord) -> bool {
    |s: StoreRecord| s.id == id && s.generation == generation && s.state != StoreState::Dead
}

/// A runtime activation with this id (of any generation).
pub open spec fn activation_id_is(id: ActivationId) -> spec_fn(RuntimeActivationRecord) -> bool {
    |a: RuntimeActivationRecord| a.id == id
}

/// A running runtime activation of this id and generation.
pub open spec fn running_activation_is(id: ActivationId, generation: Generation) -> spec_fn(RuntimeActivationRecord) -> bool {
    |a: RuntimeActivationRecord| a.id == id && a.generation == generation && a.state == RuntimeActivationState::Running
}

/// A runnable runtime activation of this id and generation queued on this queue generation.
pub open spec fn runnable_activation_in(
    id: ActivationId,
    generation: Generation,
    queue: RunnableQueueId,
    queue_generation: Generation,
) -> spec_fn(RuntimeActivationRecord) -> bool {
    |a: RuntimeActivationRecord| a.id == id && a.generation == generation
        && a.state == RuntimeActivationState::Runnable && a.runnable_queue == Some(queue)
        && a.runnable_queue_generation == Some(queue_generation)
}

/// A hart other than `hart` whose current activation is this activation generation.
pub open spec fn current_elsewhere(hart: HartId, activation: ActivationId, generation: Generation) -> spec_fn(HartRecord) -> bool {
    |h: HartRecord| h.id != hart && h.current_activation == Some(activation)
        && h.current_activation_generation == Some(generation)
}

/// A queue entry for this activation generation.
pub open spec fn entry_is(activation: ActivationId, generation: Generation) -> spec_fn(RunnableQueueEntry) -> bool {
    |e: RunnableQueueEntry| e.activation == activation && e.activation_generation == generation
}

/// A scheduler decision with this id (of any generation).
pub open spec fn scheduler_decision_id_is(id: SchedulerDecisionId) -> spec_fn(SchedulerDecisionRecord) -> bool {
    |d: SchedulerDecisionRecord| d.id == id
}

/// Some runnable queue holds an entry for `activation`.
pub open spec fn queued_anywhere(queues: Seq<RunnableQueueRecord>, activation: ActivationId) -> bool {
    exists|i: int| 0 <= i < queues.len() && any_match((#[trigger] queues[i]).entries@, entry_for_activation(activation))
}

/// What an owner store of an activation must be: absent, or named with a generation of a
/// live store. `missing` and `required` are the refusals for a missing or dead store and for a
/// store named without a generation.
pub open spec fn owner_store_verdict(
    stores: Seq<StoreRecord>,
    owner_store: Option<StoreId>,
    owner_store_generation: Option<Generation>,
    required: &'static str,
    missing: &'static str,
) -> Result<(), &'static str> {
    match owner_store {
        None => Ok(()),
        Some(store) => match owner_store_generation {
            None => Err(required),
            Some(generation) => if any_match(stores, live_store_is(store, generation)) { Ok(()) } else { Err(missing) },
        },
    }
}

impl SemanticGraph {
    /// Whether a runtime activation may be created for an owner task generation, optionally
    /// owned by a live store generation and naming its code object.
    pub open spec fn create_runtime_activation_verdict(
        &self,
        activation: ActivationId,
        owner_task: TaskId,
        owner_task_generation: Generation,
        owner_store: Option<StoreId>,
        owner_store_generation: Option<Generation>,
        code_object: Option<ContractObjectRef>,
    ) -> Result<(), &'static str> {
        if activation == 0 {
            Err("activation id=0 is invalid")
        } else if any_match(self.runtime_activations@, activation_id_is(activation)) {
            Err("activation already exists")
        } else if !any_match(self.tasks@, task_is(owner_task, owner_task_generation)) {
            Err("activation owner task generation is missing")
        } else if code_object matches Some(c) && c.kind != ContractObjectKind::CodeObject {
            Err("activation code reference must be a code object")
        } else {
            owner_store_verdict(self.stores@, owner_store, owner_store_generation,
                "activation owner store generation is required",
                "activation owner store generation is missing or dead")
        }
    }

    /// Whether an activation generation may join a runnable queue: the first queue with that id
    /// is active, no queue holds the activation yet, the activation is created or blocked and on
    /// no queue, its owner task exists and is not pending, and its owner store (if any) lives.
    pub open spec fn enqueue_runnable_verdict(
        &self,
        queue: RunnableQueueId,
        activation: ActivationId,
        activation_generation: Generation,
    ) -> Result<(), &'static str> {
        match first_match(self.runnable_queues@, runnable_queue_with_id(queue)) {
            None => Err("runnable queue is missing"),
            Some(i) => if self.runnable_queues@[i].state != RunnableQueueState::Active {
                Err("runnable queue is not active")
            } else if queued_anywhere(self.runnable_queues@, activation) {
                Err("activation already queued")
            } else {
                match first_match(self.runtime_activations@, activation_id_is(activation)) {
                    None => Err("activation is missing"),
                    Some(k) => {
                        let a = self.runtime_activations@[k];
                        if a.generation != activation_generation {
                            Err("activation generation mismatch")
                        } else if a.state != RuntimeActivationState::Created && a.state != RuntimeActivationState::Blocked {
                            Err("activation is not enqueueable")
                        } else if a.runnable_queue is Some {
                            Err("activation already queued")
                        } else {
                            match first_match(self.tasks@, task_is(a.owner_task, a.owner_task_generation)) {
                                None => Err("activation owner task generation is missing"),
                                Some(t) => if self.tasks@[t].state == TaskState::Pending {
                                    Err("pending wait task cannot be enqueued")
                                } else {
                                    owner_store_verdict(self.stores@, a.owner_store, a.owner_store_generation,
                                        "activation owner store generation is required",
                                        "dead or missing store activation cannot be enqueued")
                                },
                            }
                        }
                    },
                }
            },
        }
    }

    /// Whether a running activation generation may become the current activation of an idle
    /// hart generation that has none, when no other hart runs it and its owners exist.
    pub open spec fn bind_hart_current_activation_verdict(
        &self,
        hart: HartId,
        hart_generation: Generation,
        activation: ActivationId,
        activation_generation: Generation,
    ) -> Result<(), &'static str> {
        match first_match(self.harts@, hart_is(hart, hart_generation)) {
            None => Err("hart generation is missing"),
            Some(i) => {
                let h = self.harts@[i];
                if h.state != HartState::Idle {
                    Err("hart is not idle")
                } else if h.current_activation is Some {
                    Err("hart already has current activation")
                } else if any_match(self.harts@, current_elsewhere(hart, activation, activation_generation)) {
                    Err("activation is already current on another hart")
                } else {
                    match first_match(self.runtime_activations@, running_activation_is(activation, activation_generation)) {
                        None => Err("current activation generation is missing or not running"),
                        Some(k) => {
                            let a = self.runtime_activations@[k];
                            if !any_match(self.tasks@, task_is(a.owner_task, a.owner_task_generation)) {
                                Err("current activation owner task generation is missing")
                            } else {
                                owner_store_verdict(self.stores@, a.owner_store, a.owner_store_generation,
                                    "current activation owner store generation is required",
                                    "current activation owner store generation is missing or dead")
                            }
                        },
                    }
                }
            },
        }
    }

    /// Whether a scheduler decision may select an activation generation from an active runnable
    /// queue generation: the decision id is new and nonzero, a reason is given, the queue holds
    /// the activation, which is runnable on that queue and whose owner task exists.
    pub open spec fn scheduler_decision_verdict(
        &self,
        decision: SchedulerDecisionId,
        queue: RunnableQueueId,
        queue_generation: Generation,
        selected_activation: ActivationId,
        selected_activation_generation: Generation,
        reason: Seq<char>,
    ) -> Result<(), &'static str> {
        if decision == 0 {
            Err("scheduler decision id=0 is invalid")
        } else if reason.len() == 0 {
            Err("scheduler decision reason is empty")
        } else if any_match(self.scheduler_decisions@, scheduler_decision_id_is(decision)) {
            Err("scheduler decision already exists")
        } else {
            match first_match(self.runnable_queues@, active_runnable_queue_is(queue, queue_generation)) {
                None => Err("scheduler decision queue generation is missing or inactive"),
                Some(i) => if !any_match(self.runnable_queues@[i].entries@,
                    entry_is(selected_activation, selected_activation_generation)) {
                    Err("scheduler decision activation is not queued")
                } else {
                    match first_match(self.runtime_activations@, runnable_activation_in(selected_activation,
                        selected_activation_generation, queue, queue_generation)) {
                        None => Err("scheduler decision activation generation is not runnable"),
                        Some(k) => {
                            let a = self.runtime_activations@[k];
                            if any_match(self.tasks@, task_is(a.owner_task, a.owner_task_generation)) {
                                Ok(())
                            } else {
                                Err("scheduler decision owner task generation is missing")
                            }
                        },
                    }
                },
            }
        }
    }

    fn has_task(&self, id: TaskId, generation: Generation) -> (b: bool)
        ensures
            b == any_match(self.tasks@, task_is(id, generation)),
    {
        exists_match(
            &self.tasks,
            |t: &TaskRecord| -> (b: bool)
                ensures b == task_is(id, generation)(*t)
            { t.id == id && t.generation == generation },
            Ghost(task_is(id, generation)),
        )
    }

    fn check_owner_store(
        &self,
        owner_store: Option<StoreId>,
        owner_store_generation: Option<Generation>,
        required: &'static str,
        missing: &'static str,
    ) -> (r: Result<(), &'static str>)
        ensures
            r == owner_store_verdict(self.stores@, owner_store, owner_store_generation, required, missing),
    {
        match owner_store {
            None => Ok(()),
            Some(store) => match owner_store_generation {
                None => Err(required),
                Some(generation) => if exists_match(
                    &self.stores,
                    |s: &StoreRecord| -> (b: bool)
                        ensures b == live_store_is(store, generation)(*s)
                    { s.id == store && s.generation == generation && s.state != StoreState::Dead },
                    Ghost(live_store_is(store, generation)),
                ) {
                    Ok(())
                } else {
                    Err(missing)
                },
            },
        }
    }

    pub(crate) fn queued_in_any_runnable_queue(&self, activation: ActivationId) -> (b: bool)
        ensures
            b == queued_anywhere(self.runnable_queues@, activation),
    {
        let mut i: usize = 0;
        while i < self.runnable_queues.len()
            invariant
                i <= self.runnable_queues@.len(),
                forall|j: int| 0 <= j < i ==> !any_match((#[trigger] self.runnable_queues@[j]).entries@,
                    entry_for_activation(activation)),
            decreases self.runnable_queues@.len() - i,
        {
            if exists_match(
                &self.runnable_queues[i].entries,
                |e: &RunnableQueueEntry| -> (b: bool)
                    ensures b == entry_for_activation(activation)(*e)
                { e.activation == activation },
                Ghost(entry_for_activation(activation)),
            ) {
                proof { assert(any_match(self.runnable_queues@[i as int].entries@, entry_for_activation(activation))); }
                return true;
            }
            i += 1;
        }
        false
    }

    pub(crate) fn check_create_runtime_activation(
        &self,
        activation: ActivationId,
        owner_task: TaskId,
        owner_task_generation: Generation,
        owner_store: Option<StoreId>,
        owner_store_generation: Option<Generation>,
        code_object: Option<ContractObjectRef>,
    ) -> (r: Result<(), &'static str>)
        ensures
            r == self.create_runtime_activation_verdict(activation, owner_task, owner_task_generation, owner_store,
                owner_store_generation, code_object),
    {
        if activation == 0 {
            return Err("activation id=0 is invalid");
        }
        if exists_match(
            &self.runtime_activations,
            |a: &RuntimeActivationRecord| -> (b: bool)
                ensures b == activation_id_is(activation)(*a)
            { a.id == activation },
            Ghost(activation_id_is(activation)),
        ) {
            return Err("activation already exists");
        }
        if !self.has_task(owner_task, owner_task_generation) {
            return Err("activation owner task generation is missing");
        }
        if let Some(c) = code_object {
            if c.kind != ContractObjectKind::CodeObject {
                return Err("activation code reference must be a code object");
            }
        }
        self.check_owner_store(owner_store, owner_store_generation,
            "activation owner store generation is required",
            "activation owner store generation is missing or dead")
    }

    pub(crate) fn check_enqueue_runnable(
        &self,
        queue: RunnableQueueId,
        activation: ActivationId,
        activation_generation: Generation,
    ) -> (r: Result<(), &'static str>)
        ensures
            r == self.enqueue_runnable_verdict(queue, activation, activation_generation),
    {
        let Some(i) = find_first(
            &self.runnable_queues,
            |x: &RunnableQueueRecord| -> (b: bool)
                ensures b == runnable_queue_with_id(queue)(*x)
            { x.id == queue },
            Ghost(runnable_queue_with_id(queue)),
        ) else {
            return Err("runnable queue is missing");
        };
        if self.runnable_queues[i].state != RunnableQueueState::Active {
            return Err("runnable queue is not active");
        }
        if self.queued_in_any_runnable_queue(activation) {
            return Err("activation already queued");
        }
        let Some(k) = find_first(
            &self.runtime_activations,
            |a: &RuntimeActivationRecord| -> (b: bool)
                ensures b == activation_id_is(activation)(*a)
            { a.id == activation },
            Ghost(activation_id_is(activation)),
        ) else {
            return Err("activation is missing");
        };
        let a = &self.runtime_activations[k];
        if a.generation != activation_generation {
            return Err("activation generation mismatch");
        }
        if a.state != RuntimeActivationState::Created && a.state != RuntimeActivationState::Blocked {
            return Err("activation is not enqueueable");
        }
        if a.runnable_queue.is_some() {
            return Err("activation already queued");
        }
        let (task, task_generation) = (a.owner_task, a.owner_task_generation);
        let Some(t) = find_first(
            &self.tasks,
            |x: &TaskRecord| -> (b: bool)
                ensures b == task_is(task, task_generation)(*x)
            { x.id == task && x.generation == task_generation },
            Ghost(task_is(task, task_generation)),
        ) else {
            return Err("activation owner task generation is missing");
        };
        if self.tasks[t].state == TaskState::Pending {
            return Err("pending wait task cannot be enqueued");
        }
        self.check_owner_store(a.owner_store, a.owner_store_generation,
            "activation owner store generation is required",
            "dead or missing store activation cannot be enqueued")
    }

    pub(crate) fn check_bind_hart_current_activation(
        &self,
        hart: HartId,
        hart_generation: Generation,
        activation: ActivationId,
        activation_generation: Generation,
    ) -> (r: Result<(), &'static str>)
        ensures
            r == self.bind_hart_current_activation_verdict(hart, hart_generation, activation, activation_generation),
    {
        let Some(i) = self.find_hart(hart, hart_generation) else {
            return Err("hart generation is missing");
        };
        let h = &self.harts[i];
        if h.state != HartState::Idle {
            return Err("hart is not idle");
        }
        if h.current_activation.is_some() {
            return Err("hart already has current activation");
        }
        if exists_match(
            &self.harts,
            |x: &HartRecord| -> (b: bool)
                ensures b == current_elsewhere(hart, activation, activation_generation)(*x)
            { x.id != hart && x.current_activation == Some(activation)
                && x.current_activation_generation == Some(activation_generation) },
            Ghost(current_elsewhere(hart, activation, activation_generation)),
        ) {
            return Err("activation is already current on another hart");
        }
        let Some(k) = find_first(
            &self.runtime_activations,
            |a: &RuntimeActivationRecord| -> (b: bool)
                ensures b == running_activation_is(activation, activation_generation)(*a)
            { a.id == activation && a.generation == activation_generation
                && a.state == RuntimeActivationState::Running },
            Ghost(running_activation_is(activation, activation_generation)),
        ) else {
            return Err("current activation generation is missing or not running");
        };
        let a = &self.runtime_activations[k];
        if !self.has_task(a.owner_task, a.owner_task_generation) {
            return Err("current activation owner task generation is missing");
        }
        self.check_owner_store(a.owner_store, a.owner_store_generation,
            "current activation owner store generation is required",
            "current activation owner store generation is missing or dead")
    }

    pub(crate) fn check_scheduler_decision(
        &self,
        decision: SchedulerDecisionId,
        queue: RunnableQueueId,
        queue_generation: Generation,
        selected_activation: ActivationId,
        selected_activation_generation: Generation,
        reason: &str,
    ) -> (r: Result<(), &'static str>)
        ensures
            r == self.scheduler_decision_verdict(decision, queue, queue_generation, selected_activation,
                selected_activation_generation, reason@),
    {
        if decision == 0 {
            return Err("scheduler decision id=0 is invalid");
        }
        if reason.unicode_len() == 0 {
            return Err("scheduler decision reason is empty");
        }
        if exists_match(
            &self.scheduler_decisions,
            |d: &SchedulerDecisionRecord| -> (b: bool)
                ensures b == scheduler_decision_id_is(decision)(*d)
            { d.id == decision },
            Ghost(scheduler_decision_id_is(decision)),
        ) {
            return Err("scheduler decision already exists");
        }
        let Some(i) = self.find_active_runnable_queue(queue, queue_generation) else {
            return Err("scheduler decision queue generation is missing or inactive");
        };
        let (sa, sg) = (selected_activation, selected_activation_generation);
        if !exists_match(
            &self.runnable_queues[i].entries,
            |e: &RunnableQueueEntry| -> (b: bool)
                ensures b == entry_is(sa, sg)(*e)
            { e.activation == sa && e.activation_generation == sg },
            Ghost(entry_is(sa, sg)),
        ) {
            return Err("scheduler decision activation is not queued");
        }
        let Some(k) = find_first(
            &self.runtime_activations,
            |a: &RuntimeActivationRecord| -> (b: bool)
                ensures b == runnable_activation_in(sa, sg, queue, queue_generation)(*a)
            { a.id == sa && a.generation == sg && a.state == RuntimeActivationState::Runnable
                && a.runnable_queue == Some(queue) && a.runnable_queue_generation == Some(queue_generation) },
            Ghost(runnable_activation_in(sa, sg, queue, queue_generation)),
        ) else {
            return Err("scheduler decision activation generation is not runnable");
        };
        let a = &self.runtime_activations[k];
        if self.has_task(a.owner_task, a.owner_task_generation) {
            Ok(())
        } else {
            Err("scheduler decision owner task generation is missing")
        }
    }
}

/// A task of `g` has this id and generation.
pub open spec fn has_task(g: SemanticGraph, task: TaskId, generation: Generation) -> bool {
    exists|t: int| 0 <= t < g.tasks@.len() && (#[trigger] g.tasks@[t]).id == task && g.tasks@[t].generation == generation
}

/// An owner store, when named, comes with a generation of a store of `g` that is not dead.
pub open spec fn owner_store_lives(g: SemanticGraph, owner_store: Option<StoreId>, owner_store_generation: Option<Generation>) -> bool {
    owner_store matches Some(store) ==> owner_store_generation is Some && exists|s: int| 0 <= s < g.stores@.len()
        && (#[trigger] g.stores@[s]).id == store && g.stores@[s].generation == owner_store_generation->Some_0
        && g.stores@[s].state != StoreState::Dead
}

proof fn lemma_owner_store_verdict_ok(
    g: SemanticGraph,
    owner_store: Option<StoreId>,
    owner_store_generation: Option<Generation>,
    required: &'static str,
    missing: &'static str,
)
    requires
        owner_store_verdict(g.stores@, owner_store, owner_store_generation, required, missing) is Ok,
    ensures
        owner_store_lives(g, owner_store, owner_store_generation),
{
    if owner_store is Some {
        let store = owner_store->Some_0;
        let generation = owner_store_generation->Some_0;
        let s = choose|s: int| 0 <= s < g.stores@.len() && live_store_is(store, generation)(#[trigger] g.stores@[s]);
        assert(live_store_is(store, generation)(g.stores@[s]));
    }
}

/// When creating a runtime activation is accepted, its id is new and nonzero, its owner task
/// generation exists, a named code object is a code object, and a named owner store comes with a
/// generation that lives.
pub proof fn lemma_accepted_activation_has_owners(
    g: SemanticGraph,
    activation: ActivationId,
    owner_task: TaskId,
    owner_task_generation: Generation,
    owner_store: Option<StoreId>,
    owner_store_generation: Option<Generation>,
    code_object: Option<ContractObjectRef>,
)
    requires
        g.create_runtime_activation_verdict(activation, owner_task, owner_task_generation, owner_store,
            owner_store_generation, code_object) is Ok,
    ensures
        activation != 0,
        forall|i: int| 0 <= i < g.runtime_activations@.len() ==> (#[trigger] g.runtime_activations@[i]).id != activation,
        has_task(g, owner_task, owner_task_generation),
        code_object matches Some(c) ==> c.kind == ContractObjectKind::CodeObject,
        owner_store_lives(g, owner_store, owner_store_generation),
{
    assert forall|i: int| 0 <= i < g.runtime_activations@.len() implies (#[trigger] g.runtime_activations@[i]).id != activation by {
        if g.runtime_activations@[i].id == activation {
            assert(activation_id_is(activation)(g.runtime_activations@[i]));
        }
    }
    let t = choose|t: int| 0 <= t < g.tasks@.len() && task_is(owner_task, owner_task_generation)(#[trigger] g.tasks@[t]);
    assert(task_is(owner_task, owner_task_generation)(g.tasks@[t]));
    lemma_owner_store_verdict_ok(g, owner_store, owner_store_generation,
        "activation owner store generation is required", "activation owner store generation is missing or dead");
}

/// When enqueuing an activation generation on a runnable queue is accepted, an active queue has
/// that id, no queue holds the activation, and the activation generation is created or blocked,
/// on no queue, with an owner task generation that exists and is not pending and an owner store
/// (if any) that lives.
pub proof fn lemma_accepted_enqueue_is_of_an_idle_activation(
    g: SemanticGraph,
    queue: RunnableQueueId,
    activation: ActivationId,
    activation_generation: Generation,
)
    requires
        g.enqueue_runnable_verdict(queue, activation, activation_generation) is Ok,
    ensures
        exists|q: int| 0 <= q < g.runnable_queues@.len() && (#[trigger] g.runnable_queues@[q]).id == queue
            && g.runnable_queues@[q].state == RunnableQueueState::Active,
        forall|q: int, e: int| #![trigger g.runnable_queues@[q].entries@[e]]
            0 <= q < g.runnable_queues@.len() && 0 <= e < g.runnable_queues@[q].entries@.len()
            ==> g.runnable_queues@[q].entries@[e].activation != activation,
        exists|k: int, t: int| #![trigger g.runtime_activations@[k], g.tasks@[t]]
            0 <= k < g.runtime_activations@.len() && 0 <= t < g.tasks@.len() && {
            let a = g.runtime_activations@[k];
            let task = g.tasks@[t];
            &&& a.id == activation && a.generation == activation_generation
            &&& (a.state == RuntimeActivationState::Created || a.state == RuntimeActivationState::Blocked)
            &&& a.runnable_queue is None
            &&& task.id == a.owner_task && task.generation == a.owner_task_generation
            &&& task.state != TaskState::Pending
            &&& owner_store_lives(g, a.owner_store, a.owner_store_generation)
        },
{
    lemma_first_match_facts(g.runnable_queues@, runnable_queue_with_id(queue));
    let q = first_match(g.runnable_queues@, runnable_queue_with_id(queue))->0;
    assert(runnable_queue_with_id(queue)(g.runnable_queues@[q]));
    assert forall|q: int, e: int| #![trigger g.runnable_queues@[q].entries@[e]]
        0 <= q < g.runnable_queues@.len() && 0 <= e < g.runnable_queues@[q].entries@.len()
        implies g.runnable_queues@[q].entries@[e].activation != activation by {
        if g.runnable_queues@[q].entries@[e].activation == activation {
            assert(entry_for_activation(activation)(g.runnable_queues@[q].entries@[e]));
            assert(any_match(g.runnable_queues@[q].entries@, entry_for_activation(activation)));
        }
    }
    lemma_first_match_facts(g.runtime_activations@, activation_id_is(activation));
    let k = first_match(g.runtime_activations@, activation_id_is(activation))->0;
    let a = g.runtime_activations@[k];
    assert(activation_id_is(activation)(a));
    lemma_first_match_facts(g.tasks@, task_is(a.owner_task, a.owner_task_generation));
    let t = first_match(g.tasks@, task_is(a.owner_task, a.owner_task_generation))->0;
    assert(task_is(a.owner_task, a.owner_task_generation)(g.tasks@[t]));
    lemma_owner_store_verdict_ok(g, a.owner_store, a.owner_store_generation,
        "activation owner store generation is required", "dead or missing store activation cannot be enqueued");
}

/// When binding a current activation to a hart is accepted, the hart generation exists, is idle
/// and has no current activation, no other hart runs that activation generation, and the
/// activation generation is running with an owner task generation that exists and an owner store
/// (if any) that lives.
pub proof fn lemma_accepted_current_activation_is_exclusive(
    g: SemanticGraph,
    hart: HartId,
    hart_generation: Generation,
    activation: ActivationId,
    activation_generation: Generation,
)
    requires
        g.bind_hart_current_activation_verdict(hart, hart_generation, activation, activation_generation) is Ok,
    ensures
        exists|h: int| 0 <= h < g.harts@.len() && (#[trigger] g.harts@[h]).id == hart
            && g.harts@[h].generation == hart_generation && g.harts@[h].state == HartState::Idle
            && g.harts@[h].current_activation is None,
        forall|h: int| 0 <= h < g.harts@.len() && (#[trigger] g.harts@[h]).id != hart
            ==> !(g.harts@[h].current_activation == Some(activation)
                && g.harts@[h].current_activation_generation == Some(activation_generation)),
        exists|k: int| 0 <= k < g.runtime_activations@.len() && {
            let a = #[trigger] g.runtime_activations@[k];
            &&& a.id == activation && a.generation == activation_generation
            &&& a.state == RuntimeActivationState::Running
            &&& has_task(g, a.owner_task, a.owner_task_generation)
            &&& owner_store_lives(g, a.owner_store, a.owner_store_generation)
        },
{
    lemma_first_match_facts(g.harts@, hart_is(hart, hart_generation));
    let h = first_match(g.harts@, hart_is(hart, hart_generation))->0;
    assert(hart_is(hart, hart_generation)(g.harts@[h]));
    assert forall|j: int| 0 <= j < g.harts@.len() && (#[trigger] g.harts@[j]).id != hart
        implies !(g.harts@[j].current_activation == Some(activation)
            && g.harts@[j].current_activation_generation == Some(activation_generation)) by {
        if g.harts@[j].current_activation == Some(activation)
            && g.harts@[j].current_activation_generation == Some(activation_generation) {
            assert(current_elsewhere(hart, activation, activation_generation)(g.harts@[j]));
        }
    }
    lemma_first_match_facts(g.runtime_activations@, running_activation_is(activation, activation_generation));
    let k = first_match(g.runtime_activations@, running_activation_is(activation, activation_generation))->0;
    let a = g.runtime_activations@[k];
    assert(running_activation_is(activation, activation_generation)(a));
    let t = choose|t: int| 0 <= t < g.tasks@.len() && task_is(a.owner_task, a.owner_task_generation)(#[trigger] g.tasks@[t]);
    assert(task_is(a.owner_task, a.owner_task_generation)(g.tasks@[t]));
    lemma_owner_store_verdict_ok(g, a.owner_store, a.owner_store_generation,
        "current activation owner store generation is required",
        "current activation owner store generation is missing or dead");
}

/// When a scheduler decision is accepted, its id is new and nonzero, a reason is given, an active
/// queue of the named generation holds the selected activation generation, and that activation
/// generation is runnable on exactly that queue generation with an owner task generation that
/// exists.
pub proof fn lemma_accepted_decision_selects_a_queued_runnable_activation(
    g: SemanticGraph,
    decision: SchedulerDecisionId,
    queue: RunnableQueueId,
    queue_generation: Generation,
    selected_activation: ActivationId,
    selected_activation_generation: Generation,
    reason: Seq<char>,
)
    requires
        g.scheduler_decision_verdict(decision, queue, queue_generation, selected_activation,
            selected_activation_generation, reason) is Ok,
    ensures
        decision != 0,
        reason.len() > 0,
        forall|i: int| 0 <= i < g.scheduler_decisions@.len() ==> (#[trigger] g.scheduler_decisions@[i]).id != decision,
        exists|q: int, e: int| #![trigger g.runnable_queues@[q].entries@[e]]
            0 <= q < g.runnable_queues@.len() && 0 <= e < g.runnable_queues@[q].entries@.len()
            && g.runnable_queues@[q].id == queue && g.runnable_queues@[q].generation == queue_generation
            && g.runnable_queues@[q].state == RunnableQueueState::Active
            && g.runnable_queues@[q].entries@[e].activation == selected_activation
            && g.runnable_queues@[q].entries@[e].activation_generation == selected_activation_generation,
        exists|k: int| 0 <= k < g.runtime_activations@.len() && {
            let a = #[trigger] g.runtime_activations@[k];
            &&& a.id == selected_activation && a.generation == selected_activation_generation
            &&& a.state == RuntimeActivationState::Runnable
            &&& a.runnable_queue == Some(queue) && a.runnable_queue_generation == Some(queue_generation)
            &&& has_task(g, a.owner_task, a.owner_task_generation)
        },
{
    assert forall|i: int| 0 <= i < g.scheduler_decisions@.len() implies (#[trigger] g.scheduler_decisions@[i]).id != decision by {
        if g.scheduler_decisions@[i].id == decision {
            assert(scheduler_decision_id_is(decision)(g.scheduler_decisions@[i]));
        }
    }
    lemma_first_match_facts(g.runnable_queues@, active_runnable_queue_is(queue, queue_generation));
    let q = first_match(g.runnable_queues@, active_runnable_queue_is(queue, queue_generation))->0;
    assert(active_runnable_queue_is(queue, queue_generation)(g.runnable_queues@[q]));
    let entries = g.runnable_queues@[q].entries@;
    let e = choose|e: int| 0 <= e < entries.len() && entry_is(selected_activation, selected_activation_generation)(#[trigger] entries[e]);
    assert(entry_is(selected_activation, selected_activation_generation)(entries[e]));
    assert(g.runnable_queues@[q].entries@[e] == entries[e]);
    lemma_first_match_facts(g.runtime_activations@, runnable_activation_in(selected_activation,
        selected_activation_generation, queue, queue_generation));
    let k = first_match(g.runtime_activations@, runnable_activation_in(selected_activation,
        selected_activation_generation, queue, queue_generation))->0;
    let a = g.runtime_activations@[k];
    assert(runnable_activation_in(selected_activation, selected_activation_generation, queue, queue_generation)(a));
    let t = choose|t: int| 0 <= t < g.tasks@.len() && task_is(a.owner_task, a.owner_task_generation)(#[trigger] g.tasks@[t]);
    assert(task_is(a.owner_task, a.owner_task_generation)(g.tasks@[t]));
}

} // verus!
