use semantic_core::base::{
    ActivationContextRecord, HartRecord, IpiEventRecord, PreemptionRecord, RunnableQueueEntry, RunnableQueueRecord,
    RuntimeActivationRecord, SavedContextRecord, SchedulerDecisionRecord, StoreRecord, TaskRecord,
    TimerInterruptRecord,
};
use semantic_core::command::{apply_lifecycle_command, ApplyDispatch, CommandError, SemanticCommand};
use semantic_core::events::{EventDomain, EventKind};
use semantic_core::graph::SemanticGraph;
use semantic_core::types::{
    ActivationContextState, ContractObjectKind, ContractObjectRef, HartState, PreemptionState, RunnableQueueState, RuntimeActivationState,
    SchedulerDecisionState, StoreState, TaskState, TransactionState,
};

fn refused(message: &'static str) -> Result<(), CommandError> {
    Err(CommandError::Precondition(message))
}

fn store(id: u64, generation: u64, state: StoreState) -> StoreRecord {
    StoreRecord { id, generation, role: "app".to_string(), package: "shell".to_string(), state }
}

fn activation(id: u64, state: RuntimeActivationState) -> RuntimeActivationRecord {
    RuntimeActivationRecord {
        id,
        generation: 1,
        owner_task: 5,
        owner_task_generation: 1,
        owner_store: Some(2),
        owner_store_generation: Some(1),
        state,
        runnable_queue: None,
        runnable_queue_generation: None,
    }
}

fn queue(id: u64) -> RunnableQueueRecord {
    RunnableQueueRecord {
        id,
        generation: 1,
        owner_hart: None,
        owner_hart_generation: None,
        state: RunnableQueueState::Active,
        entries: Vec::new(),
    }
}

fn idle_hart(id: u64) -> HartRecord {
    HartRecord {
        id,
        generation: 1,
        hardware_id: id,
        label: format!("hart{id}"),
        boot: id == 1,
        state: HartState::Idle,
        current_activation: None,
        current_activation_generation: None,
    }
}

#[test]
fn preflight_of_runtime_activation_creation() {
    let mut g = SemanticGraph::new();
    let create = |id: u64, owner_store: Option<u64>, owner_store_generation: Option<u64>, code: Option<ContractObjectRef>| {
        SemanticCommand::CreateRuntimeActivation {
            activation: id,
            owner_task: 5,
            owner_task_generation: 1,
            owner_store,
            owner_store_generation,
            code_object: code,
        }
    };
    assert_eq!(g.preflight_command(&create(0, None, None, None)), refused("activation id=0 is invalid"));
    assert_eq!(g.preflight_command(&create(30, None, None, None)), refused("activation owner task generation is missing"));
    g.tasks.push(TaskRecord { id: 5, generation: 1, state: TaskState::Runnable });
    assert_eq!(g.preflight_command(&create(30, None, None, None)), Ok(()));
    let not_code = ContractObjectRef { kind: ContractObjectKind::Store, id: 2, generation: 1 };
    let code = ContractObjectRef { kind: ContractObjectKind::CodeObject, id: 8, generation: 1 };
    assert_eq!(
        g.preflight_command(&create(30, None, None, Some(not_code))),
        refused("activation code reference must be a code object")
    );
    assert_eq!(g.preflight_command(&create(30, None, None, Some(code))), Ok(()));
    assert_eq!(
        g.preflight_command(&create(30, Some(2), None, None)),
        refused("activation owner store generation is required")
    );
    assert_eq!(
        g.preflight_command(&create(30, Some(2), Some(1), None)),
        refused("activation owner store generation is missing or dead")
    );
    g.stores.push(store(2, 1, StoreState::Dead));
    assert_eq!(
        g.preflight_command(&create(30, Some(2), Some(1), None)),
        refused("activation owner store generation is missing or dead")
    );
    g.stores[0].state = StoreState::Running;
    assert_eq!(g.preflight_command(&create(30, Some(2), Some(1), None)), Ok(()));
    g.runtime_activations.push(activation(30, RuntimeActivationState::Created));
    assert_eq!(g.preflight_command(&create(30, None, None, None)), refused("activation already exists"));
}

#[test]
fn preflight_of_enqueueing_runnable_activations() {
    let mut g = SemanticGraph::new();
    let enqueue = |a: u64, ag: u64| SemanticCommand::EnqueueRunnable { queue: 7, activation: a, activation_generation: ag };
    assert_eq!(g.preflight_command(&enqueue(30, 1)), refused("runnable queue is missing"));
    g.runnable_queues.push(queue(7));
    g.runnable_queues[0].state = RunnableQueueState::Retired;
    assert_eq!(g.preflight_command(&enqueue(30, 1)), refused("runnable queue is not active"));
    g.runnable_queues[0].state = RunnableQueueState::Active;
    assert_eq!(g.preflight_command(&enqueue(30, 1)), refused("activation is missing"));
    g.runtime_activations.push(activation(30, RuntimeActivationState::Running));
    assert_eq!(g.preflight_command(&enqueue(30, 2)), refused("activation generation mismatch"));
    assert_eq!(g.preflight_command(&enqueue(30, 1)), refused("activation is not enqueueable"));
    g.runtime_activations[0].state = RuntimeActivationState::Blocked;
    g.runtime_activations[0].runnable_queue = Some(9);
    assert_eq!(g.preflight_command(&enqueue(30, 1)), refused("activation already queued"));
    g.runtime_activations[0].runnable_queue = None;
    assert_eq!(g.preflight_command(&enqueue(30, 1)), refused("activation owner task generation is missing"));
    g.tasks.push(TaskRecord { id: 5, generation: 1, state: TaskState::Pending });
    assert_eq!(g.preflight_command(&enqueue(30, 1)), refused("pending wait task cannot be enqueued"));
    g.tasks[0].state = TaskState::Runnable;
    assert_eq!(g.preflight_command(&enqueue(30, 1)), refused("dead or missing store activation cannot be enqueued"));
    g.stores.push(store(2, 1, StoreState::Running));
    assert_eq!(g.preflight_command(&enqueue(30, 1)), Ok(()));
    let mut other = queue(8);
    other.entries.push(RunnableQueueEntry { activation: 30, activation_generation: 1 });
    g.runnable_queues.push(other);
    assert_eq!(g.preflight_command(&enqueue(30, 1)), refused("activation already queued"));
}

#[test]
fn preflight_of_binding_a_current_activation() {
    let mut g = SemanticGraph::new();
    let bind = |hart: u64| SemanticCommand::BindHartCurrentActivation {
        hart,
        hart_generation: 1,
        activation: 30,
        activation_generation: 1,
    };
    assert_eq!(g.preflight_command(&bind(1)), refused("hart generation is missing"));
    g.harts.push(idle_hart(1));
    g.harts.push(idle_hart(2));
    g.harts[0].state = HartState::Running;
    assert_eq!(g.preflight_command(&bind(1)), refused("hart is not idle"));
    g.harts[0].state = HartState::Idle;
    g.harts[0].current_activation = Some(31);
    g.harts[0].current_activation_generation = Some(1);
    assert_eq!(g.preflight_command(&bind(1)), refused("hart already has current activation"));
    g.harts[0].current_activation = Some(30);
    assert_eq!(g.preflight_command(&bind(2)), refused("activation is already current on another hart"));
    g.harts[0].current_activation = None;
    g.harts[0].current_activation_generation = None;
    assert_eq!(g.preflight_command(&bind(1)), refused("current activation generation is missing or not running"));
    g.runtime_activations.push(activation(30, RuntimeActivationState::Running));
    assert_eq!(g.preflight_command(&bind(1)), refused("current activation owner task generation is missing"));
    g.tasks.push(TaskRecord { id: 5, generation: 1, state: TaskState::Running });
    assert_eq!(g.preflight_command(&bind(1)), refused("current activation owner store generation is missing or dead"));
    g.stores.push(store(2, 1, StoreState::Running));
    assert_eq!(g.preflight_command(&bind(1)), Ok(()));
}

#[test]
fn preflight_of_scheduler_decisions() {
    let mut g = SemanticGraph::new();
    let decide = |decision: u64, reason: &str| SemanticCommand::RecordSchedulerDecision {
        decision,
        queue: 7,
        queue_generation: 1,
        selected_activation: 30,
        selected_activation_generation: 1,
        reason: reason.to_string(),
    };
    assert_eq!(g.preflight_command(&decide(0, "tick")), refused("scheduler decision id=0 is invalid"));
    assert_eq!(g.preflight_command(&decide(4, "")), refused("scheduler decision reason is empty"));
    assert_eq!(
        g.preflight_command(&decide(4, "tick")),
        refused("scheduler decision queue generation is missing or inactive")
    );
    g.runnable_queues.push(queue(7));
    assert_eq!(g.preflight_command(&decide(4, "tick")), refused("scheduler decision activation is not queued"));
    g.runnable_queues[0].entries.push(RunnableQueueEntry { activation: 30, activation_generation: 1 });
    assert_eq!(
        g.preflight_command(&decide(4, "tick")),
        refused("scheduler decision activation generation is not runnable")
    );
    let mut a = activation(30, RuntimeActivationState::Runnable);
    a.runnable_queue = Some(7);
    a.runnable_queue_generation = Some(1);
    g.runtime_activations.push(a);
    assert_eq!(g.preflight_command(&decide(4, "tick")), refused("scheduler decision owner task generation is missing"));
    g.tasks.push(TaskRecord { id: 5, generation: 1, state: TaskState::Runnable });
    assert_eq!(g.preflight_command(&decide(4, "tick")), Ok(()));
    g.scheduler_decisions.push(SchedulerDecisionRecord {
        id: 4,
        generation: 1,
        queue: 7,
        queue_generation: 1,
        selected_activation: 30,
        selected_activation_generation: 1,
        state: SchedulerDecisionState::Recorded,
    });
    assert_eq!(g.preflight_command(&decide(4, "tick")), refused("scheduler decision already exists"));
}

#[test]
fn cleanup_transactions_begin_and_log_steps() {
    let mut g = SemanticGraph::new();
    let begin = SemanticCommand::BeginCleanup { cleanup: 12, store: 2, generation: 1, reason: "fault".to_string() };
    let step = SemanticCommand::ApplyCleanupStep {
        cleanup: 12,
        step: "revoke-capabilities".to_string(),
        target: "store:2@1".to_string(),
        observed_generation: 1,
    };
    assert_eq!(g.preflight_command(&begin), refused("cleanup target store generation is missing"));
    assert_eq!(g.preflight_command(&step), refused("cleanup transaction is not active"));
    g.stores.push(store(2, 1, StoreState::Faulted));
    assert_eq!(g.preflight_command(&begin), Ok(()));
    match apply_lifecycle_command(&mut g, begin) {
        ApplyDispatch::Applied(changed) => assert!(changed),
        ApplyDispatch::Next(_) => panic!("cleanup was not begun"),
    }
    assert_eq!(g.transactions.len(), 1);
    assert_eq!(g.transactions[0].id, 12);
    assert_eq!(g.transactions[0].label, "cleanup:fault");
    assert_eq!(g.transactions[0].store, Some(2));
    assert_eq!(g.transactions[0].state, TransactionState::Begun);
    assert_eq!(g.next_transaction_id, 13);
    assert_eq!(g.event_log.events[0].domain, EventDomain::Command);
    assert_eq!(g.event_log.events[0].kind, EventKind::TransactionBegan { transaction: 12, store: Some(2), task: None });
    assert_eq!(g.event_log.events[0].labels, vec!["cleanup:fault".to_string()]);
    let again = SemanticCommand::BeginCleanup { cleanup: 12, store: 2, generation: 1, reason: "fault".to_string() };
    assert_eq!(g.preflight_command(&again), refused("cleanup transaction id already exists"));
    assert_eq!(g.preflight_command(&step), Ok(()));
    match apply_lifecycle_command(&mut g, step) {
        ApplyDispatch::Applied(changed) => assert!(changed),
        ApplyDispatch::Next(_) => panic!("cleanup step was not applied"),
    }
    assert_eq!(g.event_log.events[1].kind, EventKind::CleanupStepApplied { cleanup: 12, observed_generation: 1 });
    assert_eq!(
        g.event_log.events[1].labels,
        vec!["revoke-capabilities".to_string(), "store:2@1".to_string()]
    );
    let commit = SemanticCommand::CommitCleanup { cleanup: 12 };
    assert_eq!(g.preflight_command(&commit), Ok(()));
    match apply_lifecycle_command(&mut g, SemanticCommand::CommitCleanup { cleanup: 12 }) {
        ApplyDispatch::Applied(changed) => assert!(changed),
        ApplyDispatch::Next(_) => panic!("cleanup commit was not applied"),
    }
    assert_eq!(g.transactions[0].state, TransactionState::Committed);
    assert_eq!(g.event_log.events[2].kind, EventKind::TransactionCommitted { transaction: 12 });
    assert_eq!(g.preflight_command(&commit), refused("cleanup transaction is not active"));
    match apply_lifecycle_command(&mut g, commit) {
        ApplyDispatch::Applied(changed) => assert!(!changed),
        ApplyDispatch::Next(_) => panic!("cleanup commit was not handled"),
    }
    assert_eq!(g.event_log.events.len(), 3);
}

#[test]
fn preflight_of_capturing_saved_context() {
    let mut g = SemanticGraph::new();
    let capture = |saved_context: u64, pc: u64, sp: u64| SemanticCommand::CaptureSavedContext {
        saved_context,
        context: 4,
        context_generation: 1,
        pc,
        sp,
    };
    assert_eq!(g.preflight_command(&capture(0, 0x1000, 0x8000)), refused("saved context id=0 is invalid"));
    assert_eq!(g.preflight_command(&capture(6, 0, 0x8000)), refused("saved context requires nonzero pc and sp"));
    assert_eq!(g.preflight_command(&capture(6, 0x1000, 0)), refused("saved context requires nonzero pc and sp"));
    assert_eq!(
        g.preflight_command(&capture(6, 0x1000, 0x8000)),
        refused("activation context generation is missing or dropped")
    );
    g.activation_contexts.push(ActivationContextRecord {
        id: 4,
        generation: 1,
        activation: 30,
        activation_generation: 1,
        state: ActivationContextState::Created,
        current_saved_context: None,
    });
    assert_eq!(g.preflight_command(&capture(6, 0x1000, 0x8000)), Ok(()));
    g.activation_contexts[0].current_saved_context = Some(5);
    assert_eq!(
        g.preflight_command(&capture(6, 0x1000, 0x8000)),
        refused("activation context already has saved context")
    );
    g.saved_contexts.push(SavedContextRecord { id: 6, context: 4, context_generation: 1, pc: 0x1000, sp: 0x8000 });
    assert_eq!(g.preflight_command(&capture(6, 0x1000, 0x8000)), refused("saved context already exists"));
}

#[test]
fn preflight_of_timer_interrupts() {
    let mut g = SemanticGraph::new();
    let timer = |interrupt: u64, epoch: u64, target: Option<u64>, target_generation: Option<u64>| {
        SemanticCommand::RecordTimerInterrupt {
            interrupt,
            timer_epoch: epoch,
            hart: 1,
            hart_generation: 1,
            target_activation: target,
            target_activation_generation: target_generation,
        }
    };
    assert_eq!(g.preflight_command(&timer(0, 5, None, None)), refused("timer interrupt id=0 is invalid"));
    assert_eq!(g.preflight_command(&timer(1, 0, None, None)), refused("timer interrupt epoch=0 is invalid"));
    assert_eq!(
        g.preflight_command(&timer(1, 5, None, None)),
        refused("timer interrupt hart generation is missing or inactive")
    );
    g.harts.push(idle_hart(1));
    assert_eq!(g.preflight_command(&timer(1, 5, None, None)), Ok(()));
    assert_eq!(
        g.preflight_command(&timer(1, 5, Some(30), None)),
        refused("timer interrupt target activation generation is required")
    );
    assert_eq!(
        g.preflight_command(&timer(1, 5, None, Some(1))),
        refused("timer interrupt target activation is required")
    );
    assert_eq!(
        g.preflight_command(&timer(1, 5, Some(30), Some(1))),
        refused("timer interrupt target activation generation is missing or inactive")
    );
    g.runtime_activations.push(activation(30, RuntimeActivationState::Running));
    assert_eq!(g.preflight_command(&timer(1, 5, Some(30), Some(1))), Ok(()));
    g.timer_interrupts.push(TimerInterruptRecord {
        id: 1,
        generation: 1,
        timer_epoch: 5,
        hart: 1,
        hart_generation: 1,
        target_activation: None,
        target_activation_generation: None,
    });
    assert_eq!(g.preflight_command(&timer(1, 9, None, None)), refused("timer interrupt already exists"));
    assert_eq!(g.preflight_command(&timer(2, 5, None, None)), refused("timer interrupt already exists"));
    assert_eq!(g.preflight_command(&timer(2, 4, None, None)), refused("timer interrupt epoch must be monotonic"));
    assert_eq!(g.preflight_command(&timer(2, 6, None, None)), Ok(()));
    g.harts[0].state = HartState::Faulted;
    assert_eq!(
        g.preflight_command(&timer(2, 6, None, None)),
        refused("timer interrupt hart generation is missing or inactive")
    );
}

#[test]
fn preflight_of_ipi_events() {
    let mut g = SemanticGraph::new();
    let ipi = |id: u64, source: u64, target: u64, reason: &str| SemanticCommand::RecordIpiEvent {
        ipi: id,
        source_hart: source,
        source_hart_generation: 1,
        target_hart: target,
        target_hart_generation: 1,
        reason: reason.to_string(),
    };
    assert_eq!(g.preflight_command(&ipi(0, 1, 2, "resched")), refused("ipi event id=0 is invalid"));
    assert_eq!(g.preflight_command(&ipi(3, 1, 2, "")), refused("ipi event reason is empty"));
    assert_eq!(g.preflight_command(&ipi(3, 1, 1, "resched")), refused("ipi source and target harts must differ"));
    assert_eq!(
        g.preflight_command(&ipi(3, 1, 2, "resched")),
        refused("ipi source hart generation is missing or inactive")
    );
    g.harts.push(idle_hart(1));
    assert_eq!(
        g.preflight_command(&ipi(3, 1, 2, "resched")),
        refused("ipi target hart generation is missing or inactive")
    );
    g.harts.push(idle_hart(2));
    assert_eq!(g.preflight_command(&ipi(3, 1, 2, "resched")), Ok(()));
    g.ipi_events.push(IpiEventRecord {
        id: 3,
        generation: 1,
        source_hart: 1,
        source_hart_generation: 1,
        target_hart: 2,
        target_hart_generation: 1,
    });
    assert_eq!(g.preflight_command(&ipi(3, 1, 2, "resched")), refused("ipi event already exists"));
}

#[test]
fn preflight_of_preempting_an_activation() {
    let mut g = SemanticGraph::new();
    let preempt = |preemption: u64, queue: u64| SemanticCommand::PreemptActivation {
        preemption,
        activation: 30,
        activation_generation: 1,
        timer_interrupt: 1,
        timer_interrupt_generation: 1,
        queue,
    };
    assert_eq!(g.preflight_command(&preempt(0, 7)), refused("preemption id=0 is invalid"));
    assert_eq!(g.preflight_command(&preempt(2, 7)), refused("preemption queue is missing or inactive"));
    g.runnable_queues.push(queue(7));
    assert_eq!(g.preflight_command(&preempt(2, 7)), refused("preemption timer interrupt generation is missing"));
    g.timer_interrupts.push(TimerInterruptRecord {
        id: 1,
        generation: 1,
        timer_epoch: 5,
        hart: 1,
        hart_generation: 1,
        target_activation: Some(31),
        target_activation_generation: Some(1),
    });
    assert_eq!(
        g.preflight_command(&preempt(2, 7)),
        refused("preemption timer target does not match activation generation")
    );
    g.timer_interrupts[0].target_activation = Some(30);
    assert_eq!(
        g.preflight_command(&preempt(2, 7)),
        refused("preemption target activation generation is not running")
    );
    g.runtime_activations.push(activation(30, RuntimeActivationState::Running));
    assert_eq!(g.preflight_command(&preempt(2, 7)), refused("preemption owner task generation is missing"));
    g.tasks.push(TaskRecord { id: 5, generation: 1, state: TaskState::Exited });
    assert_eq!(g.preflight_command(&preempt(2, 7)), refused("preemption owner task is not runnable"));
    g.tasks[0].state = TaskState::Running;
    assert_eq!(g.preflight_command(&preempt(2, 7)), refused("preemption owner store generation is missing or dead"));
    g.stores.push(store(2, 1, StoreState::Running));
    assert_eq!(g.preflight_command(&preempt(2, 7)), Ok(()));
    g.runnable_queues[0].entries.push(RunnableQueueEntry { activation: 30, activation_generation: 1 });
    assert_eq!(g.preflight_command(&preempt(2, 7)), refused("activation already queued"));
    g.preemptions.push(PreemptionRecord {
        id: 2,
        generation: 1,
        activation: 30,
        activation_generation: 1,
        activation_generation_after: 2,
        state: PreemptionState::Applied,
    });
    assert_eq!(g.preflight_command(&preempt(2, 7)), refused("preemption already exists"));
}

#[test]
fn preflight_of_saving_a_preempted_context() {
    let mut g = SemanticGraph::new();
    let save = |context: u64, saved_context: u64, pc: u64| SemanticCommand::SavePreemptedContext {
        context,
        saved_context,
        preemption: 2,
        preemption_generation: 1,
        pc,
        sp: 0x8000,
    };
    assert_eq!(g.preflight_command(&save(0, 6, 0x1000)), refused("preempted context requires nonzero context ids"));
    assert_eq!(g.preflight_command(&save(4, 6, 0)), refused("preempted context requires nonzero pc and sp"));
    assert_eq!(g.preflight_command(&save(4, 6, 0x1000)), refused("preemption generation is missing"));
    g.preemptions.push(PreemptionRecord {
        id: 2,
        generation: 1,
        activation: 30,
        activation_generation: 1,
        activation_generation_after: 2,
        state: PreemptionState::Applied,
    });
    assert_eq!(
        g.preflight_command(&save(4, 6, 0x1000)),
        refused("preempted activation generation is missing or dead")
    );
    let mut a = activation(30, RuntimeActivationState::Runnable);
    a.generation = 2;
    g.runtime_activations.push(a);
    assert_eq!(
        g.preflight_command(&save(4, 6, 0x1000)),
        refused("preempted activation owner task generation is missing")
    );
    g.tasks.push(TaskRecord { id: 5, generation: 1, state: TaskState::Runnable });
    assert_eq!(
        g.preflight_command(&save(4, 6, 0x1000)),
        refused("preempted activation owner store generation is missing or dead")
    );
    g.stores.push(store(2, 1, StoreState::Running));
    assert_eq!(g.preflight_command(&save(4, 6, 0x1000)), Ok(()));
    g.activation_contexts.push(ActivationContextRecord {
        id: 3,
        generation: 1,
        activation: 30,
        activation_generation: 2,
        state: ActivationContextState::Created,
        current_saved_context: None,
    });
    assert_eq!(g.preflight_command(&save(4, 6, 0x1000)), refused("activation already has live context"));
    assert_eq!(g.preflight_command(&save(3, 6, 0x1000)), refused("activation context already exists"));
    g.saved_contexts.push(SavedContextRecord { id: 6, context: 3, context_generation: 1, pc: 0x1000, sp: 0x8000 });
    assert_eq!(g.preflight_command(&save(4, 6, 0x1000)), refused("saved context already exists"));
}
