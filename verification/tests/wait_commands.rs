use semantic_core::base::{
    ActivationCleanupRecord, ActivationContextRecord, ActivationWaitRecord, IoWaitRecord, IrqEventRecord,
    RuntimeActivationRecord,
    SocketWaitRecord, StoreRecord, TaskRecord, WaitRecord,
};
use semantic_core::command::{apply_lifecycle_command, ApplyDispatch, CommandError, SemanticCommand};
use semantic_core::events::{EventDomain, EventKind};
use semantic_core::graph::SemanticGraph;
use semantic_core::types::{WaitRestartPolicy, 
    ActivationContextState, ActivationWaitState, ContractObjectKind, ContractObjectRef, IoWaitState, IrqEventState, RuntimeActivationState,
    SemanticWaitKind, SocketWaitState, StoreState, TaskState, WaitCancelReason, WaitState,
};

fn refused(message: &'static str) -> Result<(), CommandError> {
    Err(CommandError::Precondition(message))
}

#[test]
fn preflight_of_socket_wait_resolution_and_cancellation() {
    let mut g = SemanticGraph::new();
    let resolve = |ready_sequence: u64, byte_len: u64| SemanticCommand::ResolveSocketWait {
        socket_wait: 3,
        socket_wait_generation: 1,
        ready_sequence,
        byte_len,
    };
    let cancel = |reason: WaitCancelReason| SemanticCommand::CancelSocketWait {
        socket_wait: 3,
        socket_wait_generation: 1,
        reason,
    };
    assert_eq!(g.preflight_command(&resolve(1, 1)), refused("socket wait is not pending or readiness is empty"));
    assert_eq!(
        g.preflight_command(&cancel(WaitCancelReason::CloseFd)),
        refused("socket wait is not pending or cancel reason is not socket-visible")
    );
    g.socket_waits.push(SocketWaitRecord {
        id: 3,
        generation: 1,
        wait_kind: SemanticWaitKind::SocketReadable,
        state: SocketWaitState::Pending,
    });
    assert_eq!(g.preflight_command(&resolve(0, 4)), refused("socket wait is not pending or readiness is empty"));
    assert_eq!(g.preflight_command(&resolve(1, 0)), refused("socket wait is not pending or readiness is empty"));
    assert_eq!(g.preflight_command(&resolve(1, 4)), Ok(()));
    g.socket_waits[0].wait_kind = SemanticWaitKind::SocketWritable;
    assert_eq!(g.preflight_command(&resolve(1, 0)), Ok(()));
    assert_eq!(g.preflight_command(&cancel(WaitCancelReason::CloseFd)), Ok(()));
    assert_eq!(g.preflight_command(&cancel(WaitCancelReason::DeviceFault)), Ok(()));
    g.socket_waits[0].state = SocketWaitState::Cancelled;
    assert_eq!(
        g.preflight_command(&cancel(WaitCancelReason::CloseFd)),
        refused("socket wait is not pending or cancel reason is not socket-visible")
    );
}

fn io_wait(id: u64, generation: u64) -> IoWaitRecord {
    IoWaitRecord {
        id,
        generation,
        wait: 21,
        wait_generation: 1,
        device: 9,
        device_generation: 1,
        driver_store: 2,
        driver_store_generation: 1,
        blocker: ContractObjectRef { kind: ContractObjectKind::IrqLineObject, id: 33, generation: 1 },
        state: IoWaitState::Pending,
    }
}

#[test]
fn preflight_of_io_wait_resolution() {
    let mut g = SemanticGraph::new();
    let resolve = SemanticCommand::ResolveIoWait { io_wait: 6, io_wait_generation: 2, irq_event: 40, irq_event_generation: 1 };
    assert_eq!(g.preflight_command(&resolve), refused("io wait generation is missing or not pending"));
    g.io_waits.push(io_wait(6, 2));
    assert_eq!(g.preflight_command(&resolve), refused("io wait irq event generation is missing"));
    g.irq_events.push(IrqEventRecord {
        id: 40,
        generation: 1,
        irq_line: 34,
        irq_line_generation: 1,
        device: 9,
        device_generation: 1,
        driver_store: 2,
        driver_store_generation: 1,
        state: IrqEventState::Recorded,
    });
    assert_eq!(g.preflight_command(&resolve), refused("io wait irq line attribution mismatch"));
    g.irq_events[0].irq_line = 33;
    assert_eq!(g.preflight_command(&resolve), refused("io wait token generation is missing or not pending"));
    g.waits.push(pending_token(21, Some(2)));
    assert_eq!(g.preflight_command(&resolve), Ok(()));
    g.irq_events[0].driver_store_generation = 2;
    assert_eq!(g.preflight_command(&resolve), refused("io wait irq event attribution mismatch"));
    g.irq_events[0].state = IrqEventState::Consumed;
    assert_eq!(g.preflight_command(&resolve), refused("io wait irq event generation is missing"));
}

#[test]
fn preflight_of_io_wait_cancellation() {
    let mut g = SemanticGraph::new();
    let cancel = |reason: WaitCancelReason| SemanticCommand::CancelIoWait { io_wait: 6, io_wait_generation: 2, reason };
    assert_eq!(
        g.preflight_command(&cancel(WaitCancelReason::CloseFd)),
        refused("io wait cancellation reason is not an io reason")
    );
    assert_eq!(
        g.preflight_command(&cancel(WaitCancelReason::DeviceFault)),
        refused("io wait generation is missing or not pending")
    );
    g.io_waits.push(io_wait(6, 2));
    assert_eq!(g.preflight_command(&cancel(WaitCancelReason::DeviceFault)), Ok(()));
    assert_eq!(g.preflight_command(&cancel(WaitCancelReason::GenerationMismatch)), Ok(()));
    assert_eq!(
        g.preflight_command(&cancel(WaitCancelReason::StoreFault)),
        refused("io wait cancellation reason is not an io reason")
    );
    g.io_waits[0].state = IoWaitState::Resolved;
    assert_eq!(
        g.preflight_command(&cancel(WaitCancelReason::DeviceFault)),
        refused("io wait generation is missing or not pending")
    );
}

#[test]
fn preflight_of_activation_context_creation() {
    let mut g = SemanticGraph::new();
    let create = |context: u64| SemanticCommand::CreateActivationContext {
        context,
        activation: 30,
        activation_generation: 1,
    };
    assert_eq!(g.preflight_command(&create(0)), refused("activation context id=0 is invalid"));
    assert_eq!(g.preflight_command(&create(4)), refused("activation generation is missing or inactive"));
    g.runtime_activations.push(RuntimeActivationRecord {
        id: 30,
        generation: 1,
        owner_task: 5,
        owner_task_generation: 1,
        owner_store: None,
        owner_store_generation: None,
        state: RuntimeActivationState::Exited,
        runnable_queue: None,
        runnable_queue_generation: None,
    });
    assert_eq!(g.preflight_command(&create(4)), refused("activation generation is missing or inactive"));
    g.runtime_activations[0].state = RuntimeActivationState::Running;
    assert_eq!(g.preflight_command(&create(4)), Ok(()));
    g.activation_contexts.push(ActivationContextRecord {
        id: 4,
        generation: 1,
        activation: 30,
        activation_generation: 1,
        state: ActivationContextState::Dropped,
        current_saved_context: None,
    });
    assert_eq!(g.preflight_command(&create(4)), refused("activation context already exists"));
    assert_eq!(g.preflight_command(&create(5)), Ok(()));
    g.activation_contexts[0].state = ActivationContextState::Saved;
    assert_eq!(g.preflight_command(&create(5)), refused("activation already has a live context"));
}

#[test]
fn create_wait_is_checked_then_recorded_as_pending() {
    let mut g = SemanticGraph::new();
    let blocker = ContractObjectRef { kind: ContractObjectKind::DeviceObject, id: 9, generation: 1 };
    let create = |owner_task: Option<u64>, owner_store: Option<u64>, owner_store_generation: Option<u64>,
                  blockers: Vec<ContractObjectRef>, deadline: Option<u64>| SemanticCommand::CreateWait {
        wait: 21,
        owner_task,
        owner_store,
        owner_store_generation,
        kind: SemanticWaitKind::DriverCompletion,
        generation: 1,
        blockers,
        deadline,
        restart_policy: WaitRestartPolicy::ReturnInterrupted,
        saved_context: Some(6),
    };
    assert_eq!(
        g.preflight_command(&create(None, None, None, vec![blocker], None)),
        refused("create-wait requires owner task or owner store")
    );
    assert_eq!(
        g.preflight_command(&create(Some(5), None, None, Vec::new(), None)),
        refused("create-wait requires blocker or deadline")
    );
    assert_eq!(g.preflight_command(&create(Some(5), None, None, Vec::new(), Some(100))), refused("owner task is missing"));
    g.tasks.push(TaskRecord { id: 5, generation: 3, state: TaskState::Running });
    assert_eq!(g.preflight_command(&create(Some(5), None, None, Vec::new(), Some(100))), Ok(()));
    assert_eq!(
        g.preflight_command(&create(None, Some(2), None, vec![blocker], None)),
        refused("owner store generation is required")
    );
    assert_eq!(
        g.preflight_command(&create(None, Some(2), Some(1), vec![blocker], None)),
        refused("owner store generation is missing")
    );
    g.stores.push(StoreRecord {
        id: 2,
        generation: 1,
        role: "driver".to_string(),
        package: "blk".to_string(),
        state: StoreState::Running,
    });
    let command = create(None, Some(2), Some(1), vec![blocker], None);
    assert_eq!(g.preflight_command(&command), Ok(()));
    match apply_lifecycle_command(&mut g, command) {
        ApplyDispatch::Applied(changed) => assert!(changed),
        ApplyDispatch::Next(_) => panic!("wait creation was not applied"),
    }
    assert_eq!(g.waits.len(), 1);
    assert_eq!(g.waits[0].id, 21);
    assert_eq!(g.waits[0].state, WaitState::Pending);
    assert_eq!(g.waits[0].owner_store, Some(2));
    assert_eq!(g.waits[0].blockers, vec![blocker]);
    assert_eq!(g.waits[0].owner_task, None);
    assert_eq!(g.waits[0].deadline, None);
    assert_eq!(g.waits[0].restart_policy, WaitRestartPolicy::ReturnInterrupted);
    assert_eq!(g.waits[0].saved_context, Some(6));
    assert_eq!(g.event_log.events[0].domain, EventDomain::Wait);
    assert_eq!(g.event_log.events[0].kind, EventKind::WaitCreated { wait: 21, generation: 1 });
}

fn running_activation(id: u64, owner_store: Option<u64>) -> RuntimeActivationRecord {
    RuntimeActivationRecord {
        id,
        generation: 1,
        owner_task: 5,
        owner_task_generation: 1,
        owner_store,
        owner_store_generation: owner_store.map(|_| 1),
        state: RuntimeActivationState::Running,
        runnable_queue: None,
        runnable_queue_generation: None,
    }
}

fn pending_token(id: u64, owner_store: Option<u64>) -> WaitRecord {
    WaitRecord {
        id,
        generation: 1,
        kind: SemanticWaitKind::Futex,
        blockers: Vec::new(),
        owner_store,
        owner_store_generation: owner_store.map(|_| 1),
        owner_task: None,
        deadline: None,
        restart_policy: WaitRestartPolicy::Restart,
        saved_context: None,
        state: WaitState::Pending,
        cancel_reason: None,
        errno: None,
    }
}

#[test]
fn preflight_of_blocking_an_activation_on_a_wait() {
    let mut g = SemanticGraph::new();
    let blocker = ContractObjectRef { kind: ContractObjectKind::DeviceObject, id: 9, generation: 1 };
    let block = |activation_wait: u64, wait: u64, blockers: Vec<ContractObjectRef>, deadline: Option<u64>| {
        SemanticCommand::BlockActivationOnWait {
            activation_wait,
            activation: 30,
            activation_generation: 1,
            wait,
            kind: SemanticWaitKind::Futex,
            blockers,
            deadline,
            restart_policy: WaitRestartPolicy::Restart,
            note: String::new(),
        }
    };
    assert_eq!(g.preflight_command(&block(0, 21, vec![blocker], None)), refused("activation wait id=0 is invalid"));
    assert_eq!(g.preflight_command(&block(11, 0, vec![blocker], None)), refused("wait id=0 is invalid"));
    assert_eq!(
        g.preflight_command(&block(11, 21, Vec::new(), None)),
        refused("activation wait requires blocker or deadline")
    );
    assert_eq!(
        g.preflight_command(&block(11, 21, Vec::new(), Some(50))),
        refused("activation wait target generation is not running")
    );
    g.runtime_activations.push(running_activation(30, Some(2)));
    assert_eq!(
        g.preflight_command(&block(11, 21, vec![blocker], None)),
        refused("activation wait owner task generation is missing or not runnable")
    );
    g.tasks.push(TaskRecord { id: 5, generation: 1, state: TaskState::Pending });
    assert_eq!(
        g.preflight_command(&block(11, 21, vec![blocker], None)),
        refused("activation wait owner task generation is missing or not runnable")
    );
    g.tasks[0].state = TaskState::Running;
    assert_eq!(
        g.preflight_command(&block(11, 21, vec![blocker], None)),
        refused("activation wait owner store generation is missing or dead")
    );
    g.stores.push(StoreRecord {
        id: 2,
        generation: 1,
        role: "app".to_string(),
        package: "shell".to_string(),
        state: StoreState::Running,
    });
    assert_eq!(g.preflight_command(&block(11, 21, vec![blocker], None)), Ok(()));
    g.waits.push(pending_token(21, None));
    assert_eq!(g.preflight_command(&block(11, 21, vec![blocker], None)), refused("wait already exists"));
    g.activation_waits.push(ActivationWaitRecord {
        id: 11,
        generation: 1,
        activation: 30,
        activation_generation: 1,
        wait: 21,
        wait_generation: 1,
        state: ActivationWaitState::Pending,
    });
    assert_eq!(g.preflight_command(&block(11, 22, vec![blocker], None)), refused("activation wait already exists"));
}

#[test]
fn preflight_of_cancelling_an_activation_wait() {
    let mut g = SemanticGraph::new();
    let cancel = |wait_generation: u64| SemanticCommand::CancelActivationWait {
        activation_wait: 11,
        activation_wait_generation: 1,
        wait_generation,
        errno: 4,
        reason: WaitCancelReason::StoreFault,
        note: String::new(),
    };
    assert_eq!(g.preflight_command(&cancel(1)), refused("activation wait generation is missing or not pending"));
    g.activation_waits.push(ActivationWaitRecord {
        id: 11,
        generation: 1,
        activation: 30,
        activation_generation: 1,
        wait: 21,
        wait_generation: 1,
        state: ActivationWaitState::Pending,
    });
    assert_eq!(g.preflight_command(&cancel(2)), refused("activation wait generation is missing or not pending"));
    assert_eq!(g.preflight_command(&cancel(1)), refused("activation wait token generation is missing or not pending"));
    g.waits.push(pending_token(21, None));
    assert_eq!(g.preflight_command(&cancel(1)), Ok(()));
}

#[test]
fn preflight_of_cleaning_up_an_activation_after_a_store_fault() {
    let mut g = SemanticGraph::new();
    let cleanup = |id: u64, wait: Option<u64>, wait_generation: Option<u64>, reason: &str| {
        SemanticCommand::CleanupActivationForStoreFault {
            cleanup: id,
            store: 2,
            store_generation: 1,
            activation: 30,
            activation_generation: 1,
            wait,
            wait_generation,
            reason: reason.to_string(),
            note: String::new(),
        }
    };
    assert_eq!(g.preflight_command(&cleanup(0, None, None, "fault")), refused("activation cleanup id=0 is invalid"));
    assert_eq!(g.preflight_command(&cleanup(8, None, None, "")), refused("activation cleanup reason is empty"));
    assert_eq!(
        g.preflight_command(&cleanup(8, None, None, "fault")),
        refused("cleanup target store generation is missing or dead")
    );
    g.stores.push(StoreRecord {
        id: 2,
        generation: 1,
        role: "app".to_string(),
        package: "shell".to_string(),
        state: StoreState::Faulted,
    });
    assert_eq!(
        g.preflight_command(&cleanup(8, None, None, "fault")),
        refused("cleanup target activation generation is missing or not store-owned")
    );
    g.runtime_activations.push(running_activation(30, Some(2)));
    assert_eq!(g.preflight_command(&cleanup(8, None, None, "fault")), Ok(()));
    assert_eq!(
        g.preflight_command(&cleanup(8, Some(21), None, "fault")),
        refused("cleanup wait and wait generation must be paired")
    );
    assert_eq!(
        g.preflight_command(&cleanup(8, Some(21), Some(1), "fault")),
        refused("cleanup wait generation is missing or not pending")
    );
    g.waits.push(pending_token(21, Some(2)));
    assert_eq!(g.preflight_command(&cleanup(8, Some(21), Some(1), "fault")), Ok(()));
    g.activation_cleanups.push(ActivationCleanupRecord {
        id: 8,
        store: 2,
        store_generation: 1,
        activation: 30,
        activation_generation: 1,
        wait: None,
        wait_generation: None,
    });
    assert_eq!(g.preflight_command(&cleanup(8, None, None, "fault")), refused("activation cleanup already exists"));
}

fn running_store(g: &mut SemanticGraph) {
    g.stores.push(StoreRecord {
        id: 2,
        generation: 1,
        role: "app".to_string(),
        package: "shell".to_string(),
        state: StoreState::Running,
    });
}

#[test]
fn apply_blocks_then_cancels_an_activation_wait() {
    let mut g = SemanticGraph::new();
    g.runtime_activations.push(running_activation(30, Some(2)));
    g.tasks.push(TaskRecord { id: 5, generation: 1, state: TaskState::Running });
    let block = SemanticCommand::BlockActivationOnWait {
        activation_wait: 11,
        activation: 30,
        activation_generation: 1,
        wait: 21,
        kind: SemanticWaitKind::Futex,
        blockers: Vec::new(),
        deadline: Some(500),
        restart_policy: WaitRestartPolicy::ReturnInterrupted,
        note: "futex".to_string(),
    };
    match apply_lifecycle_command(&mut g, block) {
        ApplyDispatch::Applied(changed) => assert!(!changed),
        ApplyDispatch::Next(_) => panic!("blocking was not handled"),
    }
    assert!(g.waits.is_empty());
    assert!(g.event_log.events.is_empty());
    running_store(&mut g);
    let block = SemanticCommand::BlockActivationOnWait {
        activation_wait: 11,
        activation: 30,
        activation_generation: 1,
        wait: 21,
        kind: SemanticWaitKind::Futex,
        blockers: Vec::new(),
        deadline: Some(500),
        restart_policy: WaitRestartPolicy::ReturnInterrupted,
        note: "futex".to_string(),
    };
    match apply_lifecycle_command(&mut g, block) {
        ApplyDispatch::Applied(changed) => assert!(changed),
        ApplyDispatch::Next(_) => panic!("blocking was not applied"),
    }
    assert_eq!(g.runtime_activations[0].state, RuntimeActivationState::Blocked);
    assert_eq!(g.waits.len(), 1);
    assert_eq!(g.waits[0].id, 21);
    assert_eq!(g.waits[0].generation, 1);
    assert_eq!(g.waits[0].state, WaitState::Pending);
    assert_eq!(g.waits[0].owner_task, Some(5));
    assert_eq!(g.waits[0].owner_store, Some(2));
    assert_eq!(g.waits[0].deadline, Some(500));
    assert_eq!(g.waits[0].restart_policy, WaitRestartPolicy::ReturnInterrupted);
    assert_eq!(g.activation_waits.len(), 1);
    assert_eq!(g.activation_waits[0].wait, 21);
    assert_eq!(g.activation_waits[0].state, ActivationWaitState::Pending);
    assert_eq!(
        g.event_log.events[0].kind,
        EventKind::ActivationBlockedOnWait { activation_wait: 11, activation: 30, activation_generation: 1, wait: 21, wait_generation: 1 }
    );
    assert_eq!(g.event_log.events[0].labels, vec!["futex".to_string()]);
    let cancel = SemanticCommand::CancelActivationWait {
        activation_wait: 11,
        activation_wait_generation: 1,
        wait_generation: 1,
        errno: 4,
        reason: WaitCancelReason::StoreFault,
        note: String::new(),
    };
    match apply_lifecycle_command(&mut g, cancel) {
        ApplyDispatch::Applied(changed) => assert!(changed),
        ApplyDispatch::Next(_) => panic!("cancellation was not applied"),
    }
    assert_eq!(g.activation_waits[0].state, ActivationWaitState::Cancelled);
    assert_eq!(g.waits[0].state, WaitState::Cancelled);
    assert_eq!(g.waits[0].errno, Some(4));
    assert_eq!(
        g.event_log.events[1].kind,
        EventKind::WaitCancelled { wait: 21, generation: 1, errno: 4, reason: WaitCancelReason::StoreFault }
    );
    let again = SemanticCommand::CancelActivationWait {
        activation_wait: 11,
        activation_wait_generation: 1,
        wait_generation: 1,
        errno: 4,
        reason: WaitCancelReason::StoreFault,
        note: String::new(),
    };
    match apply_lifecycle_command(&mut g, again) {
        ApplyDispatch::Applied(changed) => assert!(!changed),
        ApplyDispatch::Next(_) => panic!("cancellation was not handled"),
    }
    assert_eq!(g.event_log.events.len(), 2);
}

#[test]
fn apply_cleans_up_an_activation_of_a_faulted_store() {
    let mut g = SemanticGraph::new();
    running_store(&mut g);
    g.runtime_activations.push(running_activation(30, Some(2)));
    g.waits.push(pending_token(21, Some(2)));
    let cleanup = |reason: &str| SemanticCommand::CleanupActivationForStoreFault {
        cleanup: 8,
        store: 2,
        store_generation: 1,
        activation: 30,
        activation_generation: 1,
        wait: Some(21),
        wait_generation: Some(1),
        reason: reason.to_string(),
        note: "trap".to_string(),
    };
    match apply_lifecycle_command(&mut g, cleanup("")) {
        ApplyDispatch::Applied(changed) => assert!(!changed),
        ApplyDispatch::Next(_) => panic!("cleanup was not handled"),
    }
    assert!(g.activation_cleanups.is_empty());
    match apply_lifecycle_command(&mut g, cleanup("fault")) {
        ApplyDispatch::Applied(changed) => assert!(changed),
        ApplyDispatch::Next(_) => panic!("cleanup was not applied"),
    }
    assert_eq!(g.activation_cleanups.len(), 1);
    assert_eq!(g.activation_cleanups[0].id, 8);
    assert_eq!(g.activation_cleanups[0].wait, Some(21));
    assert_eq!(g.runtime_activations[0].state, RuntimeActivationState::Dead);
    assert_eq!(
        g.event_log.events[0].kind,
        EventKind::ActivationCleanedUpForStoreFault { cleanup: 8, store: 2, store_generation: 1, activation: 30, activation_generation: 1 }
    );
    assert_eq!(g.event_log.events[0].labels, vec!["fault".to_string(), "trap".to_string()]);
}
