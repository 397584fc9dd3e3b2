use semantic_core::base::{CapabilityRecord, HartRecord, RunnableQueueEntry, RunnableQueueRecord, StoreRecord, WaitRecord};
use semantic_core::command::{apply_lifecycle_command, ApplyDispatch, CommandDomain, CommandError, SemanticCommand};
use semantic_core::events::{EventDomain, EventKind};
use semantic_core::graph::SemanticGraph;
use semantic_core::types::{WaitRestartPolicy, HartState, HostcallClass, RunnableQueueState, SemanticWaitKind, StoreState, WaitCancelReason, WaitState};

fn ledger_entry(id: u64, subject: &str, revoked: bool) -> CapabilityRecord {
    CapabilityRecord {
        id,
        generation: 1,
        subject: subject.to_string(),
        object_ref: None,
        operations: vec!["read".to_string()],
        owner_store: None,
        owner_store_generation: None,
        revoked,
    }
}

fn pending_wait(id: u64) -> WaitRecord {
    WaitRecord {
        id,
        generation: 1,
        kind: SemanticWaitKind::DriverCompletion,
        blockers: Vec::new(),
        owner_store: None,
        owner_store_generation: None,
        owner_task: None,
        deadline: None,
        restart_policy: WaitRestartPolicy::Restart,
        saved_context: None,
        state: WaitState::Pending,
        cancel_reason: None,
        errno: None,
    }
}

#[test]
fn preflight_reports_validation_messages() {
    let g = SemanticGraph::new();
    let c = SemanticCommand::RecordBlockDeviceObject {
        block_device: 0,
        name: "d".to_string(),
        device: 1,
        device_generation: 1,
        sector_size: 512,
        sector_count: 8,
        read_only: false,
        max_transfer_sectors: 8,
        note: String::new(),
    };
    assert_eq!(c.domain(), CommandDomain::Block);
    assert_eq!(g.preflight_command(&c), Err(CommandError::Precondition("block device object id=0 is invalid")));
    assert_eq!(g.preflight_block_command(&c), Err(CommandError::precondition("block device object id=0 is invalid")));
}

#[test]
fn preflight_of_capabilities_and_waits() {
    let mut g = SemanticGraph::new();
    assert_eq!(
        g.preflight_command(&SemanticCommand::RevokeCapability { cap: 9 }),
        Err(CommandError::Precondition("capability does not exist"))
    );
    g.capabilities.push(ledger_entry(9, "shell", true));
    assert_eq!(g.preflight_command(&SemanticCommand::RevokeCapability { cap: 9 }), Ok(()));
    assert_eq!(
        g.preflight_lifecycle_command(&SemanticCommand::ResolveWait { wait: 4, reason: "done".to_string() }),
        Err(CommandError::Precondition("wait is not pending"))
    );
    g.waits.push(pending_wait(4));
    assert_eq!(g.preflight_command(&SemanticCommand::ResolveWait { wait: 4, reason: "done".to_string() }), Ok(()));
    assert_eq!(
        g.preflight_command(&SemanticCommand::CancelWait { wait: 4, errno: 5, reason: WaitCancelReason::StoreFault }),
        Ok(())
    );
    let grant = |ops: Vec<String>, owner: Option<u64>, gen: Option<u64>| SemanticCommand::GrantCapability {
        subject: "shell".to_string(),
        object: "fs".to_string(),
        operations: ops,
        object_ref: None,
        owner_store: owner,
        owner_store_generation: gen,
    };
    assert_eq!(
        g.preflight_command(&grant(Vec::new(), None, None)),
        Err(CommandError::Precondition("grant-capability requires at least one operation"))
    );
    assert_eq!(g.preflight_command(&grant(vec!["read".to_string()], None, None)), Ok(()));
    assert_eq!(
        g.preflight_command(&grant(vec!["read".to_string()], Some(2), None)),
        Err(CommandError::Precondition("owner store generation is required"))
    );
    assert_eq!(
        g.preflight_command(&grant(vec!["read".to_string()], Some(2), Some(1))),
        Err(CommandError::Precondition("owner store generation is missing"))
    );
    g.stores.push(StoreRecord {
        id: 2,
        generation: 1,
        role: "app".to_string(),
        package: "shell".to_string(),
        state: StoreState::Running,
    });
    assert_eq!(g.preflight_command(&grant(vec!["read".to_string()], Some(2), Some(1))), Ok(()));
}

#[test]
fn preflight_of_wait_cancellation_reasons() {
    let g = SemanticGraph::new();
    let c = SemanticCommand::CancelBlockWait {
        block_wait: 1,
        block_wait_generation: 1,
        errno: 5,
        reason: WaitCancelReason::CloseFd,
        note: String::new(),
    };
    assert_eq!(
        g.preflight_command(&c),
        Err(CommandError::Precondition("block wait cancellation reason is not a block io reason"))
    );
    let c = SemanticCommand::CancelBlockWait {
        block_wait: 1,
        block_wait_generation: 1,
        errno: 5,
        reason: WaitCancelReason::DeviceFault,
        note: String::new(),
    };
    assert_eq!(g.preflight_command(&c), Err(CommandError::Precondition("block wait generation is missing or not pending")));
    let c = SemanticCommand::CancelFsWait {
        fs_wait: 1,
        fs_wait_generation: 1,
        errno: 5,
        reason: WaitCancelReason::DeviceFault,
        note: String::new(),
    };
    assert_eq!(
        g.preflight_storage_command(&c),
        Err(CommandError::Precondition("fs wait cancellation reason is not a filesystem reason"))
    );
    let c = SemanticCommand::ResolveFsWait { fs_wait: 1, fs_wait_generation: 1, note: String::new() };
    assert_eq!(g.preflight_command(&c), Err(CommandError::Precondition("fs wait generation is missing or not pending")));
    let c = SemanticCommand::ResolveBlockWait {
        block_wait: 1,
        block_wait_generation: 1,
        block_completion: 2,
        block_completion_generation: 1,
        note: String::new(),
    };
    assert_eq!(g.preflight_command(&c), Err(CommandError::Precondition("block wait generation is missing or not pending")));
}

#[test]
fn preflight_of_scheduler_commands() {
    let g = SemanticGraph::new();
    assert_eq!(
        g.preflight_command(&SemanticCommand::CreateRunnableQueue { queue: 0, label: "q".to_string() }),
        Err(CommandError::Precondition("runnable queue id=0 is invalid"))
    );
    assert_eq!(
        g.preflight_command(&SemanticCommand::CreateRunnableQueue { queue: 3, label: String::new() }),
        Err(CommandError::Precondition("runnable queue label is empty"))
    );
    assert_eq!(g.preflight_command(&SemanticCommand::CreateRunnableQueue { queue: 3, label: "q".to_string() }), Ok(()));
    assert_eq!(
        g.preflight_command(&SemanticCommand::SetHartState {
            hart: 1,
            hart_generation: 1,
            state: semantic_core::types::HartState::Idle,
            reason: "boot".to_string(),
        }),
        Err(CommandError::Precondition("hart generation is missing"))
    );
}

#[test]
fn apply_revokes_a_live_capability_once() {
    let mut g = SemanticGraph::new();
    g.capabilities.push(ledger_entry(9, "shell", false));
    match apply_lifecycle_command(&mut g, SemanticCommand::RevokeCapability { cap: 9 }) {
        ApplyDispatch::Applied(changed) => assert!(changed),
        ApplyDispatch::Next(_) => panic!("revocation was not applied"),
    }
    assert!(g.capabilities()[0].revoked);
    assert_eq!(g.event_log.events[0].domain, EventDomain::Command);
    assert_eq!(g.event_log.events[0].kind, EventKind::CapabilityRevoked { cap: 9 });
    match apply_lifecycle_command(&mut g, SemanticCommand::RevokeCapability { cap: 9 }) {
        ApplyDispatch::Applied(changed) => assert!(!changed),
        ApplyDispatch::Next(_) => panic!("revocation was not applied"),
    }
    assert_eq!(g.event_log.events.len(), 1);
    match apply_lifecycle_command(&mut g, SemanticCommand::SetHartState {
        hart: 1,
        hart_generation: 1,
        state: semantic_core::types::HartState::Idle,
        reason: "boot".to_string(),
    }) {
        ApplyDispatch::Applied(_) => panic!("hart state is not a lifecycle command"),
        ApplyDispatch::Next(c) => assert!(matches!(*c, SemanticCommand::SetHartState { hart: 1, .. })),
    }
    assert_eq!(g.event_log.events.len(), 1);
}

#[test]
fn apply_resolves_and_cancels_pending_waits() {
    let mut g = SemanticGraph::new();
    g.waits.push(pending_wait(4));
    g.waits.push(pending_wait(5));
    match apply_lifecycle_command(&mut g, SemanticCommand::ResolveWait { wait: 4, reason: "ready".to_string() }) {
        ApplyDispatch::Applied(changed) => assert!(changed),
        ApplyDispatch::Next(_) => panic!("wait resolution was not applied"),
    }
    assert_eq!(g.waits[0].state, WaitState::Resolved);
    assert_eq!(g.waits[1].state, WaitState::Pending);
    assert_eq!(g.event_log.events[0].kind, EventKind::WaitResolved { wait: 4, generation: 1 });
    match apply_lifecycle_command(
        &mut g,
        SemanticCommand::CancelWait { wait: 5, errno: 110, reason: WaitCancelReason::StoreFault },
    ) {
        ApplyDispatch::Applied(changed) => assert!(changed),
        ApplyDispatch::Next(_) => panic!("wait cancellation was not applied"),
    }
    assert_eq!(g.waits[1].state, WaitState::Cancelled);
    assert_eq!(g.waits[1].errno, Some(110));
    assert_eq!(g.waits[1].cancel_reason, Some(WaitCancelReason::StoreFault));
    assert_eq!(
        g.event_log.events[1].kind,
        EventKind::WaitCancelled { wait: 5, generation: 1, errno: 110, reason: WaitCancelReason::StoreFault }
    );
    // A wait that is no longer pending is left alone, and the command still counts as applied.
    match apply_lifecycle_command(&mut g, SemanticCommand::ResolveWait { wait: 5, reason: "late".to_string() }) {
        ApplyDispatch::Applied(changed) => assert!(changed),
        ApplyDispatch::Next(_) => panic!("wait resolution was not applied"),
    }
    assert_eq!(g.waits[1].state, WaitState::Cancelled);
    assert_eq!(g.event_log.events.len(), 2);
}

#[test]
fn apply_grants_capabilities_under_fresh_ids() {
    let mut g = SemanticGraph::new();
    g.capabilities.push(ledger_entry(7, "net", false));
    g.capabilities.push(ledger_entry(3, "shell", true));
    let grant = |ops: Vec<String>| SemanticCommand::GrantCapability {
        subject: "shell".to_string(),
        object: "fs".to_string(),
        operations: ops,
        object_ref: None,
        owner_store: None,
        owner_store_generation: None,
    };
    match apply_lifecycle_command(&mut g, grant(Vec::new())) {
        ApplyDispatch::Applied(changed) => assert!(!changed),
        ApplyDispatch::Next(_) => panic!("grant was not handled"),
    }
    assert_eq!(g.capabilities().len(), 2);
    assert!(g.event_log.events.is_empty());
    match apply_lifecycle_command(&mut g, grant(vec!["read".to_string(), "write".to_string()])) {
        ApplyDispatch::Applied(changed) => assert!(changed),
        ApplyDispatch::Next(_) => panic!("grant was not handled"),
    }
    assert_eq!(g.capabilities().len(), 3);
    let granted = &g.capabilities()[2];
    assert_eq!(granted.id, 8);
    assert_eq!(granted.generation, 1);
    assert_eq!(granted.subject, "shell");
    assert_eq!(granted.operations, vec!["read".to_string(), "write".to_string()]);
    assert!(!granted.revoked);
    assert_eq!(g.event_log.events[0].domain, EventDomain::Command);
    assert_eq!(g.event_log.events[0].kind, EventKind::CapabilityGranted { cap: 8 });
    assert_eq!(g.capability_count(), 2);
    g.capabilities.push(ledger_entry(u64::MAX, "net", false));
    match apply_lifecycle_command(&mut g, grant(vec!["read".to_string()])) {
        ApplyDispatch::Applied(changed) => assert!(!changed),
        ApplyDispatch::Next(_) => panic!("grant was not handled"),
    }
    assert_eq!(g.capabilities().len(), 4);
}

#[test]
fn hostcall_entries_are_logged_with_their_text() {
    let mut g = SemanticGraph::new();
    g.record_hostcall("fs.open", HostcallClass { code: 3 }, "shell", "fs:/etc", "read");
    assert_eq!(g.event_log.events.len(), 1);
    let e = &g.event_log.events[0];
    assert_eq!(e.domain, EventDomain::Hostcall);
    assert_eq!(e.kind, EventKind::HostcallEntered { class: HostcallClass { code: 3 } });
    assert_eq!(
        e.labels,
        vec!["fs.open".to_string(), "shell".to_string(), "fs:/etc".to_string(), "read".to_string()]
    );
}

#[test]
fn capability_ledger_revocations() {
    let mut g = SemanticGraph::new();
    g.capabilities.push(ledger_entry(1, "shell", false));
    g.capabilities.push(ledger_entry(2, "net", false));
    g.capabilities.push(ledger_entry(3, "shell", false));
    g.capabilities.push(ledger_entry(4, "shell", true));
    assert_eq!(g.capability_count(), 3);
    assert!(!g.revoke_capability_generation(2, 7));
    assert!(g.revoke_capability_generation(2, 1));
    assert!(!g.revoke_capability(2));
    assert!(!g.revoke_capability(99));
    assert_eq!(g.capability_count(), 2);
    let report = g.revoke_capabilities_for_subject("shell");
    assert_eq!(report.revoked, vec![1, 3]);
    assert_eq!(g.capability_count(), 0);
    assert_eq!(g.event_log.events.len(), 3);
    assert_eq!(g.event_log.events[1].kind, EventKind::CapabilityRevoked { cap: 1 });
    assert_eq!(g.event_log.events[2].id, 3);
}

fn hart_record(id: u64, generation: u64, hardware_id: u64, boot: bool, state: HartState) -> HartRecord {
    HartRecord {
        id,
        generation,
        hardware_id,
        label: format!("hart{id}"),
        boot,
        state,
        current_activation: None,
        current_activation_generation: None,
    }
}

#[test]
fn preflight_of_hart_registration() {
    let mut g = SemanticGraph::new();
    let register = |hart: u64, hardware_id: u64, label: &str, boot: bool| SemanticCommand::RegisterHart {
        hart,
        hardware_id,
        label: label.to_string(),
        boot,
    };
    assert_eq!(g.preflight_command(&register(0, 0, "cpu0", true)), Err(CommandError::Precondition("hart id=0 is invalid")));
    assert_eq!(g.preflight_command(&register(1, 0, "", true)), Err(CommandError::Precondition("hart label is empty")));
    assert_eq!(g.preflight_command(&register(1, 0, "cpu0", true)), Ok(()));
    g.harts.push(hart_record(1, 1, 0, true, HartState::Running));
    assert_eq!(g.preflight_command(&register(1, 9, "cpu9", false)), Err(CommandError::Precondition("hart already exists")));
    assert_eq!(
        g.preflight_command(&register(2, 0, "cpu0b", false)),
        Err(CommandError::Precondition("hardware hart already exists"))
    );
    assert_eq!(g.preflight_command(&register(2, 1, "cpu1", true)), Err(CommandError::Precondition("boot hart already exists")));
    assert_eq!(g.preflight_command(&register(2, 1, "cpu1", false)), Ok(()));
}

#[test]
fn preflight_of_clearing_current_activation() {
    let mut g = SemanticGraph::new();
    let clear = |activation_generation: u64, reason: &str| SemanticCommand::ClearHartCurrentActivation {
        hart: 1,
        hart_generation: 2,
        activation: 40,
        activation_generation,
        reason: reason.to_string(),
    };
    assert_eq!(
        g.preflight_command(&clear(1, "")),
        Err(CommandError::Precondition("clear hart current activation reason is empty"))
    );
    assert_eq!(g.preflight_command(&clear(1, "yield")), Err(CommandError::Precondition("hart generation is missing")));
    let mut h = hart_record(1, 2, 0, true, HartState::Running);
    h.current_activation = Some(40);
    h.current_activation_generation = Some(1);
    g.harts.push(h);
    assert_eq!(g.preflight_command(&clear(1, "yield")), Ok(()));
    assert_eq!(
        g.preflight_command(&clear(2, "yield")),
        Err(CommandError::Precondition("hart current activation generation mismatch"))
    );
}

#[test]
fn preflight_of_runnable_queue_ownership_and_dequeue() {
    let mut g = SemanticGraph::new();
    let bind = |hart: u64, hart_generation: u64| SemanticCommand::BindRunnableQueueOwner {
        queue: 7,
        queue_generation: 1,
        hart,
        hart_generation,
    };
    let dequeue = |activation: u64| SemanticCommand::DequeueRunnable { queue: 7, activation };
    assert_eq!(
        g.preflight_command(&bind(1, 1)),
        Err(CommandError::Precondition("runnable queue generation is missing or inactive"))
    );
    assert_eq!(g.preflight_command(&dequeue(40)), Err(CommandError::Precondition("runnable queue is missing")));
    g.runnable_queues.push(RunnableQueueRecord {
        id: 7,
        generation: 1,
        owner_hart: Some(1),
        owner_hart_generation: Some(1),
        state: RunnableQueueState::Active,
        entries: Vec::new(),
    });
    g.harts.push(hart_record(1, 1, 0, true, HartState::Running));
    g.harts.push(hart_record(2, 1, 1, false, HartState::Offline));
    g.harts.push(hart_record(3, 1, 2, false, HartState::Idle));
    assert_eq!(g.preflight_command(&bind(1, 1)), Err(CommandError::Precondition("runnable queue owner is already bound")));
    assert_eq!(
        g.preflight_command(&bind(2, 1)),
        Err(CommandError::Precondition("runnable queue owner hart generation is missing or unavailable"))
    );
    assert_eq!(
        g.preflight_command(&bind(3, 2)),
        Err(CommandError::Precondition("runnable queue owner hart generation is missing or unavailable"))
    );
    assert_eq!(g.preflight_command(&bind(3, 1)), Ok(()));
    assert_eq!(g.preflight_command(&dequeue(40)), Err(CommandError::Precondition("activation is not queued")));
    g.runnable_queues[0].entries.push(RunnableQueueEntry { activation: 40, activation_generation: 1 });
    assert_eq!(g.preflight_command(&dequeue(40)), Ok(()));
    assert_eq!(
        g.preflight_command(&bind(3, 1)),
        Err(CommandError::Precondition("runnable queue owner cannot change while entries are live"))
    );
    g.runnable_queues[0].state = RunnableQueueState::Retired;
    assert_eq!(g.preflight_command(&dequeue(40)), Err(CommandError::Precondition("runnable queue is not active")));
    assert_eq!(
        g.preflight_command(&bind(3, 1)),
        Err(CommandError::Precondition("runnable queue generation is missing or inactive"))
    );
}
