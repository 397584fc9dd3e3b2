use semantic_core::base::{
    BlockCompletionObjectRecord, BlockRequestObjectRecord, DeviceObjectRecord, FakeBlockBackendObjectRecord,
    HartRecord, NetworkStackAdapterRecord, QueueObjectRecord, ResourceRecord, RunnableQueueRecord,
    SchedulerDecisionRecord, SocketObjectRecord, StoreRecord, WaitRecord,
};
use semantic_core::errors::SemanticInvariantError;
use semantic_core::graph::SemanticGraph;
use semantic_core::guest_memory::{PageObjectRecord, PageObjectRef};
use semantic_core::types::{WaitRestartPolicy, 
    BlockCompletionObjectState, BlockCompletionStatus, BlockRequestObjectState, BlockRequestOperation,
    ContractObjectKind, ContractObjectRef, DescriptorObjectAccess, DeviceObjectState, FakeBlockBackendObjectState,
    HartState, NetworkStackAdapterState, QueueObjectState, ResourceKind, RunnableQueueState, SchedulerDecisionState,
    SemanticWaitKind, SocketObjectState, StoreState, WaitState,
};

fn block_graph() -> SemanticGraph {
    let mut g = SemanticGraph::new();
    g.resources.push(ResourceRecord { id: 7, generation: 1, kind: ResourceKind::BlockDevice, live: true });
    g.device_objects.push(DeviceObjectRecord {
        id: 3,
        generation: 1,
        class: "block-device".to_string(),
        resource: 7,
        resource_generation: 1,
        state: DeviceObjectState::Registered,
    });
    assert!(g.record_block_device_object_with_id(1, "disk0", 3, 1, 512, 2048, false, 128, ""));
    assert!(g.record_block_range_object_with_id(5, 1, 1, 10, 4, ""));
    g
}

#[test]
fn block_device_audit_faults() {
    let mut g = block_graph();
    g.event_log.events.clear();
    assert_eq!(
        g.check_block_device_object_invariants(),
        Err(SemanticInvariantError::BlockDeviceObjectMissingEvent { block_device: 1 })
    );
    let mut g = block_graph();
    g.block_device_objects[0].name = String::new();
    assert_eq!(g.check_block_device_object_invariants(), Err(SemanticInvariantError::BlockDeviceObjectInvalid { block_device: 1 }));
    let mut g = block_graph();
    g.device_objects.clear();
    assert_eq!(
        g.check_block_device_object_invariants(),
        Err(SemanticInvariantError::BlockDeviceObjectMissingDevice { block_device: 1, device: 3 })
    );
    assert!(g.check_invariants().is_err());
}

#[test]
fn block_range_audit_faults() {
    let mut g = block_graph();
    g.block_range_objects[0].byte_len = 1;
    assert_eq!(g.check_block_range_object_invariants(), Err(SemanticInvariantError::BlockRangeObjectInvalid { block_range: 5 }));
    let mut g = block_graph();
    g.block_range_objects[0].block_device_generation = 2;
    assert_eq!(
        g.check_block_range_object_invariants(),
        Err(SemanticInvariantError::BlockRangeObjectMissingDevice { block_range: 5, block_device: 1 })
    );
    let mut g = block_graph();
    g.event_log.events.remove(1);
    assert_eq!(g.check_block_range_object_invariants(), Err(SemanticInvariantError::BlockRangeObjectMissingEvent { block_range: 5 }));
    assert!(g.check_block_device_object_invariants().is_ok());
}

fn descriptor_graph() -> SemanticGraph {
    let mut g = SemanticGraph::new();
    g.queue_objects.push(QueueObjectRecord { id: 4, generation: 1, depth: 2, state: QueueObjectState::Registered });
    assert!(g.record_descriptor_object_with_id(1, 4, 1, 0, DescriptorObjectAccess::ReadWrite, 64, ""));
    g
}

#[test]
fn descriptor_audit_faults() {
    let mut g = descriptor_graph();
    g.queue_objects.clear();
    assert_eq!(
        g.check_descriptor_object_invariants(),
        Err(SemanticInvariantError::DescriptorObjectMissingQueue { descriptor: 1, queue: 4 })
    );
    let mut g = descriptor_graph();
    g.descriptor_objects[0].length = 0;
    assert_eq!(g.check_descriptor_object_invariants(), Err(SemanticInvariantError::DescriptorObjectInvalid { descriptor: 1 }));
    let mut g = descriptor_graph();
    assert!(g.record_descriptor_object_with_id(2, 4, 1, 1, DescriptorObjectAccess::ReadOnly, 64, ""));
    g.descriptor_objects[1].slot = 0;
    assert_eq!(
        g.check_descriptor_object_invariants(),
        Err(SemanticInvariantError::DescriptorObjectDuplicateSlot { descriptor: 2, queue: 4, slot: 0 })
    );
    let mut g = descriptor_graph();
    g.event_log.events.clear();
    assert_eq!(g.check_descriptor_object_invariants(), Err(SemanticInvariantError::DescriptorObjectMissingEvent { descriptor: 1 }));
}

fn block_wait_graph() -> SemanticGraph {
    let mut g = SemanticGraph::new();
    g.block_request_objects.push(BlockRequestObjectRecord {
        id: 11,
        generation: 1,
        block_device: 2,
        block_device_generation: 1,
        block_range: 3,
        block_range_generation: 1,
        operation: BlockRequestOperation::Read,
        sequence: 1,
        byte_len: 4096,
        state: BlockRequestObjectState::Submitted,
    });
    g.waits.push(WaitRecord {
        id: 21,
        generation: 1,
        kind: SemanticWaitKind::DriverCompletion,
        blockers: vec![ContractObjectRef { kind: ContractObjectKind::BlockRequestObject, id: 11, generation: 1 }],
        owner_store: None,
        owner_store_generation: None,
        owner_task: None,
        deadline: None,
        restart_policy: WaitRestartPolicy::Restart,
        saved_context: None,
        state: WaitState::Pending,
        cancel_reason: None,
        errno: None,
    });
    assert!(g.record_block_wait_with_id(31, 21, 1, 11, 1, ""));
    g
}

#[test]
fn block_wait_audit_faults() {
    let mut g = block_wait_graph();
    g.waits.clear();
    assert_eq!(g.check_block_wait_invariants(), Err(SemanticInvariantError::BlockWaitMissingWait { block_wait: 31, wait: 21 }));
    let mut g = block_wait_graph();
    g.block_request_objects.clear();
    assert_eq!(
        g.check_block_wait_invariants(),
        Err(SemanticInvariantError::BlockWaitMissingRequest { block_wait: 31, block_request: 11 })
    );
    let mut g = block_wait_graph();
    g.block_waits[0].byte_len = 1;
    assert_eq!(g.check_block_wait_invariants(), Err(SemanticInvariantError::BlockWaitInvalid { block_wait: 31 }));
    let mut g = block_wait_graph();
    g.waits[0].state = WaitState::Cancelled;
    assert_eq!(g.check_block_wait_invariants(), Err(SemanticInvariantError::BlockWaitInvalid { block_wait: 31 }));
    let mut g = block_wait_graph();
    g.event_log.events.clear();
    assert_eq!(g.check_block_wait_invariants(), Err(SemanticInvariantError::BlockWaitMissingEvent { block_wait: 31, event: 1 }));
}

#[test]
fn block_wait_audit_reports_a_resolution_without_completion() {
    let mut g = block_wait_graph();
    g.block_completion_objects.push(BlockCompletionObjectRecord {
        id: 41,
        generation: 1,
        block_request: 11,
        block_request_generation: 1,
        block_device: 2,
        block_device_generation: 1,
        block_range: 3,
        block_range_generation: 1,
        sequence: 1,
        completed_bytes: 4096,
        status: BlockCompletionStatus::Success,
        state: BlockCompletionObjectState::Recorded,
    });
    assert!(g.resolve_block_wait_with_completion(31, 1, 41, 1, ""));
    g.block_completion_objects.clear();
    assert_eq!(
        g.check_block_wait_invariants(),
        Err(SemanticInvariantError::BlockWaitMissingCompletion { block_wait: 31, block_completion: 41 })
    );
}

fn write_graph() -> SemanticGraph {
    let mut g = block_graph();
    g.fake_block_backends.push(FakeBlockBackendObjectRecord {
        id: 8,
        generation: 1,
        block_device: 1,
        block_device_generation: 1,
        read_only: false,
        deterministic_seed: 9,
        state: FakeBlockBackendObjectState::Bound,
    });
    g.block_request_objects.push(BlockRequestObjectRecord {
        id: 11,
        generation: 1,
        block_device: 1,
        block_device_generation: 1,
        block_range: 5,
        block_range_generation: 1,
        operation: BlockRequestOperation::Write,
        sequence: 1,
        byte_len: 2048,
        state: BlockRequestObjectState::Completed,
    });
    g.block_completion_objects.push(BlockCompletionObjectRecord {
        id: 21,
        generation: 1,
        block_request: 11,
        block_request_generation: 1,
        block_device: 1,
        block_device_generation: 1,
        block_range: 5,
        block_range_generation: 1,
        sequence: 1,
        completed_bytes: 2048,
        status: BlockCompletionStatus::Success,
        state: BlockCompletionObjectState::Recorded,
    });
    let digest = SemanticGraph::expected_block_write_payload_digest_v1(9, 1, 1, 5, 1, 10, 4, 1, 2048);
    let backend = ContractObjectRef { kind: ContractObjectKind::FakeBlockBackendObject, id: 8, generation: 1 };
    assert!(g.record_block_write_path_with_id(4, backend, 11, 1, 21, 1, digest, ""));
    g
}

#[test]
fn block_write_path_audit_faults() {
    let backend = ContractObjectRef { kind: ContractObjectKind::FakeBlockBackendObject, id: 8, generation: 1 };
    let mut g = write_graph();
    assert!(g.check_block_write_path_invariants().is_ok());
    g.fake_block_backends.clear();
    assert_eq!(
        g.check_block_write_path_invariants(),
        Err(SemanticInvariantError::BlockWritePathMissingBackend { write_path: 4, backend })
    );
    let mut g = write_graph();
    g.block_request_objects.clear();
    assert_eq!(
        g.check_block_write_path_invariants(),
        Err(SemanticInvariantError::BlockWritePathMissingRequest { write_path: 4, block_request: 11 })
    );
    let mut g = write_graph();
    g.block_completion_objects.clear();
    assert_eq!(
        g.check_block_write_path_invariants(),
        Err(SemanticInvariantError::BlockWritePathMissingCompletion { write_path: 4, block_completion: 21 })
    );
    let mut g = write_graph();
    g.block_write_paths[0].payload_digest ^= 1;
    assert_eq!(g.check_block_write_path_invariants(), Err(SemanticInvariantError::BlockWritePathInvalid { write_path: 4 }));
}

fn network_graph() -> SemanticGraph {
    let mut g = SemanticGraph::new();
    g.stores.push(StoreRecord {
        id: 2,
        generation: 1,
        role: "app".to_string(),
        package: "web".to_string(),
        state: StoreState::Running,
    });
    g.network_stack_adapters.push(NetworkStackAdapterRecord { id: 3, generation: 1, state: NetworkStackAdapterState::Bound });
    g.socket_objects.push(SocketObjectRecord {
        id: 5,
        generation: 1,
        adapter: 3,
        adapter_generation: 1,
        owner_store: 2,
        owner_store_generation: 1,
        family: "inet".to_string(),
        transport: "udp".to_string(),
        state: SocketObjectState::Created,
    });
    assert!(g.record_endpoint_object_with_id(1, 5, 1, [0; 4], 0, [0; 4], 0, ""));
    g
}

#[test]
fn endpoint_audit_faults() {
    let mut g = network_graph();
    g.socket_objects.clear();
    assert_eq!(
        g.check_endpoint_object_invariants(),
        Err(SemanticInvariantError::EndpointObjectMissingSocket { endpoint: 1, socket: 5 })
    );
    let mut g = network_graph();
    g.network_stack_adapters.clear();
    assert_eq!(
        g.check_endpoint_object_invariants(),
        Err(SemanticInvariantError::EndpointObjectMissingAdapter { endpoint: 1, adapter: 3 })
    );
    let mut g = network_graph();
    g.stores.clear();
    assert_eq!(
        g.check_endpoint_object_invariants(),
        Err(SemanticInvariantError::EndpointObjectMissingOwnerStore { endpoint: 1, store: 2 })
    );
    let mut g = network_graph();
    g.endpoint_objects[0].local_port = 80;
    assert_eq!(g.check_endpoint_object_invariants(), Err(SemanticInvariantError::EndpointObjectInvalid { endpoint: 1 }));
    let mut g = network_graph();
    g.event_log.events[0].labels.clear();
    assert_eq!(g.check_endpoint_object_invariants(), Err(SemanticInvariantError::EndpointObjectMissingEvent { endpoint: 1 }));
}

fn hart(id: u64, generation: u64, state: HartState) -> HartRecord {
    HartRecord {
        id,
        generation,
        hardware_id: id,
        label: format!("hart{id}"),
        boot: id == 1,
        state,
        current_activation: None,
        current_activation_generation: None,
    }
}

fn scheduler_graph() -> SemanticGraph {
    let mut g = SemanticGraph::new();
    g.harts.push(hart(1, 1, HartState::Running));
    g.harts.push(hart(2, 3, HartState::Idle));
    g.runnable_queues.push(RunnableQueueRecord {
        id: 7,
        generation: 1,
        owner_hart: Some(2),
        owner_hart_generation: Some(3),
        state: RunnableQueueState::Active,
        entries: Vec::new(),
    });
    g.scheduler_decisions.push(SchedulerDecisionRecord {
        id: 9,
        generation: 1,
        queue: 7,
        queue_generation: 1,
        selected_activation: 11,
        selected_activation_generation: 1,
        state: SchedulerDecisionState::Recorded,
    });
    assert!(g.record_cross_hart_scheduler_decision_with_id(1, 9, 1, 1, 1, 2, 3, "balance", ""));
    g
}

#[test]
fn cross_hart_audit_faults() {
    let mut g = scheduler_graph();
    g.scheduler_decisions[0].state = SchedulerDecisionState::Dropped;
    assert_eq!(
        g.check_cross_hart_scheduler_invariants(),
        Err(SemanticInvariantError::CrossHartSchedulerDecisionMissingDecision { cross_decision: 1, decision: 9 })
    );
    let mut g = scheduler_graph();
    g.harts.remove(1);
    assert_eq!(
        g.check_cross_hart_scheduler_invariants(),
        Err(SemanticInvariantError::CrossHartSchedulerDecisionMissingHart { cross_decision: 1, hart: 2 })
    );
    let mut g = scheduler_graph();
    g.harts[0].generation = 0;
    assert_eq!(
        g.check_cross_hart_scheduler_invariants(),
        Err(SemanticInvariantError::CrossHartSchedulerDecisionHartGenerationMismatch { cross_decision: 1, hart: 1 })
    );
    let mut g = scheduler_graph();
    g.runnable_queues[0].owner_hart = Some(1);
    assert_eq!(
        g.check_cross_hart_scheduler_invariants(),
        Err(SemanticInvariantError::CrossHartSchedulerDecisionQueueOwnerMismatch { cross_decision: 1, queue: 7 })
    );
    let mut g = scheduler_graph();
    g.hart_event_attributions.clear();
    assert_eq!(
        g.check_cross_hart_scheduler_invariants(),
        Err(SemanticInvariantError::CrossHartSchedulerDecisionMissingHartEventAttribution { cross_decision: 1, event: 1 })
    );
    let mut g = scheduler_graph();
    g.cross_hart_scheduler_decisions[0].selected_activation = 0;
    assert_eq!(
        g.check_cross_hart_scheduler_invariants(),
        Err(SemanticInvariantError::CrossHartSchedulerDecisionInvalid { cross_decision: 1 })
    );
}

#[test]
fn guest_memory_audit_fault() {
    let mut g = SemanticGraph::new();
    g.page_objects.push(PageObjectRecord { page: PageObjectRef { id: 1, generation: 2 }, generation: 1, dirty_generation: 1 });
    assert_eq!(g.check_guest_memory_invariants(), Err(SemanticInvariantError::InvalidGuestMemory));
    assert_eq!(g.check_invariants(), Err(SemanticInvariantError::InvalidGuestMemory));
}
