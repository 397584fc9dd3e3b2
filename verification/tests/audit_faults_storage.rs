use semantic_core::base::{
    BlockRequestObjectRecord, CapabilityRecord, DeviceCapabilityRecord, DeviceObjectRecord,
    FakeBlockBackendObjectRecord, ResourceRecord, StoreRecord, WaitRecord,
};
use semantic_core::block_request_queue::BlockRequestQueueEntryRef;
use semantic_core::errors::SemanticInvariantError;
use semantic_core::graph::SemanticGraph;
use semantic_core::types::{WaitRestartPolicy, 
    AuthorityObjectRef, BlockPendingIoAction, BlockRequestObjectState, BlockRequestOperation, CapabilityClass,
    ContractObjectKind, ContractObjectRef, DeviceCapabilityState, DeviceObjectState, FakeBlockBackendObjectState,
    ResourceKind, SemanticWaitKind, StoreState, WaitState,
};

fn queue_graph() -> SemanticGraph {
    let mut g = SemanticGraph::new();
    g.resources.push(ResourceRecord { id: 7, generation: 1, kind: ResourceKind::BlockDevice, live: true });
    g.device_objects.push(DeviceObjectRecord {
        id: 3,
        generation: 1,
        class: "block-device".to_string(),
        resource: 7,
        resource_generation: 1,
        state: DeviceObjectState::Registered,
    });
    assert!(g.record_block_device_object_with_id(1, "disk0", 3, 1, 512, 2048, false, 128, ""));
    g.fake_block_backends.push(FakeBlockBackendObjectRecord {
        id: 8,
        generation: 1,
        block_device: 1,
        block_device_generation: 1,
        read_only: false,
        deterministic_seed: 9,
        state: FakeBlockBackendObjectState::Bound,
    });
    g.block_request_objects.push(BlockRequestObjectRecord {
        id: 11,
        generation: 1,
        block_device: 1,
        block_device_generation: 1,
        block_range: 5,
        block_range_generation: 1,
        operation: BlockRequestOperation::Read,
        sequence: 4,
        byte_len: 512,
        state: BlockRequestObjectState::Submitted,
    });
    let backend = ContractObjectRef { kind: ContractObjectKind::FakeBlockBackendObject, id: 8, generation: 1 };
    let entries = vec![BlockRequestQueueEntryRef { request: 11, request_generation: 1, completion: None, completion_generation: None }];
    assert!(g.record_block_request_queue_with_id(2, backend, 1, 1, 2, &entries, ""));
    g
}

#[test]
fn request_queue_audit_faults() {
    let backend = ContractObjectRef { kind: ContractObjectKind::FakeBlockBackendObject, id: 8, generation: 1 };
    let mut g = queue_graph();
    assert!(g.check_block_request_queue_invariants().is_ok());
    g.fake_block_backends.clear();
    assert_eq!(
        g.check_block_request_queue_invariants(),
        Err(SemanticInvariantError::BlockRequestQueueMissingBackend { queue: 2, backend })
    );
    let mut g = queue_graph();
    g.block_device_objects.clear();
    assert_eq!(
        g.check_block_request_queue_invariants(),
        Err(SemanticInvariantError::BlockRequestQueueMissingBlockDevice { queue: 2, block_device: 1 })
    );
    let mut g = queue_graph();
    g.block_request_queues[0].pending_count = 0;
    assert_eq!(g.check_block_request_queue_invariants(), Err(SemanticInvariantError::BlockRequestQueueInvalid { queue: 2 }));
    let mut g = queue_graph();
    g.block_request_objects.clear();
    assert_eq!(
        g.check_block_request_queue_invariants(),
        Err(SemanticInvariantError::BlockRequestQueueMissingRequest { queue: 2, block_request: 11 })
    );
    let mut g = queue_graph();
    let last = g.event_log.events.len() - 1;
    g.event_log.events.remove(last);
    assert_eq!(g.check_block_request_queue_invariants(), Err(SemanticInvariantError::BlockRequestQueueMissingEvent { queue: 2 }));
}

fn policy_graph() -> SemanticGraph {
    let mut g = SemanticGraph::new();
    g.block_request_objects.push(BlockRequestObjectRecord {
        id: 11,
        generation: 1,
        block_device: 2,
        block_device_generation: 1,
        block_range: 3,
        block_range_generation: 1,
        operation: BlockRequestOperation::Read,
        sequence: 1,
        byte_len: 4096,
        state: BlockRequestObjectState::Submitted,
    });
    g.waits.push(WaitRecord {
        id: 21,
        generation: 1,
        kind: SemanticWaitKind::DriverCompletion,
        blockers: vec![ContractObjectRef { kind: ContractObjectKind::BlockRequestObject, id: 11, generation: 1 }],
        owner_store: None,
        owner_store_generation: None,
        owner_task: None,
        deadline: None,
        restart_policy: WaitRestartPolicy::Restart,
        saved_context: None,
        state: WaitState::Pending,
        cancel_reason: None,
        errno: None,
    });
    assert!(g.record_block_wait_with_id(31, 21, 1, 11, 1, ""));
    assert!(g.apply_block_pending_io_policy_with_id(1, 31, 1, BlockPendingIoAction::Cancel, None, None, 125, 0, 0, ""));
    g
}

#[test]
fn pending_io_policy_audit_faults() {
    let mut g = policy_graph();
    assert!(g.check_block_pending_io_policy_invariants().is_ok());
    g.block_pending_io_policies[0].errno = 0;
    assert_eq!(g.check_block_pending_io_policy_invariants(), Err(SemanticInvariantError::BlockPendingIoPolicyInvalid { policy: 1 }));
    let mut g = policy_graph();
    g.block_waits.clear();
    assert_eq!(
        g.check_block_pending_io_policy_invariants(),
        Err(SemanticInvariantError::BlockPendingIoPolicyMissingBlockWait { policy: 1, block_wait: 31 })
    );
    let mut g = policy_graph();
    g.block_request_objects.clear();
    assert_eq!(
        g.check_block_pending_io_policy_invariants(),
        Err(SemanticInvariantError::BlockPendingIoPolicyMissingRequest { policy: 1, block_request: 11 })
    );
    let mut g = policy_graph();
    let last = g.event_log.events.len() - 1;
    let event = g.event_log.events[last].id;
    g.event_log.events.remove(last);
    assert_eq!(
        g.check_block_pending_io_policy_invariants(),
        Err(SemanticInvariantError::BlockPendingIoPolicyMissingEvent { policy: 1, event })
    );
}

fn device_ref() -> ContractObjectRef {
    ContractObjectRef { kind: ContractObjectKind::DeviceObject, id: 3, generation: 1 }
}

fn binding_graph() -> SemanticGraph {
    let mut g = SemanticGraph::new();
    g.stores.push(StoreRecord {
        id: 2,
        generation: 1,
        role: "driver".to_string(),
        package: "virtio-blk".to_string(),
        state: StoreState::Running,
    });
    g.device_objects.push(DeviceObjectRecord {
        id: 3,
        generation: 1,
        class: "block-device".to_string(),
        resource: 7,
        resource_generation: 1,
        state: DeviceObjectState::Registered,
    });
    g.device_capabilities.push(DeviceCapabilityRecord {
        id: 4,
        generation: 1,
        driver_store: 2,
        driver_store_generation: 1,
        target: device_ref(),
        class: CapabilityClass::Device,
        operation: "probe".to_string(),
        capability: 5,
        capability_generation: 1,
        state: DeviceCapabilityState::Active,
    });
    g.capabilities.push(CapabilityRecord {
        id: 5,
        generation: 1,
        subject: "virtio-blk".to_string(),
        object_ref: Some(AuthorityObjectRef { class: CapabilityClass::Device, object: device_ref() }),
        operations: vec!["probe".to_string()],
        owner_store: Some(2),
        owner_store_generation: Some(1),
        revoked: false,
    });
    assert!(g.record_driver_store_binding_with_id(1, 2, 1, 3, 1, 4, 1, ""));
    g
}

#[test]
fn driver_binding_audit_faults() {
    let mut g = binding_graph();
    g.stores.clear();
    assert_eq!(
        g.check_driver_store_binding_invariants(),
        Err(SemanticInvariantError::DriverStoreBindingMissingStore { binding: 1, store: 2 })
    );
    let mut g = binding_graph();
    g.device_objects.clear();
    assert_eq!(
        g.check_driver_store_binding_invariants(),
        Err(SemanticInvariantError::DriverStoreBindingMissingDevice { binding: 1, device: 3 })
    );
    let mut g = binding_graph();
    g.device_capabilities.clear();
    assert_eq!(
        g.check_driver_store_binding_invariants(),
        Err(SemanticInvariantError::DriverStoreBindingMissingCapabilityEvidence { binding: 1, device_capability: 4 })
    );
    let mut g = binding_graph();
    g.device_capabilities[0].state = DeviceCapabilityState::Revoked;
    assert_eq!(g.check_driver_store_binding_invariants(), Err(SemanticInvariantError::DriverStoreBindingInvalid { binding: 1 }));
    let mut g = binding_graph();
    g.event_log.events.clear();
    assert_eq!(g.check_driver_store_binding_invariants(), Err(SemanticInvariantError::DriverStoreBindingMissingEvent { binding: 1 }));
}
