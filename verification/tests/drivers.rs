use semantic_core::base::{
    BlockDriverCleanupRecord, CapabilityRecord, DeviceCapabilityRecord, DeviceObjectRecord, StoreRecord,
};
use semantic_core::graph::SemanticGraph;
use semantic_core::types::{
    AuthorityObjectRef, BlockDriverCleanupState, CapabilityClass, ContractObjectKind, ContractObjectRef,
    DeviceCapabilityState, DeviceObjectState, DriverStoreBindingState, StoreState,
};

fn device_ref() -> ContractObjectRef {
    ContractObjectRef { kind: ContractObjectKind::DeviceObject, id: 3, generation: 1 }
}

fn driver_graph(operation: &str) -> SemanticGraph {
    let mut g = SemanticGraph::new();
    g.stores.push(StoreRecord {
        id: 2,
        generation: 1,
        role: "driver".to_string(),
        package: "virtio-blk".to_string(),
        state: StoreState::Running,
    });
    g.device_objects.push(DeviceObjectRecord {
        id: 3,
        generation: 1,
        class: "block-device".to_string(),
        resource: 7,
        resource_generation: 1,
        state: DeviceObjectState::Registered,
    });
    g.device_capabilities.push(DeviceCapabilityRecord {
        id: 4,
        generation: 1,
        driver_store: 2,
        driver_store_generation: 1,
        target: device_ref(),
        class: CapabilityClass::Device,
        operation: operation.to_string(),
        capability: 5,
        capability_generation: 1,
        state: DeviceCapabilityState::Active,
    });
    g.capabilities.push(CapabilityRecord {
        id: 5,
        generation: 1,
        subject: "virtio-blk".to_string(),
        object_ref: Some(AuthorityObjectRef { class: CapabilityClass::Device, object: device_ref() }),
        operations: vec!["probe".to_string(), "bind-driver".to_string()],
        owner_store: Some(2),
        owner_store_generation: Some(1),
        revoked: false,
    });
    g
}

#[test]
fn driver_store_binds_with_device_capability() {
    let mut g = driver_graph("bind-driver");
    assert_eq!(g.validate_driver_store_binding(1, 2, 1, 3, 1, 4, 1), Ok(0));
    assert!(g.record_driver_store_binding_with_id(1, 2, 1, 3, 1, 4, 1, "bind"));
    assert_eq!(g.driver_store_binding_count(), 1);
    let b = &g.driver_store_bindings()[0];
    assert_eq!(b.capability, 5);
    assert_eq!(b.state, DriverStoreBindingState::Bound);
    assert_eq!(g.next_driver_store_binding_id, 2);
    assert_eq!(
        g.validate_driver_store_binding(6, 2, 1, 3, 1, 4, 1),
        Err("driver store binding device already has an active driver")
    );
    assert!(g.check_driver_store_binding_invariants().is_ok());
}

#[test]
fn driver_store_binding_errors() {
    let g = driver_graph("read");
    assert_eq!(
        g.validate_driver_store_binding(1, 2, 1, 3, 1, 4, 1),
        Err("driver store binding device capability does not authorize binding")
    );
    assert_eq!(g.validate_driver_store_binding(0, 2, 1, 3, 1, 4, 1), Err("driver store binding id=0 is invalid"));
    assert_eq!(
        g.validate_driver_store_binding(1, 2, 2, 3, 1, 4, 1),
        Err("driver store binding store generation is missing")
    );
    let mut g = driver_graph("probe");
    g.stores[0].role = "app".to_string();
    assert_eq!(
        g.validate_driver_store_binding(1, 2, 1, 3, 1, 4, 1),
        Err("driver store binding store role is not driver")
    );
    let mut g = driver_graph("probe");
    g.capabilities[0].revoked = true;
    assert_eq!(
        g.validate_driver_store_binding(1, 2, 1, 3, 1, 4, 1),
        Err("driver store binding capability record is not active for device")
    );
    let mut g = driver_graph("probe");
    g.capabilities.clear();
    assert_eq!(
        g.validate_driver_store_binding(1, 2, 1, 3, 1, 4, 1),
        Err("driver store binding capability record is missing")
    );
}

fn cleanup_graph() -> SemanticGraph {
    let mut g = SemanticGraph::new();
    g.block_driver_cleanups.push(BlockDriverCleanupRecord {
        id: 8,
        generation: 1,
        io_cleanup: 9,
        io_cleanup_generation: 1,
        backend: ContractObjectRef { kind: ContractObjectKind::VirtioBlkBackendObject, id: 10, generation: 1 },
        block_device: 11,
        block_device_generation: 1,
        driver_store: 2,
        driver_store_generation: 1,
        device: 3,
        device_generation: 1,
        driver_binding: 1,
        driver_binding_generation: 1,
        started_at_event: 4,
        completed_at_event: Some(7),
        cancelled_block_waits: vec![ContractObjectRef { kind: ContractObjectKind::BlockRequestObject, id: 1, generation: 1 }],
        cancelled_wait_tokens: vec![ContractObjectRef { kind: ContractObjectKind::BlockRequestObject, id: 2, generation: 1 }],
        released_dma_buffers: Vec::new(),
        revoked_device_capabilities: Vec::new(),
        state: BlockDriverCleanupState::Completed,
    });
    g
}

#[test]
fn recovery_benchmark_matches_cleanup_effects() {
    let mut g = cleanup_graph();
    assert_eq!(
        g.validate_block_recovery_benchmark(1, "unplug", 8, 1, 9, 1, 4, 7, 1, 2, 0, 0, 50, 100),
        Err("block recovery benchmark cleanup effect counts do not match")
    );
    assert_eq!(
        g.validate_block_recovery_benchmark(1, "unplug", 8, 1, 9, 1, 4, 8, 1, 1, 0, 0, 50, 100),
        Err("block recovery benchmark cleanup references do not match")
    );
    assert_eq!(
        g.validate_block_recovery_benchmark(1, "unplug", 8, 1, 9, 1, 7, 4, 1, 1, 0, 0, 50, 100),
        Err("block recovery benchmark event order is invalid")
    );
    assert_eq!(
        g.validate_block_recovery_benchmark(1, "unplug", 8, 1, 9, 1, 4, 7, 1, 1, 0, 0, 150, 100),
        Err("block recovery benchmark exceeds recovery budget")
    );
    assert_eq!(
        g.validate_block_recovery_benchmark(1, "unplug", 8, 1, 9, 1, 4, 7, 0, 0, 0, 0, 50, 100),
        Err("block recovery benchmark requires cleanup effects")
    );
    assert_eq!(
        g.validate_block_recovery_benchmark(u64::MAX, "unplug", 8, 1, 9, 1, 4, 7, 1, 1, 0, 0, 50, 100),
        Err("block recovery benchmark id cannot advance generation cursor")
    );
    assert!(g.record_block_recovery_benchmark_with_id(1, "unplug", 8, 1, 9, 1, 4, 7, 1, 1, 0, 0, 50, 100, "b"));
    let b = &g.block_recovery_benchmarks()[0];
    assert_eq!(b.block_device, 11);
    assert_eq!(b.driver_binding, 1);
    assert_eq!(g.block_recovery_benchmark_count(), 1);
    assert_eq!(
        g.validate_block_recovery_benchmark(1, "unplug", 8, 1, 9, 1, 4, 7, 1, 1, 0, 0, 50, 100),
        Err("block recovery benchmark already exists")
    );
    assert!(g.check_block_recovery_benchmark_invariants().is_ok());
}

#[test]
fn rebinding_after_release_is_reported_as_duplicate_by_the_audit() {
    let mut g = driver_graph("probe");
    assert!(g.record_driver_store_binding_with_id(1, 2, 1, 3, 1, 4, 1, ""));
    g.driver_store_bindings[0].state = DriverStoreBindingState::Released;
    g.device_capabilities[0].state = DeviceCapabilityState::Revoked;
    g.capabilities[0].revoked = true;
    assert!(g.check_driver_store_binding_invariants().is_ok());
    g.device_capabilities.push(DeviceCapabilityRecord {
        id: 14,
        generation: 1,
        driver_store: 2,
        driver_store_generation: 1,
        target: device_ref(),
        class: CapabilityClass::Device,
        operation: "probe".to_string(),
        capability: 15,
        capability_generation: 1,
        state: DeviceCapabilityState::Active,
    });
    g.capabilities.push(CapabilityRecord {
        id: 15,
        generation: 1,
        subject: "virtio-blk".to_string(),
        object_ref: Some(AuthorityObjectRef { class: CapabilityClass::Device, object: device_ref() }),
        operations: vec!["probe".to_string()],
        owner_store: Some(2),
        owner_store_generation: Some(1),
        revoked: false,
    });
    assert!(g.record_driver_store_binding_with_id(2, 2, 1, 3, 1, 14, 1, ""));
    assert_eq!(
        g.check_driver_store_binding_invariants(),
        Err(semantic_core::errors::SemanticInvariantError::DriverStoreBindingDuplicateDevice { binding: 2, device: 3 })
    );
}
