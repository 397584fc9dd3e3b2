use semantic_core::base::{
    BlockDriverCleanupRecord, FileHandleCapabilityRecord, FileObjectRecord, StoreRecord, WaitRecord,
};
use semantic_core::errors::SemanticInvariantError;
use semantic_core::graph::SemanticGraph;
use semantic_core::types::{WaitRestartPolicy, 
    BlockDriverCleanupState, ContractObjectKind, ContractObjectRef, DirectoryEntryKind, DirectoryObjectState,
    FileHandleCapabilityState, FileObjectState, SemanticWaitKind, StoreState, WaitState,
};

fn file_graph() -> SemanticGraph {
    let mut g = SemanticGraph::new();
    g.stores.push(StoreRecord {
        id: 2,
        generation: 1,
        role: "app".to_string(),
        package: "editor".to_string(),
        state: StoreState::Running,
    });
    g.file_objects.push(FileObjectRecord {
        id: 5,
        generation: 1,
        namespace: "home".to_string(),
        file_key: "notes".to_string(),
        path: "/home/notes".to_string(),
        file_size: 64,
        content_digest: 77,
        state: FileObjectState::Materialized,
    });
    assert!(g.record_directory_object_with_id(6, 5, 1, "home", "root", "/home", "notes", "notes", "/home/notes",
        DirectoryEntryKind::File, 64, 77, DirectoryObjectState::Materialized, ""));
    g.file_handle_capabilities.push(FileHandleCapabilityRecord {
        id: 4,
        generation: 1,
        owner_store: 2,
        owner_store_generation: 1,
        file_object: 5,
        file_object_generation: 1,
        directory_object: 6,
        directory_object_generation: 1,
        operation: "write".to_string(),
        byte_len: 64,
        state: FileHandleCapabilityState::Allowed,
    });
    g.waits.push(WaitRecord {
        id: 9,
        generation: 1,
        kind: SemanticWaitKind::FdWritable,
        blockers: vec![ContractObjectRef { kind: ContractObjectKind::FileHandleCapability, id: 4, generation: 1 }],
        owner_store: Some(2),
        owner_store_generation: Some(1),
        owner_task: None,
        deadline: None,
        restart_policy: WaitRestartPolicy::Restart,
        saved_context: None,
        state: WaitState::Pending,
        cancel_reason: None,
        errno: None,
    });
    assert!(g.record_fs_wait_with_id(1, 9, 1, 4, 1, "write", 3, ""));
    g
}

#[test]
fn fs_wait_audit_faults() {
    let mut g = file_graph();
    assert!(g.check_fs_wait_invariants().is_ok());
    g.waits.clear();
    assert_eq!(g.check_fs_wait_invariants(), Err(SemanticInvariantError::FsWaitMissingWait { fs_wait: 1, wait: 9 }));
    let mut g = file_graph();
    g.stores.clear();
    assert_eq!(g.check_fs_wait_invariants(), Err(SemanticInvariantError::FsWaitMissingStore { fs_wait: 1, store: 2 }));
    let mut g = file_graph();
    g.file_objects.clear();
    assert_eq!(g.check_fs_wait_invariants(), Err(SemanticInvariantError::FsWaitMissingFileObject { fs_wait: 1, file_object: 5 }));
    let mut g = file_graph();
    g.directory_objects.clear();
    assert_eq!(
        g.check_fs_wait_invariants(),
        Err(SemanticInvariantError::FsWaitMissingDirectoryObject { fs_wait: 1, directory_object: 6 })
    );
    let mut g = file_graph();
    g.file_handle_capabilities.clear();
    assert_eq!(
        g.check_fs_wait_invariants(),
        Err(SemanticInvariantError::FsWaitMissingFileHandleCapability { fs_wait: 1, file_handle_capability: 4 })
    );
    let mut g = file_graph();
    g.file_handle_capabilities[0].state = FileHandleCapabilityState::Revoked;
    assert_eq!(g.check_fs_wait_invariants(), Err(SemanticInvariantError::FsWaitInvalid { fs_wait: 1 }));
    let mut g = file_graph();
    let last = g.event_log.events.len() - 1;
    let event = g.event_log.events[last].id;
    g.event_log.events.remove(last);
    assert_eq!(g.check_fs_wait_invariants(), Err(SemanticInvariantError::FsWaitMissingEvent { fs_wait: 1, event }));
}

#[test]
fn directory_audit_faults() {
    let mut g = file_graph();
    assert!(g.check_directory_object_invariants().is_ok());
    g.file_objects[0].content_digest = 78;
    assert_eq!(g.check_directory_object_invariants(), Err(SemanticInvariantError::DirectoryObjectInvalid { directory_object: 6 }));
    let mut g = file_graph();
    g.file_objects[0].generation = 2;
    assert_eq!(
        g.check_directory_object_invariants(),
        Err(SemanticInvariantError::DirectoryObjectMissingFileObject { directory_object: 6, file_object: 5 })
    );
    let mut g = file_graph();
    g.event_log.events[0].labels.clear();
    assert_eq!(g.check_directory_object_invariants(), Err(SemanticInvariantError::DirectoryObjectMissingEvent { directory_object: 6 }));
}

fn recovery_graph() -> SemanticGraph {
    let mut g = SemanticGraph::new();
    g.block_driver_cleanups.push(BlockDriverCleanupRecord {
        id: 8,
        generation: 1,
        io_cleanup: 9,
        io_cleanup_generation: 1,
        backend: ContractObjectRef { kind: ContractObjectKind::VirtioBlkBackendObject, id: 10, generation: 1 },
        block_device: 11,
        block_device_generation: 1,
        driver_store: 2,
        driver_store_generation: 1,
        device: 3,
        device_generation: 1,
        driver_binding: 1,
        driver_binding_generation: 1,
        started_at_event: 4,
        completed_at_event: Some(7),
        cancelled_block_waits: Vec::new(),
        cancelled_wait_tokens: Vec::new(),
        released_dma_buffers: vec![ContractObjectRef { kind: ContractObjectKind::PageObject, id: 1, generation: 1 }],
        revoked_device_capabilities: Vec::new(),
        state: BlockDriverCleanupState::Completed,
    });
    assert!(g.record_block_recovery_benchmark_with_id(1, "unplug", 8, 1, 9, 1, 4, 7, 0, 0, 1, 0, 50, 100, ""));
    g
}

#[test]
fn recovery_benchmark_audit_faults() {
    let mut g = recovery_graph();
    assert!(g.check_block_recovery_benchmark_invariants().is_ok());
    g.block_recovery_benchmarks[0].recovery_nanos = 500;
    assert_eq!(
        g.check_block_recovery_benchmark_invariants(),
        Err(SemanticInvariantError::BlockRecoveryBenchmarkInvalid { benchmark: 1 })
    );
    let mut g = recovery_graph();
    g.block_driver_cleanups[0].state = BlockDriverCleanupState::Started;
    assert_eq!(
        g.check_block_recovery_benchmark_invariants(),
        Err(SemanticInvariantError::BlockRecoveryBenchmarkMissingTarget {
            benchmark: 1,
            target: ContractObjectRef { kind: ContractObjectKind::BlockDriverCleanup, id: 8, generation: 1 },
        })
    );
    let mut g = recovery_graph();
    g.block_driver_cleanups[0].released_dma_buffers.clear();
    assert_eq!(
        g.check_block_recovery_benchmark_invariants(),
        Err(SemanticInvariantError::BlockRecoveryBenchmarkMetricMismatch { benchmark: 1 })
    );
    let mut g = recovery_graph();
    g.event_log.events.clear();
    assert_eq!(
        g.check_block_recovery_benchmark_invariants(),
        Err(SemanticInvariantError::BlockRecoveryBenchmarkMissingEvent { benchmark: 1, event: 1 })
    );
}
