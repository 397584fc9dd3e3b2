use semantic_core::base::{
    BlockCompletionObjectRecord, BlockRequestObjectRecord, DeviceObjectRecord, FakeBlockBackendObjectRecord,
    FileHandleCapabilityRecord, FileObjectRecord, ResourceRecord, StoreRecord, WaitRecord,
};
use semantic_core::block_request_queue::BlockRequestQueueEntryRef;
use semantic_core::graph::SemanticGraph;
use semantic_core::types::{WaitRestartPolicy, 
    BlockCompletionObjectState, BlockCompletionStatus, BlockRequestObjectState, BlockRequestOperation,
    BlockRequestQueueEntryState, ContractObjectKind, ContractObjectRef, DeviceObjectState, DirectoryEntryKind,
    DirectoryObjectState, FileObjectState,
    FakeBlockBackendObjectState, FileHandleCapabilityState, FsWaitState, ResourceKind, SemanticWaitKind, StoreState,
    WaitCancelReason, WaitState,
};

fn backend_ref() -> ContractObjectRef {
    ContractObjectRef { kind: ContractObjectKind::FakeBlockBackendObject, id: 8, generation: 1 }
}

fn request(id: u64, sequence: u64, operation: BlockRequestOperation, state: BlockRequestObjectState) -> BlockRequestObjectRecord {
    BlockRequestObjectRecord {
        id,
        generation: 1,
        block_device: 1,
        block_device_generation: 1,
        block_range: 5,
        block_range_generation: 1,
        operation,
        sequence,
        byte_len: 2048,
        state,
    }
}

fn completion_for(id: u64, request: u64, sequence: u64) -> BlockCompletionObjectRecord {
    BlockCompletionObjectRecord {
        id,
        generation: 1,
        block_request: request,
        block_request_generation: 1,
        block_device: 1,
        block_device_generation: 1,
        block_range: 5,
        block_range_generation: 1,
        sequence,
        completed_bytes: 2048,
        status: BlockCompletionStatus::Success,
        state: BlockCompletionObjectState::Recorded,
    }
}

fn block_graph(read_only: bool) -> SemanticGraph {
    let mut g = SemanticGraph::new();
    g.resources.push(ResourceRecord { id: 7, generation: 1, kind: ResourceKind::BlockDevice, live: true });
    g.device_objects.push(DeviceObjectRecord {
        id: 3,
        generation: 1,
        class: "block-device".to_string(),
        resource: 7,
        resource_generation: 1,
        state: DeviceObjectState::Registered,
    });
    assert!(g.record_block_device_object_with_id(1, "disk0", 3, 1, 512, 2048, false, 128, ""));
    assert!(g.record_block_range_object_with_id(5, 1, 1, 10, 4, ""));
    g.fake_block_backends.push(FakeBlockBackendObjectRecord {
        id: 8,
        generation: 1,
        block_device: 1,
        block_device_generation: 1,
        read_only,
        deterministic_seed: 9,
        state: FakeBlockBackendObjectState::Bound,
    });
    g
}

#[test]
fn write_payload_digest_exact_values() {
    assert_eq!(SemanticGraph::expected_block_write_payload_digest_v1(0, 0, 0, 0, 0, 0, 0, 0, 0), 0xe2f5_1678_cc7c_2164);
    assert_eq!(
        SemanticGraph::expected_block_write_payload_digest_v1(9, 1, 1, 5, 1, 10, 4, 1, 2048),
        0x7b4b_5e45_346d_ef52
    );
    assert_ne!(SemanticGraph::expected_block_write_payload_digest_v1(9, 1, 1, 5, 1, 10, 4, 2, 2048), 0);
}

#[test]
fn write_path_records_a_completed_write() {
    let mut g = block_graph(false);
    g.block_request_objects.push(request(11, 1, BlockRequestOperation::Write, BlockRequestObjectState::Completed));
    g.block_completion_objects.push(completion_for(21, 11, 1));
    let digest = SemanticGraph::expected_block_write_payload_digest_v1(9, 1, 1, 5, 1, 10, 4, 1, 2048);
    assert_eq!(
        g.validate_block_write_path(4, backend_ref(), 11, 1, 21, 1, digest ^ 1),
        Err("block write path payload digest mismatch")
    );
    assert_eq!(
        g.validate_block_write_path(4, backend_ref(), 11, 1, 21, 1, 0),
        Err("block write path identity values must be nonzero")
    );
    assert_eq!(g.validate_block_write_path(0, backend_ref(), 11, 1, 21, 1, digest), Err("block write path id=0 is invalid"));
    assert!(g.record_block_write_path_with_id(4, backend_ref(), 11, 1, 21, 1, digest, "w"));
    assert_eq!(g.block_write_path_count(), 1);
    assert_eq!(g.block_write_paths()[0].payload_digest, digest);
    assert_eq!(
        g.validate_block_write_path(6, backend_ref(), 11, 1, 21, 1, digest),
        Err("block write path already exists for request generation")
    );
    assert!(g.check_invariants().is_ok());
}

#[test]
fn write_path_refuses_read_only_backend_and_reads() {
    let mut g = block_graph(true);
    g.block_request_objects.push(request(11, 1, BlockRequestOperation::Write, BlockRequestObjectState::Completed));
    assert_eq!(g.validate_block_write_path(4, backend_ref(), 11, 1, 21, 1, 1), Err("block write path backend is read-only"));
    let mut g = block_graph(false);
    g.block_request_objects.push(request(11, 1, BlockRequestOperation::Read, BlockRequestObjectState::Completed));
    assert_eq!(
        g.validate_block_write_path(4, backend_ref(), 11, 1, 21, 1, 1),
        Err("block write path request operation is not write")
    );
}

#[test]
fn request_queue_orders_entries_by_sequence() {
    let mut g = block_graph(false);
    g.block_request_objects.push(request(11, 30, BlockRequestOperation::Read, BlockRequestObjectState::Submitted));
    g.block_request_objects.push(request(12, 10, BlockRequestOperation::Write, BlockRequestObjectState::Completed));
    g.block_request_objects.push(request(13, 20, BlockRequestOperation::Read, BlockRequestObjectState::Submitted));
    g.block_completion_objects.push(completion_for(22, 12, 10));
    let entries = vec![
        BlockRequestQueueEntryRef { request: 11, request_generation: 1, completion: None, completion_generation: None },
        BlockRequestQueueEntryRef { request: 12, request_generation: 1, completion: Some(22), completion_generation: Some(1) },
        BlockRequestQueueEntryRef { request: 13, request_generation: 1, completion: None, completion_generation: None },
    ];
    assert!(g.record_block_request_queue_with_id(2, backend_ref(), 1, 1, 4, &entries, "q"));
    let q = &g.block_request_queues()[0];
    let order: Vec<u64> = q.entries.iter().map(|e| e.sequence).collect();
    assert_eq!(order, vec![10, 20, 30]);
    assert_eq!(q.entries[0].state, BlockRequestQueueEntryState::Completed);
    assert_eq!(q.pending_count, 2);
    assert_eq!(q.completed_count, 1);
    assert_eq!(q.first_sequence, 10);
    assert_eq!(q.last_sequence, 30);
    assert!(g.check_block_request_queue_invariants().is_ok());
}

#[test]
fn request_queue_errors() {
    let mut g = block_graph(false);
    g.block_request_objects.push(request(11, 30, BlockRequestOperation::Read, BlockRequestObjectState::Submitted));
    g.block_request_objects.push(request(12, 30, BlockRequestOperation::Read, BlockRequestObjectState::Submitted));
    let one = vec![BlockRequestQueueEntryRef { request: 11, request_generation: 1, completion: None, completion_generation: None }];
    assert_eq!(g.validate_block_request_queue(2, backend_ref(), 1, 1, 0, &one).err(), Some("block request queue depth is zero"));
    assert_eq!(
        g.validate_block_request_queue(2, backend_ref(), 1, 1, 4, &[]).err(),
        Some("block request queue must record at least one request")
    );
    let twice = vec![one[0], one[0]];
    assert_eq!(
        g.validate_block_request_queue(2, backend_ref(), 1, 1, 4, &twice).err(),
        Some("block request queue request appears twice")
    );
    assert_eq!(
        g.validate_block_request_queue(2, backend_ref(), 1, 1, 1, &twice).err(),
        Some("block request queue depth exceeded")
    );
    let same_sequence = vec![
        one[0],
        BlockRequestQueueEntryRef { request: 12, request_generation: 1, completion: None, completion_generation: None },
    ];
    assert_eq!(
        g.validate_block_request_queue(2, backend_ref(), 1, 1, 4, &same_sequence).err(),
        Some("block request queue sequence appears twice")
    );
}

fn fs_graph() -> SemanticGraph {
    let mut g = SemanticGraph::new();
    g.stores.push(StoreRecord {
        id: 2,
        generation: 1,
        role: "app".to_string(),
        package: "editor".to_string(),
        state: StoreState::Running,
    });
    g.file_objects.push(FileObjectRecord {
        id: 5,
        generation: 1,
        namespace: "home".to_string(),
        file_key: "notes".to_string(),
        path: "/home/notes".to_string(),
        file_size: 64,
        content_digest: 77,
        state: FileObjectState::Materialized,
    });
    assert_eq!(
        g.validate_directory_object(6, 5, 1, "home", "root", "/home", "notes", "notes", "/home/other",
            DirectoryEntryKind::File, 64, 77, DirectoryObjectState::Materialized).err(),
        Some("directory object file identity mismatch")
    );
    assert!(g.record_directory_object_with_id(6, 5, 1, "home", "root", "/home", "notes", "notes", "/home/notes",
        DirectoryEntryKind::File, 64, 77, DirectoryObjectState::Materialized, ""));
    assert_eq!(
        g.validate_directory_object(7, 5, 1, "home", "root", "/home", "notes", "notes", "/home/notes",
            DirectoryEntryKind::File, 64, 77, DirectoryObjectState::Cached).err(),
        Some("directory object entry already materialized")
    );
    g.file_handle_capabilities.push(FileHandleCapabilityRecord {
        id: 4,
        generation: 1,
        owner_store: 2,
        owner_store_generation: 1,
        file_object: 5,
        file_object_generation: 1,
        directory_object: 6,
        directory_object_generation: 1,
        operation: "read".to_string(),
        byte_len: 64,
        state: FileHandleCapabilityState::Allowed,
    });
    g.waits.push(WaitRecord {
        id: 9,
        generation: 1,
        kind: SemanticWaitKind::FdReadable,
        blockers: vec![ContractObjectRef { kind: ContractObjectKind::FileHandleCapability, id: 4, generation: 1 }],
        owner_store: Some(2),
        owner_store_generation: Some(1),
        owner_task: None,
        deadline: None,
        restart_policy: WaitRestartPolicy::Restart,
        saved_context: None,
        state: WaitState::Pending,
        cancel_reason: None,
        errno: None,
    });
    g
}

#[test]
fn fs_wait_round_trip() {
    let mut g = fs_graph();
    assert_eq!(g.validate_fs_wait(1, 9, 1, 4, 1, "write", 1).err(), Some("fs wait operation does not match file handle capability"));
    assert_eq!(g.validate_fs_wait(1, 9, 1, 4, 1, "read", 0).err(), Some("fs wait identity values must be nonzero"));
    assert_eq!(g.validate_fs_wait(0, 9, 1, 4, 1, "read", 1).err(), Some("fs wait id=0 is invalid"));
    assert!(g.record_fs_wait_with_id(1, 9, 1, 4, 1, "read", 1, "wait"));
    assert_eq!(g.fs_wait_count(), 1);
    assert_eq!(g.fs_waits()[0].byte_len, 64);
    assert_eq!(g.fs_waits()[0].file_object, 5);
    assert_eq!(g.validate_fs_wait(1, 9, 1, 4, 1, "read", 1).err(), Some("fs wait already exists"));
    assert!(!g.cancel_fs_wait(1, 1, 5, WaitCancelReason::DeviceFault, ""));
    assert!(g.resolve_fs_wait(1, 1, "ready"));
    assert_eq!(g.fs_waits()[0].state, FsWaitState::Resolved);
    assert_eq!(g.waits[0].state, WaitState::Resolved);
    assert!(!g.resolve_fs_wait(1, 1, "again"));
    assert!(g.check_fs_wait_invariants().is_ok());
    assert!(g.check_invariants().is_ok());
    assert_eq!(g.directory_object_count(), 1);
}

#[test]
fn fs_wait_cancellation() {
    let mut g = fs_graph();
    assert!(g.record_fs_wait_with_id(1, 9, 1, 4, 1, "read", 1, "wait"));
    assert!(g.cancel_fs_wait(1, 1, 9, WaitCancelReason::CloseFd, "closed"));
    assert_eq!(g.fs_waits()[0].state, FsWaitState::Cancelled);
    assert_eq!(g.fs_waits()[0].cancel_reason, Some(WaitCancelReason::CloseFd));
    assert_eq!(g.waits[0].cancel_reason, Some(WaitCancelReason::CloseFd));
    assert!(g.check_fs_wait_invariants().is_ok());
}
