use semantic_core::base::{BlockCompletionObjectRecord, BlockRequestObjectRecord, WaitRecord};
use semantic_core::events::EventKind;
use semantic_core::graph::SemanticGraph;
use semantic_core::types::{WaitRestartPolicy, 
    BlockCompletionObjectState, BlockCompletionStatus, BlockPendingIoAction, BlockRequestObjectState,
    BlockRequestOperation, BlockWaitState, ContractObjectKind, ContractObjectRef, SemanticWaitKind,
    WaitCancelReason, WaitState,
};

fn request(id: u64, sequence: u64) -> BlockRequestObjectRecord {
    BlockRequestObjectRecord {
        id,
        generation: 1,
        block_device: 2,
        block_device_generation: 1,
        block_range: 3,
        block_range_generation: 1,
        operation: BlockRequestOperation::Read,
        sequence,
        byte_len: 4096,
        state: BlockRequestObjectState::Submitted,
    }
}

fn token(id: u64, request: u64) -> WaitRecord {
    WaitRecord {
        id,
        generation: 1,
        kind: SemanticWaitKind::DriverCompletion,
        blockers: vec![ContractObjectRef { kind: ContractObjectKind::BlockRequestObject, id: request, generation: 1 }],
        owner_store: None,
        owner_store_generation: None,
        owner_task: None,
        deadline: None,
        restart_policy: WaitRestartPolicy::Restart,
        saved_context: None,
        state: WaitState::Pending,
        cancel_reason: None,
        errno: None,
    }
}

fn completion(id: u64, request: u64, completed_bytes: u64) -> BlockCompletionObjectRecord {
    BlockCompletionObjectRecord {
        id,
        generation: 1,
        block_request: request,
        block_request_generation: 1,
        block_device: 2,
        block_device_generation: 1,
        block_range: 3,
        block_range_generation: 1,
        sequence: 1,
        completed_bytes,
        status: BlockCompletionStatus::Success,
        state: BlockCompletionObjectState::Recorded,
    }
}

fn waiting_graph() -> SemanticGraph {
    let mut g = SemanticGraph::new();
    g.block_request_objects.push(request(11, 1));
    g.waits.push(token(21, 11));
    assert!(g.record_block_wait_with_id(31, 21, 1, 11, 1, "read"));
    g
}

#[test]
fn block_wait_copies_request_attribution() {
    let g = waiting_graph();
    assert_eq!(g.block_wait_count(), 1);
    let w = &g.block_waits()[0];
    assert_eq!(w.state, BlockWaitState::Pending);
    assert_eq!(w.byte_len, 4096);
    assert_eq!(w.block_device, 2);
    assert_eq!(w.block_range, 3);
    assert_eq!(w.created_at_event, 1);
    assert!(g.check_block_wait_invariants().is_ok());
}

#[test]
fn block_wait_creation_errors() {
    let mut g = waiting_graph();
    assert_eq!(g.validate_block_wait(0, 21, 1, 11, 1), Err("block wait id=0 is invalid"));
    assert_eq!(g.validate_block_wait(31, 21, 1, 11, 1), Err("block wait already exists"));
    assert_eq!(g.validate_block_wait(32, 21, 0, 11, 1), Err("block wait identity values must be nonzero"));
    assert_eq!(g.validate_block_wait(32, 22, 1, 11, 1), Err("block wait token generation is missing or not pending"));
    assert_eq!(g.validate_block_wait(32, 21, 1, 11, 1), Err("block wait token already has a pending block wait"));
    g.waits.push(token(22, 12));
    assert_eq!(
        g.validate_block_wait(32, 22, 1, 11, 1),
        Err("block wait token does not reference the requested block request")
    );
    assert_eq!(g.validate_block_wait(32, 22, 1, 12, 1), Err("block wait request generation is missing or not submitted"));
    g.waits.push(token(23, 11));
    assert_eq!(g.validate_block_wait(32, 23, 1, 11, 1), Err("block request already has a pending block wait"));
}

#[test]
fn block_wait_resolves_with_full_completion() {
    let mut g = waiting_graph();
    g.block_completion_objects.push(completion(41, 11, 100));
    assert!(!g.resolve_block_wait_with_completion(31, 1, 41, 1, "short"));
    g.block_completion_objects.push(completion(42, 11, 4096));
    assert!(g.resolve_block_wait_with_completion(31, 1, 42, 1, "done"));
    let w = &g.block_waits()[0];
    assert_eq!(w.state, BlockWaitState::Resolved);
    assert_eq!(w.completion, Some(42));
    assert_eq!(g.waits[0].state, WaitState::Resolved);
    assert_eq!(g.event_log.events[1].kind, EventKind::WaitResolved { wait: 21, generation: 1 });
    assert!(!g.resolve_block_wait_with_completion(31, 1, 42, 1, "again"));
}

#[test]
fn block_wait_cancellation_needs_block_io_reason() {
    let mut g = waiting_graph();
    assert!(!g.cancel_block_wait(31, 1, 5, WaitCancelReason::CloseFd, ""));
    assert!(g.cancel_block_wait(31, 1, 5, WaitCancelReason::DeviceFault, "fault"));
    assert_eq!(g.block_waits()[0].state, BlockWaitState::Cancelled);
    assert_eq!(g.block_waits()[0].cancel_reason, Some(WaitCancelReason::DeviceFault));
    assert_eq!(g.waits[0].state, WaitState::Cancelled);
    assert_eq!(g.waits[0].errno, Some(5));
    assert!(g.check_block_wait_invariants().is_ok());
}

#[test]
fn pending_io_policy_eio_cancels_the_wait() {
    let mut g = waiting_graph();
    assert_eq!(
        g.validate_block_pending_io_policy(0, 31, 1, BlockPendingIoAction::Eio, None, None, 5, 0, 0),
        Err("block pending io policy id=0 is invalid")
    );
    assert_eq!(
        g.validate_block_pending_io_policy(1, 31, 1, BlockPendingIoAction::Eio, None, None, 0, 0, 0),
        Err("block pending io policy errno must be positive")
    );
    assert_eq!(
        g.validate_block_pending_io_policy(1, 31, 1, BlockPendingIoAction::Eio, None, None, 4, 0, 0),
        Err("eio policy must return errno 5")
    );
    assert_eq!(
        g.validate_block_pending_io_policy(1, 31, 1, BlockPendingIoAction::Retry, None, None, 5, 2, 1),
        Err("retry policy retry attempt is outside max retries")
    );
    assert_eq!(
        g.validate_block_pending_io_policy(1, 31, 1, BlockPendingIoAction::Retry, None, None, 5, 1, 3),
        Err("retry policy missing retry request")
    );
    assert_eq!(
        g.validate_block_pending_io_policy(1, 31, 1, BlockPendingIoAction::Cancel, Some(11), Some(1), 5, 0, 0),
        Err("cancel policy must not carry retry request")
    );
    assert_eq!(g.validate_block_pending_io_policy(1, 31, 1, BlockPendingIoAction::Eio, None, None, 5, 0, 0), Ok(0));
    assert!(g.apply_block_pending_io_policy_with_id(1, 31, 1, BlockPendingIoAction::Eio, None, None, 5, 0, 0, "eio"));
    assert_eq!(g.block_pending_io_policy_count(), 1);
    assert_eq!(g.block_waits()[0].state, BlockWaitState::Cancelled);
    assert_eq!(g.block_waits()[0].cancel_reason, Some(WaitCancelReason::DeviceFault));
    assert_eq!(
        g.validate_block_pending_io_policy(1, 31, 1, BlockPendingIoAction::Eio, None, None, 5, 0, 0),
        Err("block pending io policy already exists")
    );
    assert_eq!(
        g.validate_block_pending_io_policy(2, 31, 1, BlockPendingIoAction::Eio, None, None, 5, 0, 0),
        Err("block wait already has a pending io policy")
    );
}

#[test]
fn pending_io_policy_retry_names_a_matching_request() {
    let mut g = waiting_graph();
    g.block_request_objects.push(request(12, 2));
    assert_eq!(
        g.validate_block_pending_io_policy(1, 31, 1, BlockPendingIoAction::Retry, Some(12), None, 5, 1, 3),
        Err("retry policy missing retry request generation")
    );
    assert_eq!(
        g.validate_block_pending_io_policy(1, 31, 1, BlockPendingIoAction::Retry, Some(13), Some(1), 5, 1, 3),
        Err("retry policy retry request generation is missing or not submitted")
    );
    assert_eq!(
        g.validate_block_pending_io_policy(1, 31, 1, BlockPendingIoAction::Retry, Some(12), Some(1), 5, 1, 3),
        Ok(0)
    );
}
